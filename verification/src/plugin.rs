//! Configuration of the capture feature, the hooks it asks the host to
//! install, and the key-driven request hook.

use crate::latch::RenderDocTrigger;
use bevy::input::keyboard::KeyCode;
use bevy::input::keyboard::NativeKeyCode;
use bevy::input::ButtonInput;
use std::hash::Hash;
use vstd::prelude::*;

verus! {

/// `bevy::input::keyboard::NativeKeyCode`: the platform's code of a key
/// that has no name, with its variants as declared there.
#[verifier::external_type_specification]
pub struct ExNativeKeyCode(NativeKeyCode);

/// `bevy::input::keyboard::KeyCode`: the physical keys, with the variants as
/// declared there. Two keys are equal when they are the same variant.
#[verifier::external_type_specification]
pub struct ExKeyCode(KeyCode);

/// `bevy::input::ButtonInput`: the host's record of which buttons are down
/// and which changed in the current frame. Nothing inside it is visible
/// here; see [`just_pressed_keys`].
#[verifier::external_type_specification]
#[verifier::external_body]
#[verifier::reject_recursive_types(T)]
pub struct ExButtonInput<T: Copy + Eq + Hash + Send + Sync + 'static>(ButtonInput<T>);

/// The keys that `keys` records as newly pressed: those that went down since
/// the record was last cleared and were not down before.
pub uninterp spec fn just_pressed_keys(keys: ButtonInput<KeyCode>) -> Set<KeyCode>;

/// `ButtonInput::just_pressed`: whether `key` is among the keys recorded as
/// newly pressed. The call is a lookup in that set and changes nothing.
#[verifier::external_body]
fn key_just_pressed(keys: &ButtonInput<KeyCode>, key: KeyCode) -> (pressed: bool)
    ensures
        pressed == just_pressed_keys(*keys).contains(key),
{
    keys.just_pressed(key)
}

/// The hooks that the host pipeline is asked to install.
pub struct HookPlan {
    /// Whether the two render-cycle hooks are installed: one at extraction,
    /// one after rendering and before cleanup.
    pub capture_hooks: bool,
    /// The key whose press requests a capture, if the input hook is
    /// installed.
    pub input_hook: Option<KeyCode>,
}

/// The configuration of the capture feature.
pub struct RenderDocPlugin {
    key_code: Option<KeyCode>,
}

impl View for RenderDocPlugin {
    type V = Option<KeyCode>;

    /// The key bound to the input hook, if any.
    closed spec fn view(&self) -> Option<KeyCode> {
        self.key_code
    }
}

impl Default for RenderDocPlugin {
    /// The input hook bound to the preset key, F10.
    fn default() -> (plugin: Self)
        ensures
            plugin@ == Some(KeyCode::F10),
    {
        RenderDocPlugin { key_code: Some(KeyCode::F10) }
    }
}

impl RenderDocPlugin {
    /// The input hook bound to `key_code`.
    pub fn new_with_trigger_key(key_code: KeyCode) -> (plugin: Self)
        ensures
            plugin@ == Some(key_code),
    {
        RenderDocPlugin { key_code: Some(key_code) }
    }

    /// No input hook: captures are requested through the trigger alone.
    pub fn new_without_trigger() -> (plugin: Self)
        ensures
            plugin@ is None,
    {
        RenderDocPlugin { key_code: None }
    }

    /// The key bound to the input hook, if any.
    pub fn trigger_key(&self) -> (key: Option<KeyCode>)
        ensures
            key == self@,
    {
        self.key_code
    }

    /// Which hooks to install, given whether the capture tool could be
    /// loaded. Without the tool nothing is installed.
    pub fn registration(&self, tool_available: bool) -> (plan: HookPlan)
        ensures
            plan.capture_hooks == tool_available,
            plan.input_hook == (if tool_available { self@ } else { None }),
    {
        if tool_available {
            HookPlan { capture_hooks: true, input_hook: self.key_code }
        } else {
            HookPlan { capture_hooks: false, input_hook: None }
        }
    }

    /// Whether the input hook fires in a frame with the given newly pressed
    /// keys.
    pub open spec fn fires_on(self, just_pressed: Set<KeyCode>) -> bool {
        match self@ {
            Some(key) => just_pressed.contains(key),
            None => false,
        }
    }

    /// The input hook, run once per frame: requests a capture when the bound
    /// key was pressed in this frame, and returns whether it did. A key that
    /// is merely held down does not fire.
    pub fn poll_trigger_key(
        &self,
        keys: &ButtonInput<KeyCode>,
        trigger: &RenderDocTrigger,
    ) -> (fired: bool)
        ensures
            fired == self.fires_on(just_pressed_keys(*keys)),
    {
        match self.key_code {
            Some(key) => {
                let pressed = key_just_pressed(keys, key);
                request_if(pressed, trigger)
            },
            None => false,
        }
    }
}

/// Requests a capture if `pressed` holds; returns `pressed`.
pub fn request_if(pressed: bool, trigger: &RenderDocTrigger) -> (fired: bool)
    ensures
        fired == pressed,
{
    if pressed {
        trigger.capture();
    }
    pressed
}

} // verus!
