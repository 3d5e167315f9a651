use bevy::input::keyboard::KeyCode;
use bevy::input::ButtonInput;
use bevy_renderdoc_capture::plugin::request_if;
use bevy_renderdoc_capture::RenderDocPlugin;
use bevy_renderdoc_capture::RenderDocTrigger;

#[test]
fn default_binds_f10() {
    assert_eq!(RenderDocPlugin::default().trigger_key(), Some(KeyCode::F10));
}

#[test]
fn chosen_key_is_bound() {
    let plugin = RenderDocPlugin::new_with_trigger_key(KeyCode::F12);
    assert_eq!(plugin.trigger_key(), Some(KeyCode::F12));
}

#[test]
fn no_trigger_binds_no_key() {
    assert_eq!(RenderDocPlugin::new_without_trigger().trigger_key(), None);
}

#[test]
fn unavailable_tool_installs_nothing() {
    for plugin in [
        RenderDocPlugin::default(),
        RenderDocPlugin::new_with_trigger_key(KeyCode::F12),
        RenderDocPlugin::new_without_trigger(),
    ] {
        let plan = plugin.registration(false);
        assert!(!plan.capture_hooks);
        assert_eq!(plan.input_hook, None);
    }
}

#[test]
fn available_tool_installs_the_configured_hooks() {
    let plan = RenderDocPlugin::default().registration(true);
    assert!(plan.capture_hooks);
    assert_eq!(plan.input_hook, Some(KeyCode::F10));

    let plan = RenderDocPlugin::new_with_trigger_key(KeyCode::KeyC).registration(true);
    assert!(plan.capture_hooks);
    assert_eq!(plan.input_hook, Some(KeyCode::KeyC));

    let plan = RenderDocPlugin::new_without_trigger().registration(true);
    assert!(plan.capture_hooks);
    assert_eq!(plan.input_hook, None);
}

#[test]
fn held_key_fires_once_in_ten_frames() {
    let plugin = RenderDocPlugin::default();
    let trigger = RenderDocTrigger::new();
    let mut keys: ButtonInput<KeyCode> = ButtonInput::default();
    let mut fired = 0;
    for frame in 0..10 {
        keys.clear();
        // The key goes down in the first frame and is held; the platform
        // keeps reporting the press while it is held.
        keys.press(KeyCode::F10);
        if plugin.poll_trigger_key(&keys, &trigger) {
            fired += 1;
            assert_eq!(frame, 0);
        }
    }
    assert_eq!(fired, 1);
    assert_eq!((trigger.consume_and_clear(), trigger.consume_and_clear()), (true, false));
}

#[test]
fn release_and_press_fires_again() {
    let plugin = RenderDocPlugin::new_with_trigger_key(KeyCode::F12);
    let trigger = RenderDocTrigger::new();
    let mut keys: ButtonInput<KeyCode> = ButtonInput::default();
    keys.press(KeyCode::F12);
    assert!(plugin.poll_trigger_key(&keys, &trigger));
    keys.clear();
    assert!(!plugin.poll_trigger_key(&keys, &trigger));
    keys.release(KeyCode::F12);
    keys.clear();
    keys.press(KeyCode::F12);
    assert!(plugin.poll_trigger_key(&keys, &trigger));
}

#[test]
fn other_keys_do_not_fire() {
    let plugin = RenderDocPlugin::default();
    let trigger = RenderDocTrigger::new();
    let mut keys: ButtonInput<KeyCode> = ButtonInput::default();
    keys.press(KeyCode::F9);
    keys.press(KeyCode::F11);
    assert!(!plugin.poll_trigger_key(&keys, &trigger));
    assert!(!trigger.consume_and_clear());
}

#[test]
fn disabled_hook_never_fires() {
    let plugin = RenderDocPlugin::new_without_trigger();
    let trigger = RenderDocTrigger::new();
    let mut keys: ButtonInput<KeyCode> = ButtonInput::default();
    keys.press(KeyCode::F10);
    assert!(!plugin.poll_trigger_key(&keys, &trigger));
    assert!(!trigger.consume_and_clear());
}

#[test]
fn request_if_latches_only_when_pressed() {
    let trigger = RenderDocTrigger::new();
    assert!(!request_if(false, &trigger));
    assert!(!trigger.consume_and_clear());
    assert!(request_if(true, &trigger));
    assert!(trigger.consume_and_clear());
}
