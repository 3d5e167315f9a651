use bevy_renderdoc_capture::CaptureError;
use bevy_renderdoc_capture::CaptureSessionState;
use bevy_renderdoc_capture::RenderDocData;
use bevy_renderdoc_capture::RenderDocTrigger;

#[test]
fn new_session_state_is_inactive() {
    let state = CaptureSessionState::new();
    assert!(!state.is_active());
}

#[test]
fn cycle_without_request_does_nothing() {
    let mut state = CaptureSessionState::new();
    assert_eq!(state.cycle_start(false), Ok(false));
    assert!(!state.is_active());
    assert!(!state.render_complete());
    assert!(!state.is_active());
}

#[test]
fn cycle_with_request_brackets_the_frame() {
    let mut state = CaptureSessionState::new();
    assert_eq!(state.cycle_start(true), Ok(true));
    assert!(state.is_active());
    assert!(state.render_complete());
    assert!(!state.is_active());
    // A second completion in the same cycle finds nothing to end.
    assert!(!state.render_complete());
}

#[test]
fn begin_and_end_directives_pair_up() {
    let mut state = CaptureSessionState::new();
    let mut begun = 0;
    let mut ended = 0;
    for pending in [false, true, true, false, true, false, false, true] {
        if state.cycle_start(pending) == Ok(true) {
            begun += 1;
        }
        assert_eq!(state.is_active(), pending);
        if state.render_complete() {
            ended += 1;
        }
        assert!(!state.is_active());
        assert_eq!(begun, ended);
    }
    assert_eq!(begun, 4);
}

#[test]
fn double_activation_closes_the_stale_session() {
    let mut state = CaptureSessionState::new();
    assert_eq!(state.cycle_start(true), Ok(true));
    // The cycle never completed; the next start finds the session open. It
    // reports that, and still serves the request that is pending.
    assert_eq!(state.cycle_start(true), Err(CaptureError::DoubleActivation));
    assert!(state.is_active());
    assert!(state.render_complete());
    assert!(!state.is_active());
    // The feature is not wedged: the next cycle captures again.
    assert_eq!(state.cycle_start(true), Ok(true));
    assert!(state.render_complete());
}

#[test]
fn double_activation_without_request_is_still_an_error() {
    let mut state = CaptureSessionState::new();
    assert_eq!(state.cycle_start(true), Ok(true));
    assert_eq!(state.cycle_start(false), Err(CaptureError::DoubleActivation));
    assert!(!state.is_active());
    assert!(!state.render_complete());
    assert_eq!(state.cycle_start(false), Ok(false));
}

#[test]
fn directives_pair_up_across_a_stale_session() {
    let mut state = CaptureSessionState::new();
    let mut begun = 0;
    let mut ended = 0;
    // Three cycle starts in a row with a request each, then one completion.
    for _ in 0..3 {
        let stale = state.cycle_start(true) == Err(CaptureError::DoubleActivation);
        if stale {
            ended += 1;
        }
        begun += 1;
        assert!(state.is_active());
        assert_eq!(begun, ended + 1);
    }
    if state.render_complete() {
        ended += 1;
    }
    assert_eq!((begun, ended), (3, 3));
    assert!(!state.is_active());
}

#[test]
fn request_before_extraction_is_seen_by_that_cycle() {
    let trigger = RenderDocTrigger::new();
    let mut state = CaptureSessionState::new();
    // Cycle N: the request comes before extraction.
    trigger.capture();
    assert_eq!(state.cycle_start(trigger.consume_and_clear()), Ok(true));
    assert!(state.render_complete());
}

#[test]
fn request_after_extraction_waits_for_the_next_cycle() {
    let trigger = RenderDocTrigger::new();
    let mut state = CaptureSessionState::new();
    // Cycle N: extraction finds nothing; the request comes afterwards.
    assert_eq!(state.cycle_start(trigger.consume_and_clear()), Ok(false));
    trigger.capture();
    assert!(!state.render_complete());
    assert!(!state.is_active());
    // Cycle N+1 serves it.
    assert_eq!(state.cycle_start(trigger.consume_and_clear()), Ok(true));
    assert!(state.render_complete());
    // And only once.
    assert_eq!(state.cycle_start(trigger.consume_and_clear()), Ok(false));
}

#[test]
fn attach_reports_only_tool_unavailable() {
    match RenderDocData::attach(RenderDocTrigger::new()) {
        Ok(controller) => assert!(!controller.is_capture_active()),
        Err(e) => assert_eq!(e, CaptureError::ToolUnavailable),
    }
}

#[test]
fn controller_follows_the_load_outcome() {
    let loaded = renderdoc::RenderDoc::<renderdoc::V100>::new();
    let available = loaded.is_ok();
    let controller = RenderDocData::from_loaded(RenderDocTrigger::new(), loaded);
    assert_eq!(controller.is_ok(), available);
    match controller {
        Ok(c) => assert!(!c.is_capture_active()),
        Err(e) => assert_eq!(e, CaptureError::ToolUnavailable),
    }
}
