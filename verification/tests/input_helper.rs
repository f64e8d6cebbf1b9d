use uibackend::input::{
    HostEvent, InputHelper, ToolkitEvent, KEY_BACKSPACE, KEY_BACKTAB, KEY_DOWN_ARROW,
    KEY_LEFT_ARROW, KEY_RETURN, KEY_RIGHT_ARROW, KEY_TAB, KEY_UP_ARROW,
};

fn key_down(key: &str) -> HostEvent {
    HostEvent::KeyDown { key: key.to_string(), shift: false, is_composing: false }
}

fn key_up(key: &str) -> HostEvent {
    HostEvent::KeyUp { key: key.to_string(), shift: false, is_composing: false }
}

fn plain_input(data: &str) -> HostEvent {
    HostEvent::Input {
        data: Some(data.to_string()),
        is_composing: false,
        is_composition_insert: false,
    }
}

#[test]
fn key_down_then_up_dispatches_once_despite_input_event() {
    let mut helper = InputHelper::new();

    let down = helper.process_event(key_down("a"));
    assert_eq!(down.events, vec![ToolkitEvent::KeyPressed { text: "a".to_string() }]);
    assert!(helper.has_key_down);

    // The browser follows the key-down with an input event carrying the same
    // character; nothing more may be synthesized from it.
    let echoed = helper.process_event(plain_input("a"));
    assert_eq!(echoed.events, vec![]);
    assert!(echoed.clear_input);

    let up = helper.process_event(key_up("a"));
    assert_eq!(up.events, vec![ToolkitEvent::KeyReleased { text: "a".to_string() }]);
    assert!(!helper.has_key_down);
}

#[test]
fn composition_updates_dispatch_full_text_and_one_commit() {
    let mut helper = InputHelper::new();

    let first = helper.process_event(HostEvent::CompositionUpdate { data: Some("ab".to_string()) });
    assert_eq!(
        first.events,
        vec![ToolkitEvent::UpdateComposition { text: "ab".to_string(), cursor: 2 }]
    );

    let second = helper.process_event(HostEvent::CompositionUpdate { data: Some("abc".to_string()) });
    assert_eq!(
        second.events,
        vec![ToolkitEvent::UpdateComposition { text: "abc".to_string(), cursor: 3 }]
    );

    let end = helper.process_event(HostEvent::CompositionEnd { data: Some("abc".to_string()) });
    assert_eq!(end.events, vec![ToolkitEvent::CommitComposition { text: "abc".to_string() }]);
    assert!(end.clear_input);

    for response in [&first, &second, &end] {
        for event in &response.events {
            assert!(!matches!(event, ToolkitEvent::KeyPressed { .. }));
            assert!(!matches!(event, ToolkitEvent::KeyReleased { .. }));
        }
    }
}

#[test]
fn input_without_key_down_synthesizes_press_and_release() {
    let mut helper = InputHelper::new();
    let response = helper.process_event(plain_input("hi"));
    assert_eq!(
        response.events,
        vec![
            ToolkitEvent::KeyPressed { text: "hi".to_string() },
            ToolkitEvent::KeyReleased { text: "hi".to_string() },
        ]
    );
    assert!(response.clear_input);
    assert!(!helper.has_key_down);
}

#[test]
fn composing_input_events_are_ignored() {
    let mut helper = InputHelper::new();
    let response = helper.process_event(HostEvent::Input {
        data: Some("x".to_string()),
        is_composing: true,
        is_composition_insert: false,
    });
    assert_eq!(response.events, vec![]);
    assert!(!response.clear_input);

    let insert = helper.process_event(HostEvent::Input {
        data: Some("x".to_string()),
        is_composing: false,
        is_composition_insert: true,
    });
    assert_eq!(insert.events, vec![]);
}

#[test]
fn composing_key_events_are_ignored() {
    let mut helper = InputHelper::new();
    let response = helper.process_event(HostEvent::KeyDown {
        key: "a".to_string(),
        shift: false,
        is_composing: true,
    });
    assert_eq!(response.events, vec![]);
    assert!(!helper.has_key_down);
}

#[test]
fn event_text_maps_named_keys() {
    assert_eq!(InputHelper::event_text("Tab", false, false), Some(KEY_TAB));
    assert_eq!(InputHelper::event_text("Tab", true, false), Some(KEY_BACKTAB));
    assert_eq!(InputHelper::event_text("Backspace", false, false), Some(KEY_BACKSPACE));
    assert_eq!(InputHelper::event_text("Enter", false, false), Some(KEY_RETURN));
    assert_eq!(InputHelper::event_text("ArrowLeft", false, false), Some(KEY_LEFT_ARROW));
    assert_eq!(InputHelper::event_text("ArrowUp", false, false), Some(KEY_UP_ARROW));
    assert_eq!(InputHelper::event_text("ArrowRight", false, false), Some(KEY_RIGHT_ARROW));
    assert_eq!(InputHelper::event_text("ArrowDown", false, false), Some(KEY_DOWN_ARROW));
}

#[test]
fn event_text_passes_single_characters_through() {
    assert_eq!(InputHelper::event_text("a", false, false), Some('a'));
    assert_eq!(InputHelper::event_text("Z", true, false), Some('Z'));
    assert_eq!(InputHelper::event_text("é", false, false), Some('é'));
}

#[test]
fn event_text_drops_unknown_named_keys_and_composition() {
    assert_eq!(InputHelper::event_text("F5", false, false), None);
    assert_eq!(InputHelper::event_text("Shift", false, false), None);
    assert_eq!(InputHelper::event_text("a", false, true), None);
}

#[test]
fn losing_focus_away_from_canvas_deactivates_window() {
    let mut helper = InputHelper::new();
    let response = helper.process_event(HostEvent::FocusLost { canvas_has_focus: false });
    assert_eq!(
        response.events,
        vec![
            ToolkitEvent::WindowActive { active: false },
            ToolkitEvent::WindowFocus { focused: false },
        ]
    );

    let kept = helper.process_event(HostEvent::FocusLost { canvas_has_focus: true });
    assert_eq!(kept.events, vec![]);
}

#[test]
fn empty_input_data_does_nothing() {
    let mut helper = InputHelper::new();
    let response = helper.process_event(HostEvent::Input {
        data: None,
        is_composing: false,
        is_composition_insert: false,
    });
    assert_eq!(response.events, vec![]);
    assert!(!response.clear_input);
}
