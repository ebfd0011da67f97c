use shortcut_registry::trigger::{on_key_event, KeyState};

#[test]
fn press_raises_the_trigger_event() {
    assert_eq!(on_key_event(KeyState::Pressed), Some("trigger-screenshot"));
}

#[test]
fn release_raises_nothing() {
    assert_eq!(on_key_event(KeyState::Released), None);
}
