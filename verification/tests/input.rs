use dstrafe::input::{InputKey, ShortcutState, UiCommand};

#[test]
fn left_control_f7_toggles_fullscreen() {
    let mut shortcuts = ShortcutState::default();

    assert_eq!(shortcuts.on_key_press(InputKey::ControlLeft), None);
    assert_eq!(
        shortcuts.on_key_press(InputKey::F7),
        Some(UiCommand::ToggleSecondDisplayFullscreen)
    );
}

#[test]
fn right_control_f7_toggles_fullscreen() {
    let mut shortcuts = ShortcutState::default();

    assert_eq!(shortcuts.on_key_press(InputKey::ControlRight), None);
    assert_eq!(
        shortcuts.on_key_press(InputKey::F7),
        Some(UiCommand::ToggleSecondDisplayFullscreen)
    );
}

#[test]
fn f7_without_control_does_not_toggle_fullscreen() {
    let mut shortcuts = ShortcutState::default();

    assert_eq!(shortcuts.on_key_press(InputKey::F7), None);
}

#[test]
fn releasing_one_control_keeps_other_control_active() {
    let mut shortcuts = ShortcutState::default();

    shortcuts.on_key_press(InputKey::ControlLeft);
    shortcuts.on_key_press(InputKey::ControlRight);
    shortcuts.on_key_release(InputKey::ControlLeft);

    assert_eq!(
        shortcuts.on_key_press(InputKey::F7),
        Some(UiCommand::ToggleSecondDisplayFullscreen)
    );
}

#[test]
fn held_f7_does_not_repeat_fullscreen_toggle() {
    let mut shortcuts = ShortcutState::default();

    shortcuts.on_key_press(InputKey::ControlLeft);

    assert_eq!(
        shortcuts.on_key_press(InputKey::F7),
        Some(UiCommand::ToggleSecondDisplayFullscreen)
    );
    assert_eq!(shortcuts.on_key_press(InputKey::F7), None);

    shortcuts.on_key_release(InputKey::F7);

    assert_eq!(
        shortcuts.on_key_press(InputKey::F7),
        Some(UiCommand::ToggleSecondDisplayFullscreen)
    );
}
