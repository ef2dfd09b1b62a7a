//! The decisions taken on raw input events: hotkeys, the Ctrl+F7 shortcut,
//! and the movement keys and clicks that feed the classifier.
use vstd::prelude::*;
use crate::classifier::{
    classifier_wf,
    fresh_classifier,
    press_effect,
    release_effect,
    setup_error,
    shot_effect,
    shot_verdict,
    ClassifierState,
    MovementClassifier,
    ShotClassification,
};
use crate::config::MovementKeys;

verus! {

/// What the overlay is asked to do.
#[derive(Clone, Debug, PartialEq, Eq, Structural)]
pub enum UiCommand {
    Shot(ShotClassification),
    ToggleVisible,
    ToggleSecondDisplayFullscreen,
    IncreaseSize,
    DecreaseSize,
    Exit,
}

/// A key the program listens to.
#[derive(Clone, Copy, Debug, PartialEq, Eq, Structural)]
pub enum InputKey {
    Character(char),
    F6,
    F7,
    F8,
    Equal,
    Minus,
    ControlLeft,
    ControlRight,
}

/// A raw input event.
#[derive(Clone, Copy, Debug, PartialEq, Eq, Structural)]
pub enum InputEvent {
    KeyPress(InputKey),
    KeyRelease(InputKey),
    LeftMouseDown,
}

impl InputKey {
    /// The character of a character key.
    pub open spec fn char_of(self) -> Option<char> {
        match self {
            InputKey::Character(c) => Some(c),
            _ => None,
        }
    }

    /// The character of a character key, `None` for the other keys.
    pub fn character(self) -> (r: Option<char>)
        ensures
            r == self.char_of(),
    {
        match self {
            InputKey::Character(key) => Some(key),
            _ => None,
        }
    }
}

/// Which of the keys of the Ctrl+F7 shortcut are down.
#[derive(Clone, Copy, Debug, PartialEq, Eq, Structural)]
pub struct ShortcutState {
    pub left_ctrl_down: bool,
    pub right_ctrl_down: bool,
    pub f7_down: bool,
}

/// No key down.
pub open spec fn idle_shortcuts() -> ShortcutState {
    ShortcutState { left_ctrl_down: false, right_ctrl_down: false, f7_down: false }
}

impl Default for ShortcutState {
    fn default() -> (r: Self)
        ensures
            r == idle_shortcuts(),
    {
        ShortcutState { left_ctrl_down: false, right_ctrl_down: false, f7_down: false }
    }
}

impl ShortcutState {
    /// Either control key is down.
    pub open spec fn ctrl_down(self) -> bool {
        self.left_ctrl_down || self.right_ctrl_down
    }

    /// The state after `key` goes down, and the command it triggers: a fresh
    /// F7 press (F7 was up) while a control key is down toggles fullscreen on
    /// the second display; a repeated F7 press does nothing.
    pub open spec fn after_key_press(self, key: InputKey) -> (ShortcutState, Option<UiCommand>) {
        match key {
            InputKey::ControlLeft => (ShortcutState { left_ctrl_down: true, ..self }, None),
            InputKey::ControlRight => (ShortcutState { right_ctrl_down: true, ..self }, None),
            InputKey::F7 => if self.f7_down {
                (self, None)
            } else {
                (
                    ShortcutState { f7_down: true, ..self },
                    if self.ctrl_down() {
                        Some(UiCommand::ToggleSecondDisplayFullscreen)
                    } else {
                        None
                    },
                )
            },
            _ => (self, None),
        }
    }

    /// The state after `key` goes up.
    pub open spec fn after_key_release(self, key: InputKey) -> ShortcutState {
        match key {
            InputKey::ControlLeft => ShortcutState { left_ctrl_down: false, ..self },
            InputKey::ControlRight => ShortcutState { right_ctrl_down: false, ..self },
            InputKey::F7 => ShortcutState { f7_down: false, ..self },
            _ => self,
        }
    }

    /// Records that `key` went down and returns the command it triggers
    /// (see `after_key_press`).
    pub fn on_key_press(&mut self, key: InputKey) -> (r: Option<UiCommand>)
        ensures
            (*final(self), r) == old(self).after_key_press(key),
    {
        match key {
            InputKey::ControlLeft => self.left_ctrl_down = true,
            InputKey::ControlRight => self.right_ctrl_down = true,
            InputKey::F7 => {
                if self.f7_down {
                    return None;
                }
                self.f7_down = true;
                if self.is_ctrl_down() {
                    return Some(UiCommand::ToggleSecondDisplayFullscreen);
                }
            },
            _ => {},
        }
        None
    }

    /// Records that `key` went up.
    pub fn on_key_release(&mut self, key: InputKey)
        ensures
            *final(self) == old(self).after_key_release(key),
    {
        match key {
            InputKey::ControlLeft => self.left_ctrl_down = false,
            InputKey::ControlRight => self.right_ctrl_down = false,
            InputKey::F7 => self.f7_down = false,
            _ => {},
        }
    }

    /// Whether either control key is down.
    pub fn is_ctrl_down(&self) -> (r: bool)
        ensures
            r == self.ctrl_down(),
    {
        self.left_ctrl_down || self.right_ctrl_down
    }
}

/// The listener's state: the classifier, the configured movement keys and
/// the shortcut keys.
pub type ListenerState = (ClassifierState, MovementKeys, ShortcutState);

/// The classifier a listener starts with: the one on the configured keys, or
/// the default one when those keys cannot make a classifier.
pub open spec fn initial_classifier(keys: MovementKeys) -> ClassifierState {
    let v = [keys.forward, keys.backward];
    let h = [keys.left, keys.right];
    if setup_error(v, h) is None {
        fresh_classifier(v, h)
    } else {
        fresh_classifier(['W', 'S'], ['A', 'D'])
    }
}

/// The listener's state after `event` at time `t`, and the command to send.
///
/// F6, F8, `=` and `-` are hotkeys (toggle visibility, exit, grow, shrink).
/// Another key press goes to the shortcuts; when it triggers nothing and is
/// a configured movement key, the classifier sees the press. A key release
/// goes to the shortcuts and, for a configured movement key, to the
/// classifier. A left click classifies a shot and sends the verdict.
pub open spec fn listener_step(s: ListenerState, event: InputEvent, t: i64) -> (
    ListenerState,
    Option<UiCommand>,
) {
    match event {
        InputEvent::KeyPress(InputKey::F6) => (s, Some(UiCommand::ToggleVisible)),
        InputEvent::KeyPress(InputKey::F8) => (s, Some(UiCommand::Exit)),
        InputEvent::KeyPress(InputKey::Equal) => (s, Some(UiCommand::IncreaseSize)),
        InputEvent::KeyPress(InputKey::Minus) => (s, Some(UiCommand::DecreaseSize)),
        InputEvent::KeyPress(key) => {
            let (shortcuts, command) = s.2.after_key_press(key);
            if command is Some {
                ((s.0, s.1, shortcuts), command)
            } else if key.char_of() is Some && s.1.has_key(key.char_of().unwrap()) {
                ((press_effect(s.0, key.char_of().unwrap(), t), s.1, shortcuts), None)
            } else {
                ((s.0, s.1, shortcuts), None)
            }
        },
        InputEvent::KeyRelease(key) => {
            let shortcuts = s.2.after_key_release(key);
            if key.char_of() is Some && s.1.has_key(key.char_of().unwrap()) {
                ((release_effect(s.0, key.char_of().unwrap(), t), s.1, shortcuts), None)
            } else {
                ((s.0, s.1, shortcuts), None)
            }
        },
        InputEvent::LeftMouseDown => (
            (shot_effect(s.0), s.1, s.2),
            Some(UiCommand::Shot(shot_verdict(s.0, t))),
        ),
    }
}

/// Turns raw input events into classifier updates and overlay commands; the
/// caller sends each returned command to the overlay.
#[derive(Clone, Debug)]
pub struct InputListener {
    classifier: MovementClassifier,
    movement_keys: MovementKeys,
    shortcuts: ShortcutState,
}

impl View for InputListener {
    type V = ListenerState;

    closed spec fn view(&self) -> ListenerState {
        (self.classifier@, self.movement_keys, self.shortcuts)
    }
}

impl InputListener {
    /// A listener for the configured movement keys, with no key down.
    pub fn new(movement_keys: MovementKeys) -> (r: Self)
        ensures
            r@ == (initial_classifier(movement_keys), movement_keys, idle_shortcuts()),
            classifier_wf(r@.0),
    {
        let classifier = match MovementClassifier::new(
            movement_keys.vertical_pair(),
            movement_keys.horizontal_pair(),
        ) {
            Ok(c) => c,
            Err(_) => MovementClassifier::default(),
        };
        InputListener { classifier, movement_keys, shortcuts: ShortcutState::default() }
    }

    /// Handles `event`, seen at `timestamp_ms`, and returns the command to
    /// send to the overlay, if any (see `listener_step`).
    pub fn handle_event(&mut self, event: InputEvent, timestamp_ms: i64) -> (r: Option<UiCommand>)
        ensures
            (final(self)@, r) == listener_step(old(self)@, event, timestamp_ms),
            classifier_wf(old(self)@.0) ==> classifier_wf(final(self)@.0),
    {
        match event {
            InputEvent::KeyPress(InputKey::F6) => Some(UiCommand::ToggleVisible),
            InputEvent::KeyPress(InputKey::F8) => Some(UiCommand::Exit),
            InputEvent::KeyPress(InputKey::Equal) => Some(UiCommand::IncreaseSize),
            InputEvent::KeyPress(InputKey::Minus) => Some(UiCommand::DecreaseSize),
            InputEvent::KeyPress(key) => {
                let command = self.shortcuts.on_key_press(key);
                if command.is_some() {
                    return command;
                }
                if let Some(c) = key.character() {
                    if self.movement_keys.contains(c) {
                        self.classifier.on_press(c, timestamp_ms);
                    }
                }
                None
            },
            InputEvent::KeyRelease(key) => {
                self.shortcuts.on_key_release(key);
                if let Some(c) = key.character() {
                    if self.movement_keys.contains(c) {
                        self.classifier.on_release(c, timestamp_ms);
                    }
                }
                None
            },
            InputEvent::LeftMouseDown => {
                let result = self.classifier.classify_shot(timestamp_ms);
                Some(UiCommand::Shot(result))
            },
        }
    }
}

} // verus!
