use dstrafe::classifier::{
    apply_counter_strafe_thresholds, choose_axis_classification, counter_strafe_passes_thresholds,
    overlay_text, validate_axis_keys, validate_movement_keys, AxisClassification,
    MovementClassifier, ShotClassification, ShotLabel,
};
use dstrafe::config::{
    config_from_raw, parse_key, unique_key_count, AppConfig, ConfigKeyError, LoadedAppConfig,
    MovementKeys, RawConfig, RawMovementConfig,
};
use dstrafe::input::{InputEvent, InputKey, InputListener, UiCommand};
use dstrafe::text_size::TextSizes;

fn counter_strafe_sequence(classifier: &mut MovementClassifier, a: char, d: char) -> ShotClassification {
    classifier.on_press(a, 0);
    classifier.on_release(a, 100);
    classifier.on_press(d, 132);
    classifier.classify_shot(180)
}

#[test]
fn lower_case_keys_classify_like_upper_case_keys() {
    let mut lower = MovementClassifier::default();
    let mut upper = MovementClassifier::default();
    assert_eq!(
        counter_strafe_sequence(&mut lower, 'a', 'd'),
        counter_strafe_sequence(&mut upper, 'A', 'D')
    );
}

#[test]
fn lower_case_configured_keys_are_accepted() {
    let mut classifier = MovementClassifier::new(['i', 'k'], ['j', 'l']).expect("valid keys");
    let result = counter_strafe_sequence(&mut classifier, 'J', 'L');
    assert_eq!(result, ShotClassification::counter_strafe(32, 48));
}

#[test]
fn keys_of_no_axis_are_ignored() {
    let mut classifier = MovementClassifier::default();
    classifier.on_press('Q', 0);
    classifier.on_release('Q', 100);
    classifier.on_press('E', 132);
    assert_eq!(classifier.classify_shot(180), ShotClassification::bad());
}

#[test]
fn repeated_press_keeps_first_press() {
    let mut classifier = MovementClassifier::default();
    classifier.on_press('A', 0);
    classifier.on_press('D', 24);
    classifier.on_press('D', 60);
    assert_eq!(classifier.classify_shot(91), ShotClassification::overlap(67));
}

#[test]
fn repeated_release_is_ignored() {
    let mut classifier = MovementClassifier::default();
    classifier.on_press('A', 0);
    classifier.on_release('A', 100);
    classifier.on_release('A', 120);
    classifier.on_press('D', 132);
    assert_eq!(classifier.classify_shot(180), ShotClassification::counter_strafe(32, 48));
}

#[test]
fn second_shot_without_events_is_not_a_counter_strafe() {
    let mut classifier = MovementClassifier::default();
    let first = counter_strafe_sequence(&mut classifier, 'A', 'D');
    let second = classifier.classify_shot(200);
    assert_eq!(first.label, ShotLabel::CounterStrafe);
    assert_eq!(second, ShotClassification::bad());
}

#[test]
fn held_overlap_grows_by_the_time_between_shots() {
    let mut classifier = MovementClassifier::default();
    classifier.on_press('W', 0);
    classifier.on_press('S', 10);
    let first = classifier.classify_shot(40);
    let second = classifier.classify_shot(75);
    assert_eq!(first, ShotClassification::overlap(30));
    assert_eq!(second, ShotClassification::overlap(65));
}

#[test]
fn longer_of_two_held_overlaps_decides() {
    let mut classifier = MovementClassifier::default();
    classifier.on_press('A', 0);
    classifier.on_press('W', 5);
    classifier.on_press('D', 10);
    classifier.on_press('S', 30);
    assert_eq!(classifier.classify_shot(100), ShotClassification::overlap(90));
}

#[test]
fn overlap_ends_when_one_key_is_released() {
    let mut classifier = MovementClassifier::default();
    classifier.on_press('A', 0);
    classifier.on_press('D', 20);
    classifier.on_release('D', 50);
    assert_eq!(classifier.classify_shot(90), ShotClassification::bad());
}

#[test]
fn counter_press_at_release_time_is_no_candidate() {
    let mut classifier = MovementClassifier::default();
    classifier.on_press('A', 0);
    classifier.on_release('A', 100);
    classifier.on_press('D', 100);
    assert_eq!(classifier.classify_shot(150), ShotClassification::bad());
}

#[test]
fn threshold_boundaries() {
    assert!(counter_strafe_passes_thresholds(215, 230));
    assert!(!counter_strafe_passes_thresholds(0, 231));
    assert!(counter_strafe_passes_thresholds(216, 215));
    assert!(!counter_strafe_passes_thresholds(216, 216));
    assert!(counter_strafe_passes_thresholds(-5, -5));
}

#[test]
fn slow_counter_strafe_is_bad_with_its_timings() {
    let mut classifier = MovementClassifier::default();
    classifier.on_press('A', 0);
    classifier.on_release('A', 100);
    classifier.on_press('D', 400);
    let result = classifier.classify_shot(616);
    assert_eq!(result, ShotClassification::bad_with_timing(300, 216));
}

#[test]
fn thresholds_applied_twice_change_nothing() {
    for base in [
        ShotClassification::counter_strafe(30, 250),
        ShotClassification::counter_strafe(30, 40),
        ShotClassification::overlap(12),
        ShotClassification::bad(),
        ShotClassification::bad_with_timing(1, 2),
    ] {
        let once = apply_counter_strafe_thresholds(base);
        assert_eq!(apply_counter_strafe_thresholds(once.clone()), once);
    }
    let odd = ShotClassification {
        label: ShotLabel::CounterStrafe,
        cs_time_ms: Some(3),
        shot_delay_ms: None,
        overlap_time_ms: Some(9),
    };
    assert_eq!(apply_counter_strafe_thresholds(odd), ShotClassification::bad());
}

#[test]
fn higher_rank_decides_between_axes() {
    let overlap = AxisClassification::Overlap { overlap_time_ms: 1 };
    let good = AxisClassification::CounterStrafe { cs_time_ms: 30, shot_delay_ms: 40 };
    let slow = AxisClassification::CounterStrafe { cs_time_ms: 300, shot_delay_ms: 400 };
    let bad = AxisClassification::Bad;
    assert_eq!(overlap.selection_rank(), 3);
    assert_eq!(good.selection_rank(), 2);
    assert_eq!(slow.selection_rank(), 1);
    assert_eq!(bad.selection_rank(), 0);
    assert_eq!(choose_axis_classification(good, overlap), overlap);
    assert_eq!(choose_axis_classification(slow, good), good);
    assert_eq!(choose_axis_classification(bad, slow), slow);
    assert_eq!(choose_axis_classification(bad, bad), bad);
    assert_eq!(
        choose_axis_classification(
            AxisClassification::Overlap { overlap_time_ms: 5 },
            AxisClassification::Overlap { overlap_time_ms: 5 }
        ),
        AxisClassification::Overlap { overlap_time_ms: 5 }
    );
    assert_eq!(good.primary_time(), Some(30));
    assert_eq!(bad.primary_time(), None);
}

#[test]
fn axis_with_the_same_key_twice_is_rejected() {
    assert_eq!(
        MovementClassifier::new(['W', 'w'], ['A', 'D']).unwrap_err(),
        "vertical_keys must contain two distinct keys"
    );
    assert_eq!(
        MovementClassifier::new(['W', 'S'], ['d', 'D']).unwrap_err(),
        "horizontal_keys must contain two distinct keys"
    );
    assert_eq!(validate_axis_keys(['x', 'y'], "any"), Ok(()));
}

#[test]
fn duplicate_messages_name_both_axes() {
    assert_eq!(
        validate_movement_keys(['W', 'w'], ['A', 'D']).unwrap_err(),
        "movement_keys contains duplicate key 'W' in vertical and vertical axes"
    );
    assert_eq!(
        validate_movement_keys(['W', 'S'], ['A', 'a']).unwrap_err(),
        "movement_keys contains duplicate key 'A' in horizontal and horizontal axes"
    );
    assert_eq!(
        MovementClassifier::new(['W', 'S'], ['A', 'w']).unwrap_err(),
        "movement_keys contains duplicate key 'W' in vertical and horizontal axes"
    );
    assert_eq!(validate_movement_keys(['W', 'S'], ['A', 'D']), Ok(()));
}

#[test]
fn display_text_lists_the_timings_of_the_label() {
    assert_eq!(
        ShotClassification::counter_strafe(32, 48).display_text(),
        "Classification: Counter-strafe\nCS time: 32 ms\nShot delay: 48 ms"
    );
    assert_eq!(
        ShotClassification::overlap(67).display_text(),
        "Classification: Overlap\nOverlap: 67 ms"
    );
    assert_eq!(ShotClassification::bad().display_text(), "Classification: Bad");
    assert_eq!(
        ShotClassification::bad_with_timing(30, 251).display_text(),
        "Classification: Bad\nCS time: 30 ms\nShot delay: 251 ms"
    );
    assert_eq!(
        ShotClassification::bad_with_timing(-7, 0).display_text(),
        "Classification: Bad\nCS time: -7 ms\nShot delay: 0 ms"
    );
    assert_eq!(
        ShotClassification::overlap(i128::MIN).display_text(),
        "Classification: Overlap\nOverlap: -170141183460469231731687303715884105728 ms"
    );
    assert_eq!(
        ShotClassification::overlap(1234567890).display_text(),
        "Classification: Overlap\nOverlap: 1234567890 ms"
    );
}

#[test]
fn labels_and_overlay_text() {
    assert_eq!(ShotLabel::CounterStrafe.as_str(), "Counter-strafe");
    assert_eq!(ShotLabel::Overlap.as_str(), "Overlap");
    assert_eq!(ShotLabel::Bad.as_str(), "Bad");
    assert_eq!(overlay_text(&None), "Waiting for input...");
    assert_eq!(
        overlay_text(&Some(ShotClassification::overlap(3))),
        "Classification: Overlap\nOverlap: 3 ms"
    );
}

#[test]
fn configured_key_values_are_trimmed_and_upper_cased() {
    assert_eq!(parse_key(None, 'W'), Ok('W'));
    assert_eq!(parse_key(Some(" e "), 'W'), Ok('E'));
    assert_eq!(parse_key(Some("\t7\n"), 'W'), Ok('7'));
    assert_eq!(parse_key(Some("\u{3000}x\u{00A0}"), 'W'), Ok('X'));
    assert_eq!(parse_key(Some(""), 'W'), Err(ConfigKeyError));
    assert_eq!(parse_key(Some("   "), 'W'), Err(ConfigKeyError));
    assert_eq!(parse_key(Some("ab"), 'W'), Err(ConfigKeyError));
    assert_eq!(parse_key(Some("a b"), 'W'), Err(ConfigKeyError));
    assert_eq!(parse_key(Some("é"), 'W'), Err(ConfigKeyError));
    assert_eq!(parse_key(Some("-"), 'W'), Err(ConfigKeyError));
}

#[test]
fn unique_key_count_counts_distinct_keys() {
    let keys = |f, b, l, r| MovementKeys { forward: f, backward: b, left: l, right: r };
    assert_eq!(unique_key_count(keys('W', 'S', 'A', 'D')), 4);
    assert_eq!(unique_key_count(keys('W', 'W', 'A', 'D')), 3);
    assert_eq!(unique_key_count(keys('W', 'S', 'W', 'S')), 2);
    assert_eq!(unique_key_count(keys('Q', 'Q', 'Q', 'Q')), 1);
}

#[test]
fn missing_movement_keys_keep_their_defaults() {
    assert_eq!(MovementKeys::from_raw(None), Ok(MovementKeys::default()));
    let raw = RawMovementConfig {
        forward: Some("i".to_string()),
        backward: None,
        left: None,
        right: None,
    };
    assert_eq!(
        MovementKeys::from_raw(Some(raw)),
        Ok(MovementKeys { forward: 'I', backward: 'S', left: 'A', right: 'D' })
    );
    let clash = RawMovementConfig {
        forward: Some("s".to_string()),
        backward: None,
        left: None,
        right: None,
    };
    assert_eq!(MovementKeys::from_raw(Some(clash)), Err(ConfigKeyError));
    let config = config_from_raw(RawConfig { debug: Some(true), movement: None }).unwrap();
    assert_eq!(config, AppConfig { debug: true, movement: MovementKeys::default() });
}

#[test]
fn movement_key_queries() {
    let keys = MovementKeys::default();
    assert_eq!(keys.vertical_pair(), ['W', 'S']);
    assert_eq!(keys.horizontal_pair(), ['A', 'D']);
    assert!(keys.contains('w'));
    assert!(keys.contains('D'));
    assert!(!keys.contains('q'));
    assert_eq!(
        ConfigKeyError.message(),
        "movement keys must be unique single ASCII alphanumeric characters"
    );
}

#[test]
fn loaded_config_for_each_outcome() {
    let custom = AppConfig { debug: true, movement: MovementKeys::default() };
    assert_eq!(
        LoadedAppConfig::from_outcome("\"dstrafe.toml\"", None),
        LoadedAppConfig { config: AppConfig::default(), warning: None }
    );
    assert_eq!(
        LoadedAppConfig::from_outcome("\"dstrafe.toml\"", Some(Ok(custom))),
        LoadedAppConfig { config: custom, warning: None }
    );
    let loaded =
        LoadedAppConfig::from_outcome("\"dstrafe.toml\"", Some(Err("bad value".to_string())));
    assert_eq!(loaded.config, AppConfig::default());
    assert_eq!(
        loaded.warning.as_deref(),
        Some("Ignoring \"dstrafe.toml\": bad value")
    );
}

#[test]
fn listener_sends_hotkey_commands_without_touching_state() {
    let mut listener = InputListener::new(MovementKeys::default());
    assert_eq!(
        listener.handle_event(InputEvent::KeyPress(InputKey::F6), 0),
        Some(UiCommand::ToggleVisible)
    );
    assert_eq!(
        listener.handle_event(InputEvent::KeyPress(InputKey::F8), 0),
        Some(UiCommand::Exit)
    );
    assert_eq!(
        listener.handle_event(InputEvent::KeyPress(InputKey::Equal), 0),
        Some(UiCommand::IncreaseSize)
    );
    assert_eq!(
        listener.handle_event(InputEvent::KeyPress(InputKey::Minus), 0),
        Some(UiCommand::DecreaseSize)
    );
    assert_eq!(
        listener.handle_event(InputEvent::LeftMouseDown, 10),
        Some(UiCommand::Shot(ShotClassification::bad()))
    );
}

#[test]
fn listener_classifies_with_configured_keys() {
    let keys = MovementKeys { forward: 'I', backward: 'K', left: 'J', right: 'L' };
    let mut listener = InputListener::new(keys);
    let press = |k| InputEvent::KeyPress(InputKey::Character(k));
    let release = |k| InputEvent::KeyRelease(InputKey::Character(k));
    assert_eq!(listener.handle_event(press('A'), 0), None);
    assert_eq!(listener.handle_event(press('j'), 0), None);
    assert_eq!(listener.handle_event(release('J'), 100), None);
    assert_eq!(listener.handle_event(press('L'), 132), None);
    assert_eq!(
        listener.handle_event(InputEvent::LeftMouseDown, 180),
        Some(UiCommand::Shot(ShotClassification::counter_strafe(32, 48)))
    );
}

#[test]
fn listener_with_unusable_keys_falls_back_to_default_classifier() {
    let keys = MovementKeys { forward: 'A', backward: 'A', left: 'D', right: 'W' };
    let mut listener = InputListener::new(keys);
    let press = |k| InputEvent::KeyPress(InputKey::Character(k));
    listener.handle_event(press('A'), 0);
    listener.handle_event(press('D'), 20);
    assert_eq!(
        listener.handle_event(InputEvent::LeftMouseDown, 50),
        Some(UiCommand::Shot(ShotClassification::overlap(30)))
    );
}

#[test]
fn listener_ctrl_f7_toggles_fullscreen() {
    let mut listener = InputListener::new(MovementKeys::default());
    assert_eq!(listener.handle_event(InputEvent::KeyPress(InputKey::ControlRight), 0), None);
    assert_eq!(
        listener.handle_event(InputEvent::KeyPress(InputKey::F7), 1),
        Some(UiCommand::ToggleSecondDisplayFullscreen)
    );
    assert_eq!(listener.handle_event(InputEvent::KeyPress(InputKey::F7), 2), None);
    assert_eq!(listener.handle_event(InputEvent::KeyRelease(InputKey::F7), 3), None);
    assert_eq!(listener.handle_event(InputEvent::KeyRelease(InputKey::ControlRight), 4), None);
    assert_eq!(listener.handle_event(InputEvent::KeyPress(InputKey::F7), 5), None);
    assert_eq!(InputKey::Character('x').character(), Some('x'));
    assert_eq!(InputKey::F7.character(), None);
}

#[test]
fn text_sizes_step_by_two_within_bounds() {
    let mut sizes = TextSizes::default();
    assert_eq!((sizes.header(), sizes.body()), (12, 10));
    sizes.increase();
    assert_eq!((sizes.header(), sizes.body()), (14, 12));
    sizes.decrease();
    assert_eq!((sizes.header(), sizes.body()), (12, 10));
    for _ in 0..20 {
        sizes.increase();
    }
    assert_eq!((sizes.header(), sizes.body()), (26, 24));
    for _ in 0..20 {
        sizes.decrease();
    }
    assert_eq!((sizes.header(), sizes.body()), (10, 8));
}
