use dstrafe::classifier::{
    choose_axis_classification, AxisClassification, MovementClassifier, ShotLabel,
};

#[test]
fn classifies_counter_strafe_when_opposite_key_is_pressed_before_shot() {
    let mut classifier = MovementClassifier::default();

    classifier.on_press('A', 0);
    classifier.on_release('A', 100);
    classifier.on_press('D', 132);

    let result = classifier.classify_shot(180);

    assert_eq!(result.label, ShotLabel::CounterStrafe);
    assert_eq!(result.cs_time_ms, Some(32));
    assert_eq!(result.shot_delay_ms, Some(48));
}

#[test]
fn classifies_overlap_when_opposing_keys_are_held_before_shot() {
    let mut classifier = MovementClassifier::default();

    classifier.on_press('A', 0);
    classifier.on_press('D', 24);

    let result = classifier.classify_shot(91);

    assert_eq!(result.label, ShotLabel::Overlap);
    assert_eq!(result.overlap_time_ms, Some(67));
}

#[test]
fn delayed_counter_strafe_becomes_bad_with_timing_retained() {
    let mut classifier = MovementClassifier::default();

    classifier.on_press('A', 0);
    classifier.on_release('A', 120);
    classifier.on_press('D', 150);

    let result = classifier.classify_shot(401);

    assert_eq!(result.label, ShotLabel::Bad);
    assert_eq!(result.cs_time_ms, Some(30));
    assert_eq!(result.shot_delay_ms, Some(251));
}

#[test]
fn overlap_axis_outranks_counter_strafe_axis() {
    let mut classifier = MovementClassifier::default();

    classifier.on_press('W', 0);
    classifier.on_press('S', 25);
    classifier.on_press('A', 30);
    classifier.on_release('A', 100);
    classifier.on_press('D', 125);

    let result = classifier.classify_shot(160);

    assert_eq!(result.label, ShotLabel::Overlap);
    assert_eq!(result.overlap_time_ms, Some(135));
}

#[test]
fn counter_strafe_survives_counter_key_release_before_shot() {
    let mut classifier = MovementClassifier::default();

    classifier.on_press('A', 0);
    classifier.on_release('A', 100);
    classifier.on_press('D', 132);
    classifier.on_release('D', 170);

    let result = classifier.classify_shot(180);

    assert_eq!(result.label, ShotLabel::CounterStrafe);
    assert_eq!(result.cs_time_ms, Some(32));
    assert_eq!(result.shot_delay_ms, Some(48));
}

#[test]
fn counter_strafe_after_overlap_survives_counter_key_release_before_shot() {
    let mut classifier = MovementClassifier::default();

    classifier.on_press('A', 0);
    classifier.on_press('D', 20);
    classifier.on_release('D', 60);
    classifier.on_release('A', 100);
    classifier.on_press('D', 132);
    classifier.on_release('D', 150);

    let result = classifier.classify_shot(180);

    assert_eq!(result.label, ShotLabel::CounterStrafe);
    assert_eq!(result.cs_time_ms, Some(32));
    assert_eq!(result.shot_delay_ms, Some(48));
}

#[test]
fn valid_axis_wins_when_other_counter_strafe_fails_thresholds() {
    let mut classifier = MovementClassifier::default();

    classifier.on_press('W', 0);
    classifier.on_release('W', 100);
    classifier.on_press('S', 300);
    classifier.on_press('A', 350);
    classifier.on_release('A', 400);
    classifier.on_press('D', 430);

    let result = classifier.classify_shot(540);

    assert_eq!(result.label, ShotLabel::CounterStrafe);
    assert_eq!(result.cs_time_ms, Some(30));
    assert_eq!(result.shot_delay_ms, Some(110));
}

#[test]
fn classify_shot_applies_counter_strafe_thresholds() {
    let mut classifier = MovementClassifier::default();

    classifier.on_press('A', 0);
    classifier.on_release('A', 120);
    classifier.on_press('D', 150);

    let result = classifier.classify_shot(401);

    assert_eq!(result.label, ShotLabel::Bad);
    assert_eq!(result.cs_time_ms, Some(30));
    assert_eq!(result.shot_delay_ms, Some(251));
}

#[test]
fn duplicate_keys_across_axes_are_rejected() {
    let error = MovementClassifier::new(['W', 's'], ['S', 'D'])
        .expect_err("duplicate movement keys across axes should fail");

    assert_eq!(
        error,
        "movement_keys contains duplicate key 'S' in vertical and horizontal axes"
    );
}

#[test]
fn held_overlap_is_reported_on_subsequent_shots() {
    let mut classifier = MovementClassifier::default();

    classifier.on_press('A', 0);
    classifier.on_press('D', 24);

    let first_result = classifier.classify_shot(91);
    let second_result = classifier.classify_shot(120);

    assert_eq!(first_result.label, ShotLabel::Overlap);
    assert_eq!(first_result.overlap_time_ms, Some(67));
    assert_eq!(second_result.label, ShotLabel::Overlap);
    assert_eq!(second_result.overlap_time_ms, Some(96));
}

#[test]
fn restarted_overlap_uses_fresh_overlap_start_time() {
    let mut classifier = MovementClassifier::default();

    classifier.on_press('A', 0);
    classifier.on_press('D', 20);
    classifier.on_release('D', 100);
    classifier.on_press('D', 300);

    let result = classifier.classify_shot(350);

    assert_eq!(result.label, ShotLabel::Overlap);
    assert_eq!(result.overlap_time_ms, Some(50));
}

#[test]
fn shot_after_overlap_ends_with_one_key_held_is_bad() {
    let mut classifier = MovementClassifier::default();

    classifier.on_press('A', 0);
    classifier.on_press('D', 20);
    let first_result = classifier.classify_shot(80);
    classifier.on_release('A', 100);

    let result = classifier.classify_shot(140);

    assert_eq!(first_result.label, ShotLabel::Overlap);
    assert_eq!(first_result.overlap_time_ms, Some(60));
    assert_eq!(result.label, ShotLabel::Bad);
    assert_eq!(result.overlap_time_ms, None);
}

#[test]
fn duplicate_press_after_overlap_does_not_create_clean_counter_strafe() {
    let mut classifier = MovementClassifier::default();

    classifier.on_press('A', 0);
    classifier.on_press('D', 20);
    classifier.on_release('A', 100);
    classifier.on_press('D', 110);

    let result = classifier.classify_shot(140);

    assert_eq!(result.label, ShotLabel::Bad);
    assert_eq!(result.cs_time_ms, None);
    assert_eq!(result.shot_delay_ms, None);
}

#[test]
fn stray_release_does_not_start_counter_strafe_candidate() {
    let mut classifier = MovementClassifier::default();

    classifier.on_release('A', 100);
    classifier.on_press('D', 130);

    let result = classifier.classify_shot(160);

    assert_eq!(result.label, ShotLabel::Bad);
    assert_eq!(result.cs_time_ms, None);
    assert_eq!(result.shot_delay_ms, None);
}

#[test]
fn equal_selection_rank_prefers_longer_primary_time() {
    let vertical = AxisClassification::Overlap {
        overlap_time_ms: 20,
    };
    let horizontal = AxisClassification::Overlap {
        overlap_time_ms: 80,
    };

    assert_eq!(choose_axis_classification(vertical, horizontal), horizontal);
}
