//! Properties of the library as a whole, proved over the specifications
//! that the operations' contracts use.
use vstd::prelude::*;
use crate::classifier::{
    chosen,
    label_text,
    counter_strafe_shot,
    CounterStrafeCandidate,
    classifier_wf,
    fresh_classifier,
    overlap_shot,
    pair_has,
    passes_thresholds,
    press_effect,
    release_effect,
    setup_error,
    shot_effect,
    shot_verdict,
    thresholded,
    AxisClassification,
    AxisState,
    ClassifierState,
    ShotClassification,
    ShotLabel,
};
use crate::config::{config_from, default_app_config, default_movement_keys, loaded_from, AppConfig, RawConfig, keys_from, parsed_key, MovementKeys, RawMovementConfig};
use crate::input::{initial_classifier, listener_step, InputEvent, InputKey, ListenerState, ShortcutState, UiCommand};
use crate::text_size::{grown, shrunk, TextSizes, MAX_BODY_SIZE, MIN_BODY_SIZE};
use crate::text::{is_ascii_alnum, is_white_space, trim_end, trim_start, nat_decimal, int_decimal, digit_char, ascii_upper, lemma_ascii_upper_idempotent, lemma_ascii_upper_of_alnum, trim};

verus! {

/// Movement keys are matched without regard to ASCII case: a press or a
/// release of a key has the same effect as one of its upper-case form.
pub proof fn lemma_key_case_ignored(s: ClassifierState, key: char, t: i64)
    ensures
        press_effect(s, key, t) == press_effect(s, ascii_upper(key), t),
        release_effect(s, key, t) == release_effect(s, ascii_upper(key), t),
{
    lemma_ascii_upper_idempotent(key);
}

/// A key that belongs to neither axis changes nothing when pressed or released.
pub proof fn lemma_other_keys_ignored(s: ClassifierState, key: char, t: i64)
    requires
        !pair_has(s.0.keys, ascii_upper(key)),
        !pair_has(s.1.keys, ascii_upper(key)),
    ensures
        press_effect(s, key, t) == s,
        release_effect(s, key, t) == s,
{
}

/// Pressing a key that is already down (auto-repeat) is ignored: a second
/// press of the same key, at any time, changes nothing.
pub proof fn lemma_repeated_press_ignored(s: ClassifierState, key: char, t1: i64, t2: i64)
    ensures
        press_effect(press_effect(s, key, t1), key, t2) == press_effect(s, key, t1),
{
}

/// Releasing a key that is already up is ignored: a second release of the
/// same key, at any time, changes nothing.
pub proof fn lemma_repeated_release_ignored(s: ClassifierState, key: char, t1: i64, t2: i64)
    ensures
        release_effect(release_effect(s, key, t1), key, t2) == release_effect(s, key, t1),
{
}

/// Releasing a key that is not held (a release with no press before it)
/// changes nothing; in particular it starts no counter-strafe.
pub proof fn lemma_release_of_unheld_key_ignored(a: AxisState, key: char, t: i64)
    requires
        a.key_position(key) matches Some(i) ==> !a.held_keys[i],
    ensures
        a.after_release(key, t) == a,
{
}

/// A verdict carries exactly the timings of its label: a counter-strafe has
/// its counter time and shot delay, which meet the thresholds; an overlap has
/// only its overlap time; a bad shot has no overlap time, and either both
/// counter-strafe timings or neither.
pub proof fn lemma_verdict_shape(s: ClassifierState, t: i64)
    ensures
        ({
            let v = shot_verdict(s, t);
            &&& v.label == ShotLabel::CounterStrafe ==> {
                &&& v.cs_time_ms is Some
                &&& v.shot_delay_ms is Some
                &&& v.overlap_time_ms is None
                &&& passes_thresholds(
                    v.cs_time_ms.unwrap() as int,
                    v.shot_delay_ms.unwrap() as int,
                )
            }
            &&& v.label == ShotLabel::Overlap ==> {
                &&& v.overlap_time_ms is Some
                &&& v.cs_time_ms is None
                &&& v.shot_delay_ms is None
            }
            &&& v.label == ShotLabel::Bad ==> {
                &&& v.overlap_time_ms is None
                &&& (v.cs_time_ms is Some <==> v.shot_delay_ms is Some)
            }
        }),
{
}

/// Applying the thresholds to a verdict that already went through them
/// changes nothing.
pub proof fn lemma_thresholds_idempotent(base: ShotClassification)
    ensures
        thresholded(thresholded(base)) == thresholded(base),
{
}

/// The deciding report is one of the two, and no report outranks it.
pub proof fn lemma_chosen_outranks(vertical: AxisClassification, horizontal: AxisClassification)
    ensures
        chosen(vertical, horizontal) == vertical || chosen(vertical, horizontal) == horizontal,
        chosen(vertical, horizontal).rank() >= vertical.rank(),
        chosen(vertical, horizontal).rank() >= horizontal.rank(),
{
}

/// A shot consumes any counter-strafe: a second shot with no key event in
/// between is never a counter-strafe and carries no counter-strafe timings.
pub proof fn lemma_second_shot_never_counter_strafe(s: ClassifierState, t: i64)
    ensures
        shot_verdict(shot_effect(s), t).label != ShotLabel::CounterStrafe,
        shot_verdict(shot_effect(s), t).cs_time_ms is None,
        shot_verdict(shot_effect(s), t).shot_delay_ms is None,
{
}

/// Every time recorded on the axis is at most `now`.
pub open spec fn axis_recorded_by(a: AxisState, now: i64) -> bool {
    &&& (a.press_times[0] matches Some(p) ==> p <= now)
    &&& (a.press_times[1] matches Some(p) ==> p <= now)
    &&& (a.cs_release_time matches Some(r) ==> r <= now)
    &&& (a.cs_press_time matches Some(p) ==> p <= now)
    &&& (a.overlap_start_time matches Some(o) ==> o <= now)
    &&& (a.cs_candidate matches Some(c) ==> c.release_time_ms <= now && c.press_time_ms <= now)
}

/// An open overlap began no earlier than the recorded releases.
pub open spec fn axis_overlap_after_releases(a: AxisState) -> bool {
    a.overlap_start_time matches Some(o) ==> {
        &&& (a.cs_release_time matches Some(r) ==> r <= o)
        &&& (a.cs_candidate matches Some(c) ==> c.release_time_ms <= o)
    }
}

/// The classifier has seen events in time order, none after `now`.
pub open spec fn history_by(s: ClassifierState, now: i64) -> bool {
    &&& axis_recorded_by(s.0, now)
    &&& axis_recorded_by(s.1, now)
    &&& axis_overlap_after_releases(s.0)
    &&& axis_overlap_after_releases(s.1)
}

/// A fresh classifier has seen nothing.
pub proof fn lemma_fresh_history(vertical: [char; 2], horizontal: [char; 2], now: i64)
    ensures
        history_by(fresh_classifier(vertical, horizontal), now),
{
}

proof fn lemma_axis_history_press(a: AxisState, now: i64, key: char, t: i64)
    requires
        axis_recorded_by(a, now),
        axis_overlap_after_releases(a),
        now <= t,
    ensures
        axis_recorded_by(a.after_press(key, t), t),
        axis_overlap_after_releases(a.after_press(key, t)),
{
}

proof fn lemma_axis_history_release(a: AxisState, now: i64, key: char, t: i64)
    requires
        axis_recorded_by(a, now),
        axis_overlap_after_releases(a),
        now <= t,
    ensures
        axis_recorded_by(a.after_release(key, t), t),
        axis_overlap_after_releases(a.after_release(key, t)),
{
}

/// Events in time order keep the history in order: a press or a release at
/// `t`, no earlier than every event so far, leaves a history up to `t`; a
/// shot leaves the history as it was.
pub proof fn lemma_history_preserved(s: ClassifierState, now: i64, key: char, t: i64)
    requires
        history_by(s, now),
        now <= t,
    ensures
        history_by(press_effect(s, key, t), t),
        history_by(release_effect(s, key, t), t),
        history_by(shot_effect(s), now),
{
    let k = ascii_upper(key);
    lemma_axis_history_press(s.0, now, k, t);
    lemma_axis_history_press(s.1, now, k, t);
    lemma_axis_history_release(s.0, now, k, t);
    lemma_axis_history_release(s.1, now, k, t);
}

/// With events in time order, an axis reports an overlap exactly when both
/// of its keys are held at the shot.
pub proof fn lemma_axis_overlap_iff_both_held(a: AxisState, now: i64, t: i64)
    requires
        a.wf(),
        axis_recorded_by(a, now),
        axis_overlap_after_releases(a),
    ensures
        a.shot_result(t) is Overlap <==> (a.held_keys[0] && a.held_keys[1]),
{
}

/// With events in time order, a shot is an overlap exactly when both keys of
/// some axis are held at the shot.
pub proof fn lemma_overlap_iff_opposing_keys_held(s: ClassifierState, now: i64, t: i64)
    requires
        classifier_wf(s),
        history_by(s, now),
    ensures
        shot_verdict(s, t).label == ShotLabel::Overlap <==> ((s.0.held_keys[0]
            && s.0.held_keys[1]) || (s.1.held_keys[0] && s.1.held_keys[1])),
{
    lemma_axis_overlap_iff_both_held(s.0, now, t);
    lemma_axis_overlap_iff_both_held(s.1, now, t);
}

/// With events in time order, an overlap that is still held when the next
/// shot comes is reported again, measured from the same start: with no key
/// event between two shots at `t1` and `t2`, an overlap of `d` milliseconds at
/// the first is an overlap of `d + (t2 - t1)` at the second.
pub proof fn lemma_held_overlap_reported_again(s: ClassifierState, now: i64, t1: i64, t2: i64)
    requires
        classifier_wf(s),
        history_by(s, now),
        shot_verdict(s, t1).label == ShotLabel::Overlap,
    ensures
        shot_verdict(shot_effect(s), t2) == overlap_shot(
            (shot_verdict(s, t1).overlap_time_ms.unwrap() + (t2 - t1)) as i128,
        ),
{
    lemma_axis_overlap_iff_both_held(s.0, now, t1);
    lemma_axis_overlap_iff_both_held(s.1, now, t1);
    let r = shot_effect(s);
    lemma_history_preserved(s, now, ' ', now);
    lemma_axis_overlap_iff_both_held(r.0, now, t2);
    lemma_axis_overlap_iff_both_held(r.1, now, t2);
}

/// A configured key is always an ASCII digit or upper-case letter.
pub proof fn lemma_parsed_key_upper_alnum(value: Seq<char>, default: char)
    requires
        parsed_key(Some(value), default) is Some,
    ensures
        ({
            let c = parsed_key(Some(value), default).unwrap();
            ('0' <= c && c <= '9') || ('A' <= c && c <= 'Z')
        }),
{
    lemma_ascii_upper_of_alnum(trim(value)[0]);
}

proof fn lemma_upper_fixed(c: char)
    requires
        ('0' <= c && c <= '9') || ('A' <= c && c <= 'Z'),
    ensures
        ascii_upper(c) == c,
{
}

/// Movement keys that a configuration accepts always make a classifier:
/// the listener then classifies with exactly the configured keys.
pub proof fn lemma_configured_keys_build_classifier(raw: Option<RawMovementConfig>)
    requires
        keys_from(raw) is Some,
    ensures
        ({
            let k = keys_from(raw).unwrap();
            &&& setup_error([k.forward, k.backward], [k.left, k.right]) is None
            &&& initial_classifier(k) == fresh_classifier(
                [k.forward, k.backward],
                [k.left, k.right],
            )
        }),
{
    let k = keys_from(raw).unwrap();
    match raw {
        None => {},
        Some(r) => {
            let d = default_movement_keys();
            if r.forward is Some {
                lemma_parsed_key_upper_alnum(r.forward.unwrap()@, d.forward);
            }
            if r.backward is Some {
                lemma_parsed_key_upper_alnum(r.backward.unwrap()@, d.backward);
            }
            if r.left is Some {
                lemma_parsed_key_upper_alnum(r.left.unwrap()@, d.left);
            }
            if r.right is Some {
                lemma_parsed_key_upper_alnum(r.right.unwrap()@, d.right);
            }
        },
    }
    lemma_upper_fixed(k.forward);
    lemma_upper_fixed(k.backward);
    lemma_upper_fixed(k.left);
    lemma_upper_fixed(k.right);
}

/// Whether a key is a movement key does not depend on its ASCII case.
pub proof fn lemma_contains_ignores_case(keys: MovementKeys, key: char)
    ensures
        keys.has_key(key) == keys.has_key(ascii_upper(key)),
{
    lemma_ascii_upper_idempotent(key);
}

/// A key press triggers a command of the shortcuts exactly when it is a
/// fresh F7 press (F7 was up) with a control key down, and the command is the
/// fullscreen toggle on the second display.
pub proof fn lemma_fullscreen_shortcut(s: ShortcutState, key: InputKey)
    ensures
        s.after_key_press(key).1 is Some <==> (key == InputKey::F7 && !s.f7_down && s.ctrl_down()),
        s.after_key_press(key).1 is Some ==> s.after_key_press(key).1 == Some(
            UiCommand::ToggleSecondDisplayFullscreen,
        ),
{
}

/// Holding F7 does not repeat the toggle: a second F7 press without a release
/// in between triggers nothing, and after F7 is released the next press
/// toggles again as long as a control key is down.
pub proof fn lemma_held_f7_does_not_repeat(s: ShortcutState)
    ensures
        s.after_key_press(InputKey::F7).0.after_key_press(InputKey::F7).1 is None,
        ({
            let released = s.after_key_press(InputKey::F7).0.after_key_release(InputKey::F7);
            released.after_key_press(InputKey::F7).1 is Some <==> s.ctrl_down()
        }),
{
}

/// The hotkeys (F6, F8, `=`, `-`) change nothing in the listener and always
/// send their command.
pub proof fn lemma_hotkeys_leave_state(s: ListenerState, t: i64)
    ensures
        listener_step(s, InputEvent::KeyPress(InputKey::F6), t) == (s, Some(UiCommand::ToggleVisible)),
        listener_step(s, InputEvent::KeyPress(InputKey::F8), t) == (s, Some(UiCommand::Exit)),
        listener_step(s, InputEvent::KeyPress(InputKey::Equal), t) == (s, Some(UiCommand::IncreaseSize)),
        listener_step(s, InputEvent::KeyPress(InputKey::Minus), t) == (s, Some(UiCommand::DecreaseSize)),
{
}

/// Events handed to the listener in time order keep its classifier's history
/// in order, so the overlap laws above apply to every shot it classifies.
pub proof fn lemma_listener_keeps_history(s: ListenerState, now: i64, event: InputEvent, t: i64)
    requires
        history_by(s.0, now),
        now <= t,
    ensures
        history_by(listener_step(s, event, t).0.0, t),
{
    lemma_history_by_later(s.0, now, t);
    match event {
        InputEvent::KeyPress(key) => {
            if key.char_of() is Some {
                lemma_history_preserved(s.0, now, key.char_of().unwrap(), t);
            }
        },
        InputEvent::KeyRelease(key) => {
            if key.char_of() is Some {
                lemma_history_preserved(s.0, now, key.char_of().unwrap(), t);
            }
        },
        InputEvent::LeftMouseDown => {
            lemma_history_preserved(s.0, t, ' ', t);
        },
    }
}

proof fn lemma_history_by_later(s: ClassifierState, now: i64, later: i64)
    requires
        history_by(s, now),
        now <= later,
    ensures
        history_by(s, later),
{
}

/// The default keys make a classifier: the default classifier is the one
/// that `MovementClassifier::new` builds on `W`/`S` and `A`/`D`, and it is
/// also the one a listener on the default keys starts with.
pub proof fn lemma_default_keys_valid()
    ensures
        setup_error(['W', 'S'], ['A', 'D']) is None,
        initial_classifier(default_movement_keys()) == fresh_classifier(['W', 'S'], ['A', 'D']),
{
    assert(['W', 'S'] =~= [default_movement_keys().forward, default_movement_keys().backward]);
    assert(['A', 'D'] =~= [default_movement_keys().left, default_movement_keys().right]);
}

/// `=` then `-` restores the text sizes unless the text was already at its
/// largest, and `-` then `=` restores them unless it was at its smallest.
pub proof fn lemma_size_steps_undo(sizes: (u32, u32))
    requires
        TextSizes::reachable(sizes),
    ensures
        sizes.1 < MAX_BODY_SIZE ==> shrunk(
            (grown(sizes).0 as u32, grown(sizes).1 as u32),
        ) == (sizes.0 as int, sizes.1 as int),
        sizes.1 > MIN_BODY_SIZE ==> grown(
            (shrunk(sizes).0 as u32, shrunk(sizes).1 as u32),
        ) == (sizes.0 as int, sizes.1 as int),
{
}

/// Re-pressing the key that was released last on its axis is never a
/// counter press: it records no counter press and no counter-strafe
/// candidate. Only a press of the opposite key can follow a release as a
/// counter-strafe.
pub proof fn lemma_repress_of_released_key_is_no_counter(a: AxisState, k: char, t: i64)
    requires
        a.wf(),
        a.cs_release_key == Some(k),
    ensures
        a.after_press(k, t).cs_candidate == a.cs_candidate,
        a.after_press(k, t).cs_press_time == a.cs_press_time,
        a.after_press(k, t).cs_press_key == a.cs_press_key,
{
}

/// A recorded counter-strafe candidate always pairs a release with a press
/// of the other key of the same axis, and the press comes strictly later.
pub proof fn lemma_new_candidate_pairs_opposite_keys(a: AxisState, k: char, t: i64)
    requires
        a.wf(),
        a.after_press(k, t).cs_candidate != a.cs_candidate,
    ensures
        ({
            let c = a.after_press(k, t).cs_candidate.unwrap();
            &&& a.after_press(k, t).cs_candidate is Some
            &&& c.press_key == k
            &&& a.cs_release_key == Some(c.release_key)
            &&& c.release_key != k
            &&& pair_has(a.keys, c.release_key)
            &&& pair_has(a.keys, k)
            &&& a.cs_release_time == Some(c.release_time_ms)
            &&& c.press_time_ms == t
            &&& t > c.release_time_ms
        }),
{
}

/// A shot consumes the pending release on both axes: after a shot, no axis
/// remembers a release, so a press with no release after the shot is never
/// a counter-strafe, whatever key it is and whenever the next shot comes.
pub proof fn lemma_shot_clears_pending_release(s: ClassifierState, k: char, t1: i64, t2: i64)
    ensures
        shot_effect(s).0.cs_release_key is None,
        shot_effect(s).1.cs_release_key is None,
        shot_effect(s).0.cs_release_time is None,
        shot_effect(s).1.cs_release_time is None,
        shot_verdict(press_effect(shot_effect(s), k, t1), t2).label != ShotLabel::CounterStrafe,
        shot_verdict(press_effect(shot_effect(s), k, t1), t2).cs_time_ms is None,
{
}

/// A press of a configured movement key always reaches the classifier,
/// whatever modifier or shortcut keys are down, and so does its release.
pub proof fn lemma_movement_keys_reach_classifier(s: ListenerState, c: char, t: i64)
    requires
        s.1.has_key(c),
    ensures
        listener_step(s, InputEvent::KeyPress(InputKey::Character(c)), t).0.0 == press_effect(
            s.0,
            c,
            t,
        ),
        listener_step(s, InputEvent::KeyPress(InputKey::Character(c)), t).1 is None,
        listener_step(s, InputEvent::KeyRelease(InputKey::Character(c)), t).0.0 == release_effect(
            s.0,
            c,
            t,
        ),
        listener_step(s, InputEvent::KeyRelease(InputKey::Character(c)), t).1 is None,
{
}

/// A character key that is not a configured movement key never reaches the
/// classifier.
pub proof fn lemma_other_characters_skip_classifier(s: ListenerState, c: char, t: i64)
    requires
        !s.1.has_key(c),
    ensures
        listener_step(s, InputEvent::KeyPress(InputKey::Character(c)), t).0.0 == s.0,
        listener_step(s, InputEvent::KeyRelease(InputKey::Character(c)), t).0.0 == s.0,
{
}

/// The debug switch is the value written in the document: on only when it
/// says `debug = true`, off when it says `debug = false` or says nothing.
pub proof fn lemma_debug_is_written_value(raw: RawConfig)
    ensures
        config_from(raw) matches Some(c) ==> c.debug == (raw.debug == Some(true)),
        config_from(raw) is Some <==> keys_from(raw.movement) is Some,
        config_from(raw) matches Some(c) ==> Some(c.movement) == keys_from(raw.movement),
{
}

/// Releasing a control key clears that key alone and leaves the other
/// control key and F7 as they were; so after pressing and releasing the only
/// control key that was down, F7 toggles nothing.
pub proof fn lemma_ctrl_release_clears_only_that_key(s: ShortcutState)
    ensures
        !s.after_key_release(InputKey::ControlLeft).left_ctrl_down,
        s.after_key_release(InputKey::ControlLeft).right_ctrl_down == s.right_ctrl_down,
        s.after_key_release(InputKey::ControlLeft).f7_down == s.f7_down,
        !s.after_key_release(InputKey::ControlRight).right_ctrl_down,
        s.after_key_release(InputKey::ControlRight).left_ctrl_down == s.left_ctrl_down,
        s.after_key_release(InputKey::ControlRight).f7_down == s.f7_down,
        !s.ctrl_down() ==> s.after_key_press(InputKey::ControlLeft).0.after_key_release(
            InputKey::ControlLeft,
        ).after_key_press(InputKey::F7).1 is None,
        !s.ctrl_down() ==> s.after_key_press(InputKey::ControlRight).0.after_key_release(
            InputKey::ControlRight,
        ).after_key_press(InputKey::F7).1 is None,
{
}

/// Pressing a control key sets that key alone.
pub proof fn lemma_ctrl_press_sets_only_that_key(s: ShortcutState)
    ensures
        s.after_key_press(InputKey::ControlLeft).0.left_ctrl_down,
        s.after_key_press(InputKey::ControlLeft).0.right_ctrl_down == s.right_ctrl_down,
        s.after_key_press(InputKey::ControlLeft).0.f7_down == s.f7_down,
        s.after_key_press(InputKey::ControlRight).0.right_ctrl_down,
        s.after_key_press(InputKey::ControlRight).0.left_ctrl_down == s.left_ctrl_down,
        s.after_key_press(InputKey::ControlRight).0.f7_down == s.f7_down,
{
}

/// Releasing a held key records that release as the pending one on its axis:
/// the key is no longer held and has no press time, the overlap ends, any
/// counter press is forgotten, while the other key, the axis' keys and an
/// already recorded candidate stay as they were.
pub proof fn lemma_release_records(a: AxisState, k: char, i: int, t: i64)
    requires
        a.key_position(k) == Some(i),
        a.held_keys[i],
    ensures
        ({
            let r = a.after_release(k, t);
            &&& r.keys == a.keys
            &&& r.cs_release_key == Some(k)
            &&& r.cs_release_time == Some(t)
            &&& !r.held_keys[i]
            &&& r.held_keys[1 - i] == a.held_keys[1 - i]
            &&& r.press_times[i] is None
            &&& r.press_times[1 - i] == a.press_times[1 - i]
            &&& r.overlap_start_time is None
            &&& r.cs_press_key is None
            &&& r.cs_press_time is None
            &&& r.cs_candidate == a.cs_candidate
        }),
{
}

/// Pressing a key that is up makes it held from that time, starts an overlap
/// exactly when the other key is held, and leaves the other key and the
/// pending release as they were.
pub proof fn lemma_press_records(a: AxisState, k: char, i: int, t: i64)
    requires
        a.key_position(k) == Some(i),
        !a.held_keys[i],
    ensures
        ({
            let r = a.after_press(k, t);
            &&& r.keys == a.keys
            &&& r.held_keys[i]
            &&& r.press_times[i] == Some(t)
            &&& r.held_keys[1 - i] == a.held_keys[1 - i]
            &&& r.press_times[1 - i] == a.press_times[1 - i]
            &&& (a.held_keys[1 - i] ==> r.overlap_start_time == Some(t))
            &&& (!a.held_keys[1 - i] ==> r.overlap_start_time == a.overlap_start_time)
            &&& r.cs_release_key == a.cs_release_key
            &&& r.cs_release_time == a.cs_release_time
        }),
{
}

/// The first press of the opposite key strictly after a release is the
/// counter press: it records the candidate pairing that release with this
/// press.
pub proof fn lemma_counter_press_records_candidate(
    a: AxisState,
    k: char,
    i: int,
    released_at: i64,
    t: i64,
)
    requires
        a.wf(),
        a.key_position(k) == Some(i),
        !a.held_keys[i],
        a.cs_release_key == Some(a.keys[1 - i]),
        a.cs_release_time == Some(released_at),
        a.cs_press_time is None,
        released_at < t,
    ensures
        a.after_press(k, t).cs_candidate == Some(
            CounterStrafeCandidate {
                release_key: a.keys[1 - i],
                release_time_ms: released_at,
                press_key: k,
                press_time_ms: t,
            },
        ),
        a.after_press(k, t).cs_press_time == Some(t),
        a.after_press(k, t).cs_press_key == Some(k),
{
}

/// What an axis reports is measured from its state: an overlap from the
/// start of the open overlap to the shot; a counter-strafe from the
/// candidate's release to its press (a positive time) and from that press
/// to the shot; and a bad shot when there is neither an open overlap nor a
/// candidate.
pub proof fn lemma_axis_result_timings(a: AxisState, t: i64)
    ensures
        a.shot_result(t) matches AxisClassification::Overlap { overlap_time_ms } ==> (
        a.overlap_start_time is Some && overlap_time_ms == t - a.overlap_start_time.unwrap()),
        a.shot_result(t) matches AxisClassification::CounterStrafe { cs_time_ms, shot_delay_ms }
            ==> ({
            let c = a.cs_candidate.unwrap();
            &&& a.cs_candidate is Some
            &&& cs_time_ms == c.press_time_ms - c.release_time_ms
            &&& cs_time_ms > 0
            &&& shot_delay_ms == t - c.press_time_ms
        }),
        (a.overlap_start_time is None && a.cs_candidate is None) ==> a.shot_result(t)
            is Bad,
{
}

/// The verdict's timings come from one of the axes: an overlap time is the
/// time since the start of an open overlap on some axis; counter-strafe
/// timings are those of a candidate on some axis.
pub proof fn lemma_verdict_timings_come_from_an_axis(s: ClassifierState, t: i64)
    ensures
        shot_verdict(s, t).overlap_time_ms matches Some(d) ==> (s.0.overlap_start_time
            matches Some(o) && d == t - o) || (s.1.overlap_start_time matches Some(o) && d == t
            - o),
        shot_verdict(s, t).cs_time_ms matches Some(cs) ==> ((s.0.cs_candidate matches Some(c)
            && cs == c.press_time_ms - c.release_time_ms && shot_verdict(s, t).shot_delay_ms
            == Some((t - c.press_time_ms) as i128)) || (s.1.cs_candidate matches Some(c) && cs
            == c.press_time_ms - c.release_time_ms && shot_verdict(s, t).shot_delay_ms == Some(
            (t - c.press_time_ms) as i128,
        ))),
{
    lemma_axis_result_timings(s.0, t);
    lemma_axis_result_timings(s.1, t);
}

/// A shot keeps which keys are held and since when, and keeps an overlap
/// exactly while both keys of its axis are still held.
pub proof fn lemma_shot_keeps_held_keys(s: ClassifierState)
    ensures
        shot_effect(s).0.keys == s.0.keys,
        shot_effect(s).1.keys == s.1.keys,
        shot_effect(s).0.held_keys == s.0.held_keys,
        shot_effect(s).1.held_keys == s.1.held_keys,
        shot_effect(s).0.press_times == s.0.press_times,
        shot_effect(s).1.press_times == s.1.press_times,
        shot_effect(s).0.overlap_start_time == (if s.0.held_keys[0] && s.0.held_keys[1] {
            s.0.overlap_start_time
        } else {
            None
        }),
        shot_effect(s).1.overlap_start_time == (if s.1.held_keys[0] && s.1.held_keys[1] {
            s.1.overlap_start_time
        } else {
            None
        }),
        shot_effect(s).0.cs_candidate is None,
        shot_effect(s).1.cs_candidate is None,
{
}

/// The thresholds only relabel: a counter-strafe stays one exactly when it
/// passes them and keeps its timings either way; an overlap keeps its time.
pub proof fn lemma_thresholds_keep_timings(cs: i128, sd: i128, o: Option<i128>)
    ensures
        thresholded(counter_strafe_shot(cs, sd)).label == ShotLabel::CounterStrafe
            <==> passes_thresholds(cs as int, sd as int),
        thresholded(counter_strafe_shot(cs, sd)).cs_time_ms == Some(cs),
        thresholded(counter_strafe_shot(cs, sd)).shot_delay_ms == Some(sd),
        thresholded(counter_strafe_shot(cs, sd)).overlap_time_ms is None,
        thresholded(ShotClassification {
            label: ShotLabel::Overlap,
            cs_time_ms: None,
            shot_delay_ms: None,
            overlap_time_ms: o,
        }).overlap_time_ms == o,
{
}

/// A faster counter-strafe passes whenever a slower one does.
pub proof fn lemma_thresholds_monotone(cs: int, sd: int, cs2: int, sd2: int)
    requires
        passes_thresholds(cs, sd),
        cs2 <= cs,
        sd2 <= sd,
    ensures
        passes_thresholds(cs2, sd2),
{
}

/// The deciding report has the higher rank of the two; at equal rank, when
/// both have a primary time, it has the longer one.
pub proof fn lemma_chosen_maximises(vertical: AxisClassification, horizontal: AxisClassification)
    ensures
        chosen(vertical, horizontal).rank() == (if vertical.rank() >= horizontal.rank() {
            vertical.rank()
        } else {
            horizontal.rank()
        }),
        vertical.rank() == horizontal.rank() && vertical.primary() is Some
            && horizontal.primary() is Some ==> chosen(vertical, horizontal).primary().unwrap() == (
        if vertical.primary().unwrap() >= horizontal.primary().unwrap() {
            vertical.primary().unwrap()
        } else {
            horizontal.primary().unwrap()
        }),
{
}

/// Keys other than the control keys and F7 leave the shortcut state alone
/// and trigger nothing; F7 going down or up changes only the F7 flag.
pub proof fn lemma_shortcut_keys(s: ShortcutState, key: InputKey)
    ensures
        key != InputKey::ControlLeft && key != InputKey::ControlRight && key != InputKey::F7
            ==> s.after_key_press(key) == (s, None::<UiCommand>) && s.after_key_release(key)
            == s,
        s.after_key_press(InputKey::F7).0.f7_down,
        s.after_key_press(InputKey::F7).0.left_ctrl_down == s.left_ctrl_down,
        s.after_key_press(InputKey::F7).0.right_ctrl_down == s.right_ctrl_down,
        !s.after_key_release(InputKey::F7).f7_down,
        s.after_key_release(InputKey::F7).left_ctrl_down == s.left_ctrl_down,
        s.after_key_release(InputKey::F7).right_ctrl_down == s.right_ctrl_down,
{
}

/// No event changes the configured movement keys or the classifier's keys,
/// and only a left click produces a shot.
pub proof fn lemma_listener_keys_fixed(s: ListenerState, event: InputEvent, t: i64)
    ensures
        listener_step(s, event, t).0.1 == s.1,
        listener_step(s, event, t).0.0.0.keys == s.0.0.keys,
        listener_step(s, event, t).0.0.1.keys == s.0.1.keys,
        (listener_step(s, event, t).1 matches Some(UiCommand::Shot(_))) <==> event
            == InputEvent::LeftMouseDown,
{
}

/// `=` never shrinks the text and `-` never grows it, and both keep the body
/// size between the smallest and the largest one.
pub proof fn lemma_size_steps_monotone(sizes: (u32, u32))
    requires
        TextSizes::reachable(sizes),
    ensures
        grown(sizes).1 >= sizes.1,
        grown(sizes).0 >= sizes.0,
        grown(sizes).1 <= MAX_BODY_SIZE,
        shrunk(sizes).1 <= sizes.1,
        shrunk(sizes).0 <= sizes.0,
        shrunk(sizes).1 >= MIN_BODY_SIZE,
        sizes.1 < MAX_BODY_SIZE ==> grown(sizes).1 == sizes.1 + 2,
        sizes.1 > MIN_BODY_SIZE ==> shrunk(sizes).1 == sizes.1 - 2,
{
}

/// A warning is given exactly when the file was read but is invalid, and
/// the configuration is then the default one; a valid file's configuration
/// is used as it is.
pub proof fn lemma_loaded_warning(
    path_label: Seq<char>,
    outcome: Option<Result<AppConfig, Seq<char>>>,
)
    ensures
        loaded_from(path_label, outcome).1 is Some <==> outcome matches Some(Err(_)),
        outcome matches Some(Ok(c)) ==> loaded_from(path_label, outcome).0 == c,
        !(outcome matches Some(Ok(_))) ==> loaded_from(path_label, outcome).0
            == default_app_config(),
        outcome matches Some(Err(e)) ==> ({
            let w = loaded_from(path_label, outcome).1.unwrap();
            &&& w.len() == 9 + path_label.len() + 2 + e.len()
            &&& w.subrange(0, 9) == "Ignoring "@
            &&& w.subrange(9, 9 + path_label.len() as int) == path_label
            &&& w.subrange(w.len() - e.len(), w.len() as int) == e
        }),
{
    reveal_strlit("Ignoring ");
    reveal_strlit(": ");
    if let Some(Err(e)) = outcome {
        let w = loaded_from(path_label, outcome).1.unwrap();
        assert(w.subrange(0, 9) =~= "Ignoring "@);
        assert(w.subrange(9, 9 + path_label.len() as int) =~= path_label);
        assert(w.subrange(w.len() - e.len(), w.len() as int) =~= e);
    }
}

proof fn lemma_trim_start_shape(s: Seq<char>) -> (k: int)
    ensures
        0 <= k <= s.len(),
        trim_start(s) == s.subrange(k, s.len() as int),
        forall|j: int| 0 <= j < k ==> is_white_space(#[trigger] s[j]),
        k < s.len() ==> !is_white_space(s[k]),
    decreases s.len(),
{
    if s.len() > 0 && is_white_space(s[0]) {
        let rest = s.drop_first();
        let k1 = lemma_trim_start_shape(rest);
        assert(rest.subrange(k1, rest.len() as int) =~= s.subrange(k1 + 1, s.len() as int));
        assert forall|j: int| 0 <= j < k1 + 1 implies is_white_space(#[trigger] s[j]) by {
            if j > 0 {
                assert(s[j] == rest[j - 1]);
            }
        }
        k1 + 1
    } else {
        assert(s.subrange(0, s.len() as int) =~= s);
        0
    }
}

proof fn lemma_trim_end_shape(s: Seq<char>) -> (m: int)
    ensures
        0 <= m <= s.len(),
        trim_end(s) == s.subrange(0, m),
        forall|j: int| m <= j < s.len() ==> is_white_space(#[trigger] s[j]),
        m > 0 ==> !is_white_space(s[m - 1]),
    decreases s.len(),
{
    if s.len() > 0 && is_white_space(s.last()) {
        let rest = s.drop_last();
        let m1 = lemma_trim_end_shape(rest);
        assert(rest.subrange(0, m1) =~= s.subrange(0, m1));
        assert forall|j: int| m1 <= j < s.len() implies is_white_space(#[trigger] s[j]) by {
            if j < s.len() - 1 {
                assert(s[j] == rest[j]);
            }
        }
        m1
    } else {
        assert(s.subrange(0, s.len() as int) =~= s);
        s.len() as int
    }
}

/// A configured key value is accepted exactly when it holds one ASCII letter
/// or digit and nothing else but white space; the key is that character in
/// upper case. A missing value gives the default.
pub proof fn lemma_parsed_key_characterised(v: Seq<char>, default: char, c: char)
    ensures
        parsed_key(None, default) == Some(default),
        parsed_key(Some(v), default) == Some(c) <==> exists|i: int|
            #![trigger v[i]]
            {
                &&& 0 <= i < v.len()
                &&& is_ascii_alnum(v[i])
                &&& ascii_upper(v[i]) == c
                &&& forall|j: int| 0 <= j < v.len() && j != i ==> is_white_space(#[trigger] v[j])
            },
{
    let k = lemma_trim_start_shape(v);
    let sub = v.subrange(k, v.len() as int);
    let m = lemma_trim_end_shape(sub);
    assert(trim(v) == sub.subrange(0, m));
    if parsed_key(Some(v), default) == Some(c) {
        assert(m == 1);
        assert(trim(v)[0] == v[k]);
        assert forall|j: int| 0 <= j < v.len() && j != k implies is_white_space(#[trigger] v[j]) by {
            if j > k {
                assert(v[j] == sub[j - k]);
            }
        }
        assert(v[k] == v[k]);
    }
    if exists|i: int|
        #![trigger v[i]]
        {
            &&& 0 <= i < v.len()
            &&& is_ascii_alnum(v[i])
            &&& ascii_upper(v[i]) == c
            &&& forall|j: int| 0 <= j < v.len() && j != i ==> is_white_space(#[trigger] v[j])
        } {
        let i = choose|i: int|
            #![trigger v[i]]
            {
                &&& 0 <= i < v.len()
                &&& is_ascii_alnum(v[i])
                &&& ascii_upper(v[i]) == c
                &&& forall|j: int| 0 <= j < v.len() && j != i ==> is_white_space(#[trigger] v[j])
            };
        assert(!is_white_space(v[i]));
        if k < i {
            assert(is_white_space(v[k]));
        }
        if k > i {
            assert(is_white_space(v[i]));
        }
        assert(k == i);
        assert(sub[0] == v[i]);
        if m == 0 {
            assert(is_white_space(sub[0]));
        }
        if m > 1 {
            assert(sub[m - 1] == v[i + m - 1]);
            assert(is_white_space(v[i + m - 1]));
        }
        assert(m == 1);
        assert(trim(v)[0] == v[i]);
    }
}

/// The value of a string of decimal digits, most significant first.
pub open spec fn decimal_value(s: Seq<char>) -> int
    decreases s.len(),
{
    if s.len() == 0 {
        0
    } else {
        decimal_value(s.drop_last()) * 10 + (s.last() as int - 48)
    }
}

/// Shown durations are exact: the decimal text of `n` is made of digits,
/// has no leading zero, and reads back as `n`; a negative number is its
/// magnitude behind a minus sign.
pub proof fn lemma_decimal_reads_back(n: int)
    ensures
        n >= 0 ==> decimal_value(int_decimal(n)) == n,
        n >= 0 ==> forall|i: int|
            0 <= i < int_decimal(n).len() ==> '0' <= #[trigger] int_decimal(n)[i] <= '9',
        n >= 0 ==> int_decimal(n).len() >= 1 && (int_decimal(n)[0] == '0' ==> n == 0),
        n < 0 ==> int_decimal(n)[0] == '-' && decimal_value(int_decimal(n).drop_first()) == -n,
{
    if n >= 0 {
        lemma_nat_decimal(n as nat);
    } else {
        lemma_nat_decimal((-n) as nat);
        assert(int_decimal(n).drop_first() =~= nat_decimal((-n) as nat));
    }
}

proof fn lemma_nat_decimal(n: nat)
    ensures
        decimal_value(nat_decimal(n)) == n,
        forall|i: int| 0 <= i < nat_decimal(n).len() ==> '0' <= #[trigger] nat_decimal(n)[i] <= '9',
        nat_decimal(n).len() >= 1,
        nat_decimal(n)[0] == '0' ==> n == 0,
    decreases n,
{
    if n < 10 {
        assert(digit_char(n) as int == n + 48);
        let s = seq![digit_char(n)];
        assert(s.drop_last() =~= Seq::<char>::empty());
        assert(decimal_value(s) == decimal_value(s.drop_last()) * 10 + (s.last() as int - 48));
    } else {
        lemma_nat_decimal(n / 10);
        let d = digit_char(n % 10);
        assert(d as int == n % 10 + 48);
        let s = nat_decimal(n);
        assert(s == nat_decimal(n / 10).push(d));
        assert(s.drop_last() =~= nat_decimal(n / 10));
        assert(s[0] == nat_decimal(n / 10)[0]);
        assert(s.last() == d);
        assert(decimal_value(s) == decimal_value(s.drop_last()) * 10 + (s.last() as int - 48));
        assert((n / 10) * 10 + n % 10 == n) by (nonlinear_arith);
    }
}

/// A classifier can be built exactly when the four keys, taken in upper
/// case, are all different.
pub proof fn lemma_setup_ok_iff_distinct(vertical: [char; 2], horizontal: [char; 2])
    ensures
        setup_error(vertical, horizontal) is None <==> ({
            let a = ascii_upper(vertical[0]);
            let b = ascii_upper(vertical[1]);
            let c = ascii_upper(horizontal[0]);
            let d = ascii_upper(horizontal[1]);
            a != b && a != c && a != d && b != c && b != d && c != d
        }),
{
}

/// The shown text of a verdict starts with `Classification: ` and the
/// label's name, and a verdict without timings shows nothing more.
pub proof fn lemma_text_starts_with_label(v: ShotClassification)
    ensures
        v.text().len() >= 16 + label_text(v.label).len(),
        v.text().subrange(0, 16) == "Classification: "@,
        v.text().subrange(16, 16 + label_text(v.label).len() as int) == label_text(v.label),
        (v.cs_time_ms is None && v.overlap_time_ms is None) ==> v.text() == "Classification: "@
            + label_text(v.label),
{
    reveal_strlit("Classification: ");
    let p = "Classification: "@ + label_text(v.label);
    assert(v.text().subrange(0, 16) =~= "Classification: "@);
    assert(v.text().subrange(16, 16 + label_text(v.label).len() as int) =~= label_text(v.label));
    if v.cs_time_ms is None && v.overlap_time_ms is None {
        assert(v.text() =~= p);
    }
}

} // verus!
