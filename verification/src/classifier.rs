//! Shot classification from movement-key timing.
//!
//! Timestamps are whole milliseconds (`i64`) on one clock; durations between
//! two timestamps are `i128`, so that no difference can overflow.
use vstd::prelude::*;
use crate::text::{ascii_upper, int_decimal, push_signed, to_ascii_upper};

verus! {

/// A key release followed by a press of the opposite key on the same axis.
#[derive(Clone, Copy, Debug, PartialEq, Eq)]
pub struct CounterStrafeCandidate {
    pub release_key: char,
    pub release_time_ms: i64,
    pub press_key: char,
    pub press_time_ms: i64,
}

/// The tracking state of one movement axis (a pair of opposite keys).
#[derive(Clone, Copy, Debug)]
pub struct AxisState {
    pub keys: [char; 2],
    pub held_keys: [bool; 2],
    pub press_times: [Option<i64>; 2],
    pub cs_candidate: Option<CounterStrafeCandidate>,
    pub cs_release_key: Option<char>,
    pub cs_release_time: Option<i64>,
    pub cs_press_key: Option<char>,
    pub cs_press_time: Option<i64>,
    pub overlap_start_time: Option<i64>,
    pub micro_candidate_duration: Option<i128>,
}

/// A release shorter than this many milliseconds after its press is a micro tap.
pub const MICRO_TAP_LIMIT_MS: i128 = 80;

/// The longest shot delay that a counter-strafe may have.
pub const SHOT_DELAY_LIMIT_MS: i128 = 230;

/// A counter-strafe must have its counter time or its shot delay at most this long.
pub const TIMING_LIMIT_MS: i128 = 215;

/// `a` with position `i` (0 or 1) replaced by `v`.
pub open spec fn with_at<T>(a: [T; 2], i: int, v: T) -> [T; 2] {
    if i == 0 {
        [v, a[1]]
    } else {
        [a[0], v]
    }
}

/// `c` is one of the two keys of `keys`.
pub open spec fn pair_has(keys: [char; 2], c: char) -> bool {
    keys[0] == c || keys[1] == c
}

/// The axis state right after construction: nothing held, nothing recorded.
pub open spec fn fresh_axis(keys: [char; 2]) -> AxisState {
    AxisState {
        keys,
        held_keys: [false, false],
        press_times: [None, None],
        cs_candidate: None,
        cs_release_key: None,
        cs_release_time: None,
        cs_press_key: None,
        cs_press_time: None,
        overlap_start_time: None,
        micro_candidate_duration: None,
    }
}

impl AxisState {
    /// The position of `key` in this axis' key pair, the first one if both match.
    pub open spec fn key_position(self, key: char) -> Option<int> {
        if self.keys[0] == key {
            Some(0)
        } else if self.keys[1] == key {
            Some(1)
        } else {
            None
        }
    }

    /// The state after `key` goes down at time `t`.
    ///
    /// A key of another axis, or one already held, changes nothing. Otherwise
    /// the key is held from `t`; if the opposite key is held too an overlap
    /// starts at `t`; if the opposite key was the last one released and no
    /// counter press was seen since, this press is the counter press, and a
    /// candidate is recorded when it comes strictly after that release.
    pub open spec fn after_press(self, key: char, t: i64) -> AxisState {
        match self.key_position(key) {
            None => self,
            Some(i) => if self.held_keys[i] {
                self
            } else {
                let o = 1 - i;
                let other = self.keys[o];
                let counter = self.cs_release_key == Some(other) && self.cs_press_time is None;
                let new_candidate = counter && self.cs_release_time is Some && t
                    > self.cs_release_time.unwrap();
                AxisState {
                    held_keys: with_at(self.held_keys, i, true),
                    press_times: with_at(self.press_times, i, Some(t)),
                    overlap_start_time: if self.held_keys[o] {
                        Some(t)
                    } else {
                        self.overlap_start_time
                    },
                    cs_press_key: if counter {
                        Some(key)
                    } else {
                        self.cs_press_key
                    },
                    cs_press_time: if counter {
                        Some(t)
                    } else {
                        self.cs_press_time
                    },
                    cs_candidate: if new_candidate {
                        Some(
                            CounterStrafeCandidate {
                                release_key: other,
                                release_time_ms: self.cs_release_time.unwrap(),
                                press_key: key,
                                press_time_ms: t,
                            },
                        )
                    } else {
                        self.cs_candidate
                    },
                    micro_candidate_duration: None,
                    ..self
                }
            },
        }
    }

    /// The state after `key` goes up at time `t`.
    ///
    /// A key of another axis, or one not held, changes nothing. Otherwise the
    /// key is no longer held, any overlap ends, and the release is recorded as
    /// the start of a possible counter-strafe (forgetting any counter press).
    pub open spec fn after_release(self, key: char, t: i64) -> AxisState {
        match self.key_position(key) {
            None => self,
            Some(i) => if !self.held_keys[i] {
                self
            } else {
                let held_for = t - self.press_times[i].unwrap();
                AxisState {
                    micro_candidate_duration: if self.press_times[i] is Some && held_for
                        < MICRO_TAP_LIMIT_MS {
                        Some(held_for as i128)
                    } else {
                        self.micro_candidate_duration
                    },
                    held_keys: with_at(self.held_keys, i, false),
                    press_times: with_at(self.press_times, i, None),
                    overlap_start_time: None,
                    cs_release_key: Some(key),
                    cs_release_time: Some(t),
                    cs_press_key: None,
                    cs_press_time: None,
                    ..self
                }
            },
        }
    }

    /// The state after a shot: counter-strafe tracking is cleared, and an
    /// overlap is kept only while both keys are still held.
    pub open spec fn after_reset(self) -> AxisState {
        AxisState {
            cs_candidate: None,
            cs_release_key: None,
            cs_release_time: None,
            cs_press_key: None,
            cs_press_time: None,
            overlap_start_time: if self.held_keys[0] && self.held_keys[1] {
                self.overlap_start_time
            } else {
                None
            },
            micro_candidate_duration: None,
            ..self
        }
    }

    /// `c` is a release of one key of this axis strictly followed by a press
    /// of the other.
    pub open spec fn candidate_ok(self, c: CounterStrafeCandidate) -> bool {
        &&& c.press_time_ms > c.release_time_ms
        &&& pair_has(self.keys, c.release_key)
        &&& pair_has(self.keys, c.press_key)
        &&& c.press_key != c.release_key
    }

    /// A clean counter-strafe was released after the overlap that began at `start`.
    pub open spec fn clean_counter_after(self, start: i64) -> bool {
        ||| (self.cs_candidate matches Some(c) && c.release_time_ms > start && self.candidate_ok(
            c,
        ))
        ||| (self.cs_press_time matches Some(p) && self.cs_release_time matches Some(r) && r
            > start && p > r)
    }

    /// What this axis reports for a shot at time `t`.
    pub open spec fn shot_result(self, t: i64) -> AxisClassification {
        if self.overlap_start_time is Some && !self.clean_counter_after(
            self.overlap_start_time.unwrap(),
        ) {
            AxisClassification::Overlap {
                overlap_time_ms: (t - self.overlap_start_time.unwrap()) as i128,
            }
        } else if self.cs_candidate is Some && self.candidate_ok(self.cs_candidate.unwrap()) {
            let c = self.cs_candidate.unwrap();
            AxisClassification::CounterStrafe {
                cs_time_ms: (c.press_time_ms - c.release_time_ms) as i128,
                shot_delay_ms: (t - c.press_time_ms) as i128,
            }
        } else {
            AxisClassification::Bad
        }
    }

    /// The consistency that every reachable axis state keeps: a key has a
    /// press time exactly while it is held, an overlap is open exactly while
    /// both keys are held, a counter press only follows a recorded release, and a
    /// candidate is always a proper release-then-press of this axis' keys.
    pub open spec fn wf(self) -> bool {
        &&& self.keys[0] != self.keys[1]
        &&& (self.press_times[0] is Some <==> self.held_keys[0])
        &&& (self.press_times[1] is Some <==> self.held_keys[1])
        &&& (self.overlap_start_time is Some <==> (self.held_keys[0] && self.held_keys[1]))
        &&& (self.cs_release_key is Some <==> self.cs_release_time is Some)
        &&& (self.cs_press_key is Some <==> self.cs_press_time is Some)
        &&& (self.cs_press_time is Some ==> self.cs_release_key is Some)
        &&& (self.cs_candidate matches Some(c) ==> self.candidate_ok(c))
    }

    fn new(keys: [char; 2]) -> (r: AxisState)
        ensures
            r == fresh_axis(keys),
    {
        AxisState {
            keys,
            held_keys: [false, false],
            press_times: [None, None],
            cs_candidate: None,
            cs_release_key: None,
            cs_release_time: None,
            cs_press_key: None,
            cs_press_time: None,
            overlap_start_time: None,
            micro_candidate_duration: None,
        }
    }

    fn key_index(&self, key: char) -> (r: Option<usize>)
        ensures
            r matches Some(i) ==> self.key_position(key) == Some(i as int),
            r is None ==> self.key_position(key) is None,
    {
        if self.keys[0] == key {
            Some(0)
        } else if self.keys[1] == key {
            Some(1)
        } else {
            None
        }
    }

    fn contains(&self, key: char) -> (r: bool)
        ensures
            r == pair_has(self.keys, key),
    {
        self.keys[0] == key || self.keys[1] == key
    }

    fn on_press(&mut self, key: char, timestamp_ms: i64)
        ensures
            *final(self) == old(self).after_press(key, timestamp_ms),
            old(self).wf() ==> final(self).wf(),
    {
        let key_index = match self.key_index(key) {
            Some(i) => i,
            None => {
                return ;
            },
        };
        if self.held_keys[key_index] {
            return ;
        }
        let ghost s0 = *self;
        let other_index = 1 - key_index;
        let other = self.keys[other_index];
        self.held_keys[key_index] = true;
        self.press_times[key_index] = Some(timestamp_ms);

        if self.held_keys[other_index] {
            self.overlap_start_time = Some(timestamp_ms);
        }
        let counter = match self.cs_release_key {
            Some(k) => k == other && self.cs_press_time.is_none(),
            None => false,
        };
        if counter {
            self.cs_press_key = Some(key);
            self.cs_press_time = Some(timestamp_ms);
            if let Some(release_time_ms) = self.cs_release_time {
                if timestamp_ms > release_time_ms {
                    self.cs_candidate = Some(
                        CounterStrafeCandidate {
                            release_key: other,
                            release_time_ms,
                            press_key: key,
                            press_time_ms: timestamp_ms,
                        },
                    );
                }
            }
            self.micro_candidate_duration = None;
        }
        self.micro_candidate_duration = None;
        proof {
            let i = key_index as int;
            assert(self.held_keys =~= with_at(s0.held_keys, i, true));
            assert(self.press_times =~= with_at(s0.press_times, i, Some(timestamp_ms)));
            assert(*self == s0.after_press(key, timestamp_ms));
        }
    }

    fn on_release(&mut self, key: char, timestamp_ms: i64)
        ensures
            *final(self) == old(self).after_release(key, timestamp_ms),
            old(self).wf() ==> final(self).wf(),
    {
        let key_index = match self.key_index(key) {
            Some(i) => i,
            None => {
                return ;
            },
        };
        if !self.held_keys[key_index] {
            return ;
        }
        let ghost s0 = *self;
        if let Some(press_time) = self.press_times[key_index] {
            let duration: i128 = (timestamp_ms as i128) - (press_time as i128);
            if duration < MICRO_TAP_LIMIT_MS {
                self.micro_candidate_duration = Some(duration);
            }
        }
        self.held_keys[key_index] = false;
        self.press_times[key_index] = None;
        self.overlap_start_time = None;
        self.cs_release_key = Some(key);
        self.cs_release_time = Some(timestamp_ms);
        self.cs_press_key = None;
        self.cs_press_time = None;
        proof {
            let i = key_index as int;
            assert(self.held_keys =~= with_at(s0.held_keys, i, false));
            assert(self.press_times =~= with_at(s0.press_times, i, None));
            assert(*self == s0.after_release(key, timestamp_ms));
        }
    }

    fn candidate_is_clean(&self, c: CounterStrafeCandidate) -> (r: bool)
        ensures
            r == self.candidate_ok(c),
    {
        c.press_time_ms > c.release_time_ms && self.contains(c.release_key) && self.contains(
            c.press_key,
        ) && c.press_key != c.release_key
    }

    fn classify_shot(&mut self, shot_time_ms: i64) -> (r: AxisClassification)
        ensures
            r == old(self).shot_result(shot_time_ms),
            *final(self) == old(self).after_reset(),
            old(self).wf() ==> final(self).wf(),
    {
        if let Some(overlap_start_time) = self.overlap_start_time {
            let from_candidate = match self.cs_candidate {
                Some(c) => c.release_time_ms > overlap_start_time && self.candidate_is_clean(c),
                None => false,
            };
            let from_press = match (self.cs_press_time, self.cs_release_time) {
                (Some(p), Some(r)) => r > overlap_start_time && p > r,
                _ => false,
            };
            if !(from_candidate || from_press) {
                let overlap_time: i128 = (shot_time_ms as i128) - (overlap_start_time as i128);
                self.reset();
                return AxisClassification::Overlap { overlap_time_ms: overlap_time };
            }
        }
        if let Some(c) = self.cs_candidate {
            if self.candidate_is_clean(c) {
                let cs_time: i128 = (c.press_time_ms as i128) - (c.release_time_ms as i128);
                let shot_delay: i128 = (shot_time_ms as i128) - (c.press_time_ms as i128);
                self.reset();
                return AxisClassification::CounterStrafe {
                    cs_time_ms: cs_time,
                    shot_delay_ms: shot_delay,
                };
            }
        }
        self.reset();
        AxisClassification::Bad
    }

    fn reset(&mut self)
        ensures
            *final(self) == old(self).after_reset(),
            old(self).wf() ==> final(self).wf(),
    {
        let overlap_start_time = if self.held_keys[0] && self.held_keys[1] {
            self.overlap_start_time
        } else {
            None
        };
        self.cs_candidate = None;
        self.cs_release_key = None;
        self.cs_release_time = None;
        self.cs_press_key = None;
        self.cs_press_time = None;
        self.overlap_start_time = overlap_start_time;
        self.micro_candidate_duration = None;
    }
}

/// What one axis reports for a shot.
#[derive(Clone, Copy, Debug, PartialEq, Eq)]
pub enum AxisClassification {
    CounterStrafe { cs_time_ms: i128, shot_delay_ms: i128 },
    Overlap { overlap_time_ms: i128 },
    Bad,
}

/// A counter-strafe with these timings is good enough to count.
pub open spec fn passes_thresholds(cs_time_ms: int, shot_delay_ms: int) -> bool {
    shot_delay_ms <= SHOT_DELAY_LIMIT_MS && (cs_time_ms <= TIMING_LIMIT_MS || shot_delay_ms
        <= TIMING_LIMIT_MS)
}

/// Whether a counter-strafe with these timings is good enough to count.
pub fn counter_strafe_passes_thresholds(cs_time_ms: i128, shot_delay_ms: i128) -> (r: bool)
    ensures
        r == passes_thresholds(cs_time_ms as int, shot_delay_ms as int),
{
    shot_delay_ms <= SHOT_DELAY_LIMIT_MS && (cs_time_ms <= TIMING_LIMIT_MS || shot_delay_ms
        <= TIMING_LIMIT_MS)
}

impl AxisClassification {
    /// How strongly a report claims the shot: an overlap outranks a
    /// counter-strafe that passes the thresholds, which outranks one that
    /// fails them, which outranks a bad shot.
    pub open spec fn rank(self) -> int {
        match self {
            AxisClassification::Overlap { .. } => 3,
            AxisClassification::CounterStrafe { cs_time_ms, shot_delay_ms } => if passes_thresholds(
                cs_time_ms as int,
                shot_delay_ms as int,
            ) {
                2
            } else {
                1
            },
            AxisClassification::Bad => 0,
        }
    }

    /// The counter time of a counter-strafe or the length of an overlap.
    pub open spec fn primary(self) -> Option<i128> {
        match self {
            AxisClassification::CounterStrafe { cs_time_ms, .. } => Some(cs_time_ms),
            AxisClassification::Overlap { overlap_time_ms } => Some(overlap_time_ms),
            AxisClassification::Bad => None,
        }
    }

    /// The rank of this report (see `rank`).
    pub fn selection_rank(self) -> (r: u8)
        ensures
            r as int == self.rank(),
    {
        match self {
            AxisClassification::Overlap { .. } => 3,
            AxisClassification::CounterStrafe { cs_time_ms, shot_delay_ms } => {
                if counter_strafe_passes_thresholds(cs_time_ms, shot_delay_ms) {
                    2
                } else {
                    1
                }
            },
            AxisClassification::Bad => 0,
        }
    }

    /// The primary time of this report (see `primary`).
    pub fn primary_time(self) -> (r: Option<i128>)
        ensures
            r == self.primary(),
    {
        match self {
            AxisClassification::CounterStrafe { cs_time_ms, .. } => Some(cs_time_ms),
            AxisClassification::Overlap { overlap_time_ms } => Some(overlap_time_ms),
            AxisClassification::Bad => None,
        }
    }
}

/// The report of the two axes that decides the shot: the higher rank wins;
/// at equal rank the longer primary time wins, the vertical axis on a tie,
/// and a report with a primary time wins over one without.
pub open spec fn chosen(vertical: AxisClassification, horizontal: AxisClassification) -> AxisClassification {
    if vertical.rank() > horizontal.rank() {
        vertical
    } else if vertical.rank() < horizontal.rank() {
        horizontal
    } else {
        match (vertical.primary(), horizontal.primary()) {
            (Some(v), Some(h)) => if v >= h {
                vertical
            } else {
                horizontal
            },
            (Some(_), None) => vertical,
            _ => horizontal,
        }
    }
}

/// Picks the report of the axis that decides the shot (see `chosen`).
pub fn choose_axis_classification(
    vertical: AxisClassification,
    horizontal: AxisClassification,
) -> (r: AxisClassification)
    ensures
        r == chosen(vertical, horizontal),
{
    let v_rank = vertical.selection_rank();
    let h_rank = horizontal.selection_rank();
    if v_rank > h_rank {
        vertical
    } else if v_rank < h_rank {
        horizontal
    } else {
        match (vertical.primary_time(), horizontal.primary_time()) {
            (Some(v_time), Some(h_time)) => if v_time >= h_time {
                vertical
            } else {
                horizontal
            },
            (Some(_), None) => vertical,
            _ => horizontal,
        }
    }
}

/// The three kinds of shot.
#[derive(Clone, Copy, Debug, PartialEq, Eq, Structural)]
pub enum ShotLabel {
    CounterStrafe,
    Overlap,
    Bad,
}

/// The name under which a label is shown.
pub open spec fn label_text(label: ShotLabel) -> Seq<char> {
    match label {
        ShotLabel::CounterStrafe => "Counter-strafe"@,
        ShotLabel::Overlap => "Overlap"@,
        ShotLabel::Bad => "Bad"@,
    }
}

impl ShotLabel {
    /// The name under which this label is shown.
    pub fn as_str(self) -> (r: &'static str)
        ensures
            r@ == label_text(self),
    {
        match self {
            ShotLabel::CounterStrafe => "Counter-strafe",
            ShotLabel::Overlap => "Overlap",
            ShotLabel::Bad => "Bad",
        }
    }
}

/// The verdict on one shot, with the timings that support it.
#[derive(Clone, Debug, PartialEq, Eq, Structural)]
pub struct ShotClassification {
    pub label: ShotLabel,
    pub cs_time_ms: Option<i128>,
    pub shot_delay_ms: Option<i128>,
    pub overlap_time_ms: Option<i128>,
}

/// A counter-strafe verdict with its counter time and shot delay.
pub open spec fn counter_strafe_shot(cs_time_ms: i128, shot_delay_ms: i128) -> ShotClassification {
    ShotClassification {
        label: ShotLabel::CounterStrafe,
        cs_time_ms: Some(cs_time_ms),
        shot_delay_ms: Some(shot_delay_ms),
        overlap_time_ms: None,
    }
}

/// An overlap verdict with the time both keys were held.
pub open spec fn overlap_shot(overlap_time_ms: i128) -> ShotClassification {
    ShotClassification {
        label: ShotLabel::Overlap,
        cs_time_ms: None,
        shot_delay_ms: None,
        overlap_time_ms: Some(overlap_time_ms),
    }
}

/// A bad verdict without timings.
pub open spec fn bad_shot() -> ShotClassification {
    ShotClassification {
        label: ShotLabel::Bad,
        cs_time_ms: None,
        shot_delay_ms: None,
        overlap_time_ms: None,
    }
}

/// A bad verdict that keeps the timings of a counter-strafe that was too slow.
pub open spec fn bad_timed_shot(cs_time_ms: i128, shot_delay_ms: i128) -> ShotClassification {
    ShotClassification {
        label: ShotLabel::Bad,
        cs_time_ms: Some(cs_time_ms),
        shot_delay_ms: Some(shot_delay_ms),
        overlap_time_ms: None,
    }
}

/// The two timing lines shown under a counter-strafe (or a slow one).
pub open spec fn timing_lines(cs_time_ms: i128, shot_delay_ms: i128) -> Seq<char> {
    "\nCS time: "@ + int_decimal(cs_time_ms as int) + " ms\nShot delay: "@ + int_decimal(
        shot_delay_ms as int,
    ) + " ms"@
}

impl ShotClassification {
    /// The rendered form: the label, then each timing of the label on a row of
    /// its own.
    pub open spec fn text(self) -> Seq<char> {
        "Classification: "@ + label_text(self.label) + match self.label {
            ShotLabel::Overlap => if self.overlap_time_ms is Some {
                "\nOverlap: "@ + int_decimal(self.overlap_time_ms.unwrap() as int) + " ms"@
            } else {
                Seq::empty()
            },
            _ => if self.cs_time_ms is Some && self.shot_delay_ms is Some {
                timing_lines(self.cs_time_ms.unwrap(), self.shot_delay_ms.unwrap())
            } else {
                Seq::empty()
            },
        }
    }

    pub fn counter_strafe(cs_time_ms: i128, shot_delay_ms: i128) -> (r: Self)
        ensures
            r == counter_strafe_shot(cs_time_ms, shot_delay_ms),
    {
        ShotClassification {
            label: ShotLabel::CounterStrafe,
            cs_time_ms: Some(cs_time_ms),
            shot_delay_ms: Some(shot_delay_ms),
            overlap_time_ms: None,
        }
    }

    pub fn overlap(overlap_time_ms: i128) -> (r: Self)
        ensures
            r == overlap_shot(overlap_time_ms),
    {
        ShotClassification {
            label: ShotLabel::Overlap,
            cs_time_ms: None,
            shot_delay_ms: None,
            overlap_time_ms: Some(overlap_time_ms),
        }
    }

    pub fn bad() -> (r: Self)
        ensures
            r == bad_shot(),
    {
        ShotClassification {
            label: ShotLabel::Bad,
            cs_time_ms: None,
            shot_delay_ms: None,
            overlap_time_ms: None,
        }
    }

    pub fn bad_with_timing(cs_time_ms: i128, shot_delay_ms: i128) -> (r: Self)
        ensures
            r == bad_timed_shot(cs_time_ms, shot_delay_ms),
    {
        ShotClassification {
            label: ShotLabel::Bad,
            cs_time_ms: Some(cs_time_ms),
            shot_delay_ms: Some(shot_delay_ms),
            overlap_time_ms: None,
        }
    }

    /// The text shown for this verdict (see `text`).
    pub fn display_text(&self) -> (r: String)
        ensures
            r@ == self.text(),
    {
        let mut s = String::from_str("Classification: ");
        s.append(self.label.as_str());
        match self.label {
            ShotLabel::Overlap => {
                if let Some(overlap_time) = self.overlap_time_ms {
                    s.append("\nOverlap: ");
                    push_signed(&mut s, overlap_time);
                    s.append(" ms");
                }
            },
            _ => {
                match (self.cs_time_ms, self.shot_delay_ms) {
                    (Some(cs_time), Some(shot_delay)) => {
                        s.append("\nCS time: ");
                        push_signed(&mut s, cs_time);
                        s.append(" ms\nShot delay: ");
                        push_signed(&mut s, shot_delay);
                        s.append(" ms");
                    },
                    _ => {},
                }
            },
        }
        proof {
            assert(s@ =~= self.text());
        }
        s
    }
}

/// The text the overlay shows: the last verdict, or a waiting message
/// before the first shot.
pub open spec fn overlay_text_of(last_result: Option<ShotClassification>) -> Seq<char> {
    match last_result {
        Some(r) => r.text(),
        None => "Waiting for input..."@,
    }
}

/// The text the overlay shows (see `overlay_text_of`).
pub fn overlay_text(last_result: &Option<ShotClassification>) -> (r: String)
    ensures
        r@ == overlay_text_of(*last_result),
{
    match last_result {
        Some(result) => result.display_text(),
        None => String::from_str("Waiting for input..."),
    }
}

/// The verdict after the thresholds: an overlap keeps only its overlap time;
/// a counter-strafe that fails the thresholds becomes bad with its timings;
/// a verdict missing a timing it needs becomes a plain bad one.
pub open spec fn thresholded(base: ShotClassification) -> ShotClassification {
    match base.label {
        ShotLabel::Overlap => ShotClassification {
            label: ShotLabel::Overlap,
            overlap_time_ms: base.overlap_time_ms,
            cs_time_ms: None,
            shot_delay_ms: None,
        },
        ShotLabel::CounterStrafe => if base.cs_time_ms is Some && base.shot_delay_ms is Some {
            let cs = base.cs_time_ms.unwrap();
            let sd = base.shot_delay_ms.unwrap();
            if passes_thresholds(cs as int, sd as int) {
                counter_strafe_shot(cs, sd)
            } else {
                bad_timed_shot(cs, sd)
            }
        } else {
            bad_shot()
        },
        ShotLabel::Bad => if base.cs_time_ms is Some && base.shot_delay_ms is Some {
            bad_timed_shot(base.cs_time_ms.unwrap(), base.shot_delay_ms.unwrap())
        } else {
            bad_shot()
        },
    }
}

/// Applies the counter-strafe thresholds to a verdict (see `thresholded`).
pub fn apply_counter_strafe_thresholds(base: ShotClassification) -> (r: ShotClassification)
    ensures
        r == thresholded(base),
{
    match base.label {
        ShotLabel::Overlap => ShotClassification {
            label: ShotLabel::Overlap,
            overlap_time_ms: base.overlap_time_ms,
            cs_time_ms: None,
            shot_delay_ms: None,
        },
        ShotLabel::CounterStrafe => match (base.cs_time_ms, base.shot_delay_ms) {
            (Some(cs_time), Some(shot_delay)) => {
                if counter_strafe_passes_thresholds(cs_time, shot_delay) {
                    ShotClassification::counter_strafe(cs_time, shot_delay)
                } else {
                    ShotClassification::bad_with_timing(cs_time, shot_delay)
                }
            },
            _ => ShotClassification::bad(),
        },
        ShotLabel::Bad => match (base.cs_time_ms, base.shot_delay_ms) {
            (Some(cs_time), Some(shot_delay)) => ShotClassification::bad_with_timing(
                cs_time,
                shot_delay,
            ),
            _ => ShotClassification::bad(),
        },
    }
}

/// The verdict that an axis report stands for, before the thresholds.
pub open spec fn base_verdict(c: AxisClassification) -> ShotClassification {
    match c {
        AxisClassification::CounterStrafe { cs_time_ms, shot_delay_ms } => counter_strafe_shot(
            cs_time_ms,
            shot_delay_ms,
        ),
        AxisClassification::Overlap { overlap_time_ms } => overlap_shot(overlap_time_ms),
        AxisClassification::Bad => bad_shot(),
    }
}

/// Both keys in upper case.
pub open spec fn upper_pair(keys: [char; 2]) -> [char; 2] {
    [ascii_upper(keys[0]), ascii_upper(keys[1])]
}

/// The complaint about an axis whose two keys are the same (ignoring ASCII case).
pub open spec fn axis_error(keys: [char; 2], axis_name: Seq<char>) -> Option<Seq<char>> {
    if ascii_upper(keys[0]) == ascii_upper(keys[1]) {
        Some(axis_name + "_keys must contain two distinct keys"@)
    } else {
        None
    }
}

/// The complaint about a key that occurs twice among the movement keys.
pub open spec fn duplicate_message(key: char, first_axis: Seq<char>, second_axis: Seq<char>) -> Seq<
    char,
> {
    "movement_keys contains duplicate key '"@ + seq![key] + "' in "@ + first_axis + " and "@
        + second_axis + " axes"@
}

/// The complaint about the first key, taken in the order vertical then
/// horizontal, that repeats an earlier one (ignoring ASCII case), naming the
/// axis of the earlier key and of the repeating one.
pub open spec fn movement_error(vertical: [char; 2], horizontal: [char; 2]) -> Option<Seq<char>> {
    let k0 = ascii_upper(vertical[0]);
    let k1 = ascii_upper(vertical[1]);
    let k2 = ascii_upper(horizontal[0]);
    let k3 = ascii_upper(horizontal[1]);
    if k1 == k0 {
        Some(duplicate_message(k1, "vertical"@, "vertical"@))
    } else if k2 == k0 || k2 == k1 {
        Some(duplicate_message(k2, "vertical"@, "horizontal"@))
    } else if k3 == k0 || k3 == k1 {
        Some(duplicate_message(k3, "vertical"@, "horizontal"@))
    } else if k3 == k2 {
        Some(duplicate_message(k3, "horizontal"@, "horizontal"@))
    } else {
        None
    }
}

/// Why a classifier cannot be built on these keys, if it cannot.
pub open spec fn setup_error(vertical: [char; 2], horizontal: [char; 2]) -> Option<Seq<char>> {
    if axis_error(vertical, "vertical"@) is Some {
        axis_error(vertical, "vertical"@)
    } else if axis_error(horizontal, "horizontal"@) is Some {
        axis_error(horizontal, "horizontal"@)
    } else {
        movement_error(vertical, horizontal)
    }
}

fn duplicate_key_error(key: char, first_axis: &str, second_axis: &str) -> (r: String)
    ensures
        r@ == duplicate_message(key, first_axis@, second_axis@),
{
    let mut s = String::from_str("movement_keys contains duplicate key '");
    crate::text::push_char(&mut s, key);
    s.append("' in ");
    s.append(first_axis);
    s.append(" and ");
    s.append(second_axis);
    s.append(" axes");
    proof {
        assert(s@ =~= duplicate_message(key, first_axis@, second_axis@));
    }
    s
}

/// Checks that an axis has two different keys (ignoring ASCII case).
pub fn validate_axis_keys(keys: [char; 2], axis_name: &str) -> (r: Result<(), String>)
    ensures
        r is Ok <==> axis_error(keys, axis_name@) is None,
        r matches Err(e) ==> axis_error(keys, axis_name@) == Some(e@),
{
    let first = to_ascii_upper(keys[0]);
    let second = to_ascii_upper(keys[1]);
    if first == second {
        let mut e = String::from_str(axis_name);
        e.append("_keys must contain two distinct keys");
        return Err(e);
    }
    Ok(())
}

/// Checks that no key is used twice among both axes (ignoring ASCII case).
pub fn validate_movement_keys(vertical_keys: [char; 2], horizontal_keys: [char; 2]) -> (r: Result<
    (),
    String,
>)
    ensures
        r is Ok <==> movement_error(vertical_keys, horizontal_keys) is None,
        r matches Err(e) ==> movement_error(vertical_keys, horizontal_keys) == Some(e@),
{
    let k0 = to_ascii_upper(vertical_keys[0]);
    let k1 = to_ascii_upper(vertical_keys[1]);
    let k2 = to_ascii_upper(horizontal_keys[0]);
    let k3 = to_ascii_upper(horizontal_keys[1]);
    if k1 == k0 {
        return Err(duplicate_key_error(k1, "vertical", "vertical"));
    }
    if k2 == k0 || k2 == k1 {
        return Err(duplicate_key_error(k2, "vertical", "horizontal"));
    }
    if k3 == k0 || k3 == k1 {
        return Err(duplicate_key_error(k3, "vertical", "horizontal"));
    }
    if k3 == k2 {
        return Err(duplicate_key_error(k3, "horizontal", "horizontal"));
    }
    Ok(())
}

/// Classifies shots from the presses and releases of two axes of movement keys.
#[derive(Clone, Debug)]
pub struct MovementClassifier {
    vertical: AxisState,
    horizontal: AxisState,
}

/// The pair (vertical axis, horizontal axis) of a classifier.
pub type ClassifierState = (AxisState, AxisState);

impl View for MovementClassifier {
    type V = ClassifierState;

    closed spec fn view(&self) -> ClassifierState {
        (self.vertical, self.horizontal)
    }
}

/// The well-formed classifier states: each axis is consistent, all four keys
/// are upper case and no key belongs to both axes.
pub open spec fn classifier_wf(s: ClassifierState) -> bool {
    &&& s.0.wf()
    &&& s.1.wf()
    &&& upper_pair(s.0.keys) == s.0.keys
    &&& upper_pair(s.1.keys) == s.1.keys
    &&& !pair_has(s.1.keys, s.0.keys[0])
    &&& !pair_has(s.1.keys, s.0.keys[1])
}

/// The classifier right after construction on these keys.
pub open spec fn fresh_classifier(vertical: [char; 2], horizontal: [char; 2]) -> ClassifierState {
    (fresh_axis(upper_pair(vertical)), fresh_axis(upper_pair(horizontal)))
}

/// The classifier after `key` (in either case) goes down at `t`: the axis
/// that owns the key sees the press; a key of neither axis changes nothing.
pub open spec fn press_effect(s: ClassifierState, key: char, t: i64) -> ClassifierState {
    let k = ascii_upper(key);
    if pair_has(s.0.keys, k) {
        (s.0.after_press(k, t), s.1)
    } else if pair_has(s.1.keys, k) {
        (s.0, s.1.after_press(k, t))
    } else {
        s
    }
}

/// The classifier after `key` (in either case) goes up at `t`.
pub open spec fn release_effect(s: ClassifierState, key: char, t: i64) -> ClassifierState {
    let k = ascii_upper(key);
    if pair_has(s.0.keys, k) {
        (s.0.after_release(k, t), s.1)
    } else if pair_has(s.1.keys, k) {
        (s.0, s.1.after_release(k, t))
    } else {
        s
    }
}

/// The verdict on a shot at `t`.
pub open spec fn shot_verdict(s: ClassifierState, t: i64) -> ShotClassification {
    thresholded(base_verdict(chosen(s.0.shot_result(t), s.1.shot_result(t))))
}

/// The classifier after a shot.
pub open spec fn shot_effect(s: ClassifierState) -> ClassifierState {
    (s.0.after_reset(), s.1.after_reset())
}

impl MovementClassifier {
    /// Builds a classifier on two pairs of opposite keys, which are taken in
    /// upper case. Fails, with the message of `setup_error`, when an axis has
    /// the same key twice or a key belongs to both axes.
    pub fn new(vertical_keys: [char; 2], horizontal_keys: [char; 2]) -> (r: Result<Self, String>)
        ensures
            r is Ok <==> setup_error(vertical_keys, horizontal_keys) is None,
            r matches Ok(c) ==> c@ == fresh_classifier(vertical_keys, horizontal_keys)
                && classifier_wf(c@),
            r matches Err(e) ==> setup_error(vertical_keys, horizontal_keys) == Some(e@),
    {
        validate_axis_keys(vertical_keys, "vertical")?;
        validate_axis_keys(horizontal_keys, "horizontal")?;
        validate_movement_keys(vertical_keys, horizontal_keys)?;
        let v = [to_ascii_upper(vertical_keys[0]), to_ascii_upper(vertical_keys[1])];
        let h = [to_ascii_upper(horizontal_keys[0]), to_ascii_upper(horizontal_keys[1])];
        let c = MovementClassifier { vertical: AxisState::new(v), horizontal: AxisState::new(h) };
        proof {
            assert(v =~= upper_pair(vertical_keys));
            assert(h =~= upper_pair(horizontal_keys));
        }
        Ok(c)
    }

    /// Records that `key` (in either case) went down at `timestamp_ms`.
    pub fn on_press(&mut self, key: char, timestamp_ms: i64)
        ensures
            final(self)@ == press_effect(old(self)@, key, timestamp_ms),
            classifier_wf(old(self)@) ==> classifier_wf(final(self)@),
    {
        let key = to_ascii_upper(key);
        if self.vertical.contains(key) {
            self.vertical.on_press(key, timestamp_ms);
        } else if self.horizontal.contains(key) {
            self.horizontal.on_press(key, timestamp_ms);
        }
    }

    /// Records that `key` (in either case) went up at `timestamp_ms`.
    pub fn on_release(&mut self, key: char, timestamp_ms: i64)
        ensures
            final(self)@ == release_effect(old(self)@, key, timestamp_ms),
            classifier_wf(old(self)@) ==> classifier_wf(final(self)@),
    {
        let key = to_ascii_upper(key);
        if self.vertical.contains(key) {
            self.vertical.on_release(key, timestamp_ms);
        } else if self.horizontal.contains(key) {
            self.horizontal.on_release(key, timestamp_ms);
        }
    }

    /// Classifies a shot fired at `shot_time_ms` and starts tracking afresh.
    pub fn classify_shot(&mut self, shot_time_ms: i64) -> (r: ShotClassification)
        ensures
            r == shot_verdict(old(self)@, shot_time_ms),
            final(self)@ == shot_effect(old(self)@),
            classifier_wf(old(self)@) ==> classifier_wf(final(self)@),
    {
        let vertical = self.vertical.classify_shot(shot_time_ms);
        let horizontal = self.horizontal.classify_shot(shot_time_ms);
        let classification = choose_axis_classification(vertical, horizontal);
        let base = match classification {
            AxisClassification::CounterStrafe { cs_time_ms, shot_delay_ms } =>
                ShotClassification::counter_strafe(cs_time_ms, shot_delay_ms),
            AxisClassification::Overlap { overlap_time_ms } => ShotClassification::overlap(
                overlap_time_ms,
            ),
            AxisClassification::Bad => ShotClassification::bad(),
        };
        apply_counter_strafe_thresholds(base)
    }
}

impl Default for MovementClassifier {
    /// The classifier on `W`/`S` (vertical) and `A`/`D` (horizontal).
    fn default() -> (r: Self)
        ensures
            r@ == fresh_classifier(['W', 'S'], ['A', 'D']),
            classifier_wf(r@),
    {
        let c = MovementClassifier {
            vertical: AxisState::new(['W', 'S']),
            horizontal: AxisState::new(['A', 'D']),
        };
        proof {
            assert(upper_pair(['W', 'S']) =~= ['W', 'S']);
            assert(upper_pair(['A', 'D']) =~= ['A', 'D']);
        }
        c
    }
}

} // verus!
