//! A small gesture classifier for touch input.
//!
//! Raw pointer-down / pointer-up events are folded, one at a time, into a
//! [`TouchState`]; whenever a complete start-to-end cycle with positive
//! duration has been observed, the cycle is classified as a swipe in one of
//! four directions, a short tap, or a long tap.
//!
//! Coordinates and times are plain integers in units chosen by the caller
//! (for example pixels and milliseconds). The default thresholds assume
//! those units: a swipe must move more than 100 units along its dominant
//! axis, and a touch held for 500 time units or longer is a long tap.

use vstd::prelude::*;

verus! {

use vstd::math::abs;

/// A classified touch interaction.
///
/// `DoubleTap` is declared as a possible outcome for callers that wish to
/// match on it, but the classifier never produces it: no double-tap timing
/// rule is defined.
#[derive(Clone, Copy, Debug, PartialEq, Eq, Structural)]
pub enum TouchGesture {
    SwipeUp,
    SwipeDown,
    SwipeLeft,
    SwipeRight,
    Tap,
    LongTap,
    DoubleTap,
}

/// One raw input event, reduced to the shapes the classifier reads.
///
/// Any event that is neither a touch start nor a touch end is represented by
/// `Other`: the classifier records nothing from it.
#[derive(Clone, Copy, Debug, PartialEq, Eq, Structural)]
pub enum TouchEvent {
    TouchStart { x: i32, y: i32 },
    TouchEnd { x: i32, y: i32 },
    Other,
}

/// The classifier's state: two configurable thresholds, a sticky flag that
/// remembers whether a touch interface was ever detected, and the time and
/// position of the most recent start and end events.
#[derive(Clone, Copy, Debug, PartialEq, Eq, Structural)]
pub struct TouchState {
    /// Set the first time a complete start-to-end cycle with positive
    /// duration is observed; never cleared afterwards.
    pub touch_interface_detected: bool,
    /// The minimum distance on an axis after which the interaction is
    /// considered a swipe.
    pub swipe_threshold: i32,
    /// The maximum length of a touch for an interaction to be considered a
    /// short tap.
    pub tap_threshold: i32,
    /// Time of the most recent touch start.
    pub started_at: i32,
    /// Position of the most recent touch start.
    pub start_x: i32,
    /// Position of the most recent touch start.
    pub start_y: i32,
    /// Time of the most recent touch end.
    pub ended_at: i32,
    /// Position of the most recent touch end.
    pub end_x: i32,
    /// Position of the most recent touch end.
    pub end_y: i32,
}

impl TouchState {
    /// The state a fresh classifier starts from: thresholds at their
    /// defaults, nothing detected, no cycle data.
    pub open spec fn spec_default() -> TouchState {
        TouchState {
            touch_interface_detected: false,
            swipe_threshold: 100,
            tap_threshold: 500,
            started_at: 0,
            start_x: 0,
            start_y: 0,
            ended_at: 0,
            end_x: 0,
            end_y: 0,
        }
    }

    /// `self` with the per-cycle fields zeroed; the thresholds and the
    /// sticky detection flag are configuration and survive.
    pub open spec fn spec_cleared(self) -> TouchState {
        TouchState {
            touch_interface_detected: self.touch_interface_detected,
            swipe_threshold: self.swipe_threshold,
            tap_threshold: self.tap_threshold,
            started_at: 0,
            start_x: 0,
            start_y: 0,
            ended_at: 0,
            end_x: 0,
            end_y: 0,
        }
    }

    /// The duration of the currently recorded cycle. Zero or negative means
    /// no complete cycle exists yet.
    pub open spec fn duration(self) -> int {
        self.ended_at - self.started_at
    }

    /// No complete cycle is pending: the recorded end does not lie after the
    /// recorded start. Every state the classifier leaves behind is idle.
    pub open spec fn idle(self) -> bool {
        self.ended_at <= self.started_at
    }

    /// The state left behind after a gesture has been emitted: the per-cycle
    /// fields cleared, the detection flag set.
    pub open spec fn spec_resolved(self) -> TouchState {
        TouchState { touch_interface_detected: true, ..self.spec_cleared() }
    }

    /// Builds the default state.
    pub fn new() -> (s: TouchState)
        ensures
            s == TouchState::spec_default(),
    {
        TouchState {
            touch_interface_detected: false,
            swipe_threshold: 100,
            tap_threshold: 500,
            started_at: 0,
            start_x: 0,
            start_y: 0,
            ended_at: 0,
            end_x: 0,
            end_y: 0,
        }
    }

    /// Records one event and classifies the state that results.
    ///
    /// The event is folded into the state first; the classification then
    /// runs unconditionally on the updated state, so a stale positive
    /// duration is resolved on whatever event arrives next. When a gesture
    /// is returned, the per-cycle fields are cleared and the detection flag
    /// is set, so the next start/end pair is tracked from a clean slate;
    /// otherwise the updated state is kept as it is for accumulation. The
    /// call never fails and always leaves an idle state behind.
    pub fn get_gesture(&mut self, time: i32, evt: &TouchEvent) -> (gesture: Option<TouchGesture>)
        ensures
            gesture == spec_gesture(spec_record(*old(self), time, *evt)),
            gesture is None ==> *final(self) == spec_record(*old(self), time, *evt),
            gesture is Some ==> *final(self) == spec_record(*old(self), time, *evt).spec_resolved(),
            final(self).idle(),
            final(self).swipe_threshold == old(self).swipe_threshold,
            final(self).tap_threshold == old(self).tap_threshold,
    {
        let mut gesture: Option<TouchGesture> = None;
        match *evt {
            TouchEvent::TouchStart { x, y } => {
                self.started_at = time;
                self.start_x = x;
                self.start_y = y;
            },
            TouchEvent::TouchEnd { x, y } => {
                self.ended_at = time;
                self.end_x = x;
                self.end_y = y;
            },
            TouchEvent::Other => {},
        }
        let touch_duration: i64 = self.ended_at as i64 - self.started_at as i64;
        if touch_duration > 0 {
            self.touch_interface_detected = true;
            let x_diff: i64 = self.end_x as i64 - self.start_x as i64;
            let y_diff: i64 = self.end_y as i64 - self.start_y as i64;
            let x_abs: i64 = if x_diff < 0 { -x_diff } else { x_diff };
            let y_abs: i64 = if y_diff < 0 { -y_diff } else { y_diff };
            let swipe: i64 = self.swipe_threshold as i64;
            if x_abs > y_abs {
                if x_diff > swipe {
                    gesture = Some(TouchGesture::SwipeRight);
                }
                if x_diff < -swipe {
                    gesture = Some(TouchGesture::SwipeLeft);
                }
            }
            if gesture.is_none() && y_abs > x_abs {
                if y_diff > swipe {
                    gesture = Some(TouchGesture::SwipeDown);
                }
                if y_diff < -swipe {
                    gesture = Some(TouchGesture::SwipeUp);
                }
            }
            if gesture.is_none() {
                if touch_duration < self.tap_threshold as i64 {
                    gesture = Some(TouchGesture::Tap);
                } else {
                    gesture = Some(TouchGesture::LongTap);
                }
            }
        }
        if gesture.is_some() {
            let cleared = self.reset();
            *self = cleared;
        }
        gesture
    }

    /// A copy of `self` ready for the next cycle: thresholds and the sticky
    /// detection flag are kept, the per-cycle fields are zeroed.
    pub fn reset(&self) -> (s: TouchState)
        ensures
            s == self.spec_cleared(),
    {
        TouchState {
            touch_interface_detected: self.touch_interface_detected,
            swipe_threshold: self.swipe_threshold,
            tap_threshold: self.tap_threshold,
            started_at: 0,
            start_x: 0,
            start_y: 0,
            ended_at: 0,
            end_x: 0,
            end_y: 0,
        }
    }
}

/// The state after one event has been recorded: a touch start overwrites the
/// start fields, a touch end overwrites the end fields, and any other event
/// records nothing.
pub open spec fn spec_record(s: TouchState, time: i32, evt: TouchEvent) -> TouchState {
    match evt {
        TouchEvent::TouchStart { x, y } => TouchState {
            started_at: time,
            start_x: x,
            start_y: y,
            ..s
        },
        TouchEvent::TouchEnd { x, y } => TouchState {
            ended_at: time,
            end_x: x,
            end_y: y,
            ..s
        },
        TouchEvent::Other => s,
    }
}

/// The swipe, if any, for a cycle whose displacement is `(dx, dy)`: the
/// dominant axis must strictly exceed the other, and the displacement along
/// it must strictly exceed `threshold` in magnitude. A displacement with
/// `|dx| == |dy|` is never a swipe.
pub open spec fn spec_swipe(dx: int, dy: int, threshold: int) -> Option<TouchGesture> {
    if abs(dx) > abs(dy) {
        if dx < -threshold {
            Some(TouchGesture::SwipeLeft)
        } else if dx > threshold {
            Some(TouchGesture::SwipeRight)
        } else {
            None
        }
    } else if abs(dy) > abs(dx) {
        if dy < -threshold {
            Some(TouchGesture::SwipeUp)
        } else if dy > threshold {
            Some(TouchGesture::SwipeDown)
        } else {
            None
        }
    } else {
        None
    }
}

/// What a state classifies as. `None` until a complete cycle with positive
/// duration exists; then a swipe if the displacement qualifies, otherwise a
/// short tap for durations strictly below `tap_threshold` and a long tap
/// from `tap_threshold` on.
pub open spec fn spec_gesture(s: TouchState) -> Option<TouchGesture> {
    if s.duration() <= 0 {
        None
    } else {
        match spec_swipe(s.end_x - s.start_x, s.end_y - s.start_y, s.swipe_threshold as int) {
            Some(g) => Some(g),
            None => if s.duration() < s.tap_threshold {
                Some(TouchGesture::Tap)
            } else {
                Some(TouchGesture::LongTap)
            },
        }
    }
}

impl Default for TouchState {
    /// The default state, equal to [`TouchState::new`].
    fn default() -> (s: TouchState)
        ensures
            s == TouchState::spec_default(),
    {
        TouchState::new()
    }
}

/// An event that is neither a touch start nor a touch end records nothing,
/// and an idle state classifies as nothing: feeding it through
/// [`TouchState::get_gesture`] therefore returns `None` and leaves the state
/// exactly as it was.
pub proof fn lemma_other_event_is_inert(s: TouchState, time: i32)
    requires
        s.idle(),
    ensures
        spec_record(s, time, TouchEvent::Other) == s,
        spec_gesture(spec_record(s, time, TouchEvent::Other)) is None,
{
}

/// A touch start followed at the same time by a touch end at the same
/// coordinates makes a cycle of duration zero: neither event yields a
/// gesture, and the detection flag is left as it was. The state must hold
/// no end time later than `time`, as is the case whenever event times are
/// non-decreasing.
pub proof fn lemma_instant_touch_is_no_gesture(s: TouchState, time: i32, x: i32, y: i32)
    requires
        s.ended_at <= time,
    ensures
        ({
            let after_start = spec_record(s, time, TouchEvent::TouchStart { x, y });
            let after_end = spec_record(after_start, time, TouchEvent::TouchEnd { x, y });
            &&& spec_gesture(after_start) is None
            &&& spec_gesture(after_end) is None
            &&& after_end.touch_interface_detected == s.touch_interface_detected
            &&& after_end.duration() == 0
        }),
{
}

/// A full start/end pair overwrites every per-cycle field, so what it
/// classifies as depends only on the pair and on the thresholds: two states
/// that agree on the thresholds — for instance the cleared state left behind
/// by a previous gesture and a fresh default state — classify any subsequent
/// pair identically.
pub proof fn lemma_cycles_are_independent(
    s1: TouchState,
    s2: TouchState,
    start_time: i32,
    start_x: i32,
    start_y: i32,
    end_time: i32,
    end_x: i32,
    end_y: i32,
)
    requires
        s1.swipe_threshold == s2.swipe_threshold,
        s1.tap_threshold == s2.tap_threshold,
    ensures
        ({
            let start = TouchEvent::TouchStart { x: start_x, y: start_y };
            let end = TouchEvent::TouchEnd { x: end_x, y: end_y };
            let a = spec_record(spec_record(s1, start_time, start), end_time, end);
            let b = spec_record(spec_record(s2, start_time, start), end_time, end);
            spec_gesture(a) == spec_gesture(b)
        }),
{
}

/// After any gesture, the state is the cleared one: the thresholds survive,
/// the detection flag is set and stays set, and every per-cycle field is
/// zero, so nothing of the finished cycle can leak into the next one.
pub proof fn lemma_reset_preserves_configuration(s: TouchState)
    requires
        spec_gesture(s) is Some,
    ensures
        s.spec_resolved().swipe_threshold == s.swipe_threshold,
        s.spec_resolved().tap_threshold == s.tap_threshold,
        s.spec_resolved().touch_interface_detected,
        s.spec_resolved().started_at == 0,
        s.spec_resolved().start_x == 0,
        s.spec_resolved().start_y == 0,
        s.spec_resolved().ended_at == 0,
        s.spec_resolved().end_x == 0,
        s.spec_resolved().end_y == 0,
{
}

/// Recording the same touch start again changes nothing: with no matching
/// end, feeding one start repeatedly always returns `None` and converges to
/// the same recorded start fields after the first call. As above, the state
/// must hold no end time later than `time`.
pub proof fn lemma_repeated_start_is_idempotent(s: TouchState, time: i32, x: i32, y: i32)
    requires
        s.ended_at <= time,
    ensures
        ({
            let once = spec_record(s, time, TouchEvent::TouchStart { x, y });
            &&& spec_gesture(once) is None
            &&& spec_record(once, time, TouchEvent::TouchStart { x, y }) == once
        }),
{
}

} // verus!
