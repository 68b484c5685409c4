//! Push button with debounce.
//!
//! The button's pin reads high while released and low while held. Times are
//! readings of the free-running cycle counter.

use vstd::prelude::*;

use crate::consts::SYS_CYCLES_PER_MILLISECOND;

verus! {

/// Milliseconds from `older` to `newer`; zero when `newer` is not later, as
/// after the counter wrapped.
pub open spec fn elapsed_millis(newer: u32, older: u32) -> u32 {
    if newer > older {
        ((newer - older) / (SYS_CYCLES_PER_MILLISECOND as int)) as u32
    } else {
        0
    }
}

/// Milliseconds from `older` to `newer`; zero when `newer` is not later.
pub fn duration_since_millis(newer: u32, older: u32) -> (r: u32)
    ensures
        r == elapsed_millis(newer, older),
{
    if newer > older {
        (newer - older) / SYS_CYCLES_PER_MILLISECOND
    } else {
        0
    }
}

/// Debounce state of one push button.
#[derive(Clone, Copy, Debug, PartialEq, Eq, Structural)]
pub struct Button {
    /// When the current or last press started.
    pub last_press: u32,
    /// When the level last changed.
    pub last_change: u32,
    /// The level seen at the last poll; `true` is released.
    pub last_state: bool,
    /// Duration of the last completed press that nobody took yet.
    pub last_push_duration_millis: Option<u32>,
    /// Whether the next press that is long enough is to be dropped.
    pub ignore_last_press: bool,
}

/// The state after a poll that reads `level` at time `now`.
pub open spec fn poll_spec(b: Button, level: bool, now: u32) -> Button {
    if b.last_state == level {
        b
    } else if level {
        let d = elapsed_millis(now, b.last_press);
        Button {
            last_push_duration_millis: Some(
                match b.last_push_duration_millis {
                    None => d,
                    Some(d0) => if d0 > d {
                        d0
                    } else {
                        d
                    },
                },
            ),
            last_change: now,
            last_state: level,
            ..b
        }
    } else {
        Button { last_press: now, last_change: now, last_state: level, ..b }
    }
}

/// What taking the last press with threshold `min` returns.
pub open spec fn take_result(b: Button, min: u32) -> Option<u32> {
    match b.last_push_duration_millis {
        Some(d) => if d >= min && !b.ignore_last_press {
            Some(d)
        } else {
            None
        },
        None => None,
    }
}

/// The state after taking the last press with threshold `min`.
pub open spec fn take_spec(b: Button, min: u32) -> Button {
    let ignore = match b.last_push_duration_millis {
        Some(_) => false,
        None => b.ignore_last_press,
    };
    Button { last_push_duration_millis: None, ignore_last_press: ignore, ..b }
}

impl Button {
    /// A button whose pin reads `level` at time `now`.
    pub fn new(level: bool, now: u32) -> (r: Button)
        ensures
            r.last_press == now,
            r.last_change == now,
            r.last_state == level,
            r.last_push_duration_millis is None,
            !r.ignore_last_press,
    {
        Button {
            last_press: now,
            last_change: now,
            last_state: level,
            last_push_duration_millis: None,
            ignore_last_press: false,
        }
    }

    /// Whether the button is held now and has been for longer than
    /// `min_press_duration` milliseconds.
    pub fn is_pressed(&self, min_press_duration: u32, now: u32) -> (r: bool)
        ensures
            r == (!self.last_state && elapsed_millis(now, self.last_change) > min_press_duration),
    {
        let cd_millis = duration_since_millis(now, self.last_change);
        (!self.last_state) && (cd_millis > min_press_duration)
    }

    /// Takes the last completed press. It is returned when it lasted at least
    /// `min_press_duration` milliseconds and is not to be ignored. A press
    /// that is ignored or too short is not returned and clears the ignore
    /// flag. Either way the press is gone afterwards.
    pub fn take_last_press(&mut self, min_press_duration: u32) -> (r: Option<u32>)
        ensures
            r == take_result(*old(self), min_press_duration),
            *final(self) == take_spec(*old(self), min_press_duration),
    {
        let last = self.last_push_duration_millis;
        self.last_push_duration_millis = None;
        match last {
            Some(d) => {
                if d >= min_press_duration {
                    if self.ignore_last_press {
                        self.ignore_last_press = false;
                        None
                    } else {
                        Some(d)
                    }
                } else {
                    self.ignore_last_press = false;
                    None
                }
            },
            None => None,
        }
    }

    /// Drops the press in progress when it ends (a turn of the encoder while
    /// its button is held is no click).
    pub fn cancel_last_press(&mut self)
        ensures
            *final(self) == (Button { ignore_last_press: true, ..*old(self) }),
    {
        self.ignore_last_press = true;
    }

    /// Records the level `current_state` read at time `now`. A press starts
    /// on a falling level; on a rising level its duration is stored, or the
    /// longer of it and a stored press nobody took (an edge may have been
    /// missed).
    pub fn poll(&mut self, current_state: bool, now: u32)
        ensures
            *final(self) == poll_spec(*old(self), current_state, now),
    {
        if self.last_state != current_state {
            if current_state {
                let pd_millis = duration_since_millis(now, self.last_press);
                match self.last_push_duration_millis {
                    None => self.last_push_duration_millis = Some(pd_millis),
                    Some(pd0) => {
                        self.last_push_duration_millis = Some(
                            if pd0 > pd_millis {
                                pd0
                            } else {
                                pd_millis
                            },
                        );
                    },
                }
            } else {
                self.last_press = now;
            }
            self.last_change = now;
        }
        self.last_state = current_state;
    }
}

/// A press that starts at `t0` and ends at `t1` on an idle button lasts `d`
/// milliseconds; taking it with a threshold `min <= d` returns `d`, and a
/// second take before another press returns nothing.
pub proof fn lemma_press_taken_once(b: Button, t0: u32, t1: u32, min: u32)
    requires
        b.last_state,
        b.last_push_duration_millis is None,
        !b.ignore_last_press,
        elapsed_millis(t1, t0) >= min,
    ensures
        ({
            let pressed = poll_spec(poll_spec(b, false, t0), true, t1);
            let after = take_spec(pressed, min);
            &&& take_result(pressed, min) == Some(elapsed_millis(t1, t0))
            &&& take_result(after, min) is None
        }),
{
}

/// A press that is cancelled while it is held is not reported, and the next
/// long enough press is reported again.
pub proof fn lemma_cancelled_press_dropped(b: Button, t0: u32, t1: u32, min: u32)
    requires
        b.last_state,
        b.last_push_duration_millis is None,
        elapsed_millis(t1, t0) >= min,
    ensures
        ({
            let held = poll_spec(b, false, t0);
            let cancelled = Button { ignore_last_press: true, ..held };
            let released = poll_spec(cancelled, true, t1);
            &&& take_result(released, min) is None
            &&& !take_spec(released, min).ignore_last_press
        }),
{
}

/// Whether the level `level` is a release edge for a button in state `b`.
pub open spec fn is_release(b: Button, level: bool) -> bool {
    !b.last_state && level
}

/// The state after polls that read the levels and times of `evs` in order.
pub open spec fn poll_all(b: Button, evs: Seq<(bool, u32)>) -> Button
    decreases evs.len(),
{
    if evs.len() == 0 {
        b
    } else {
        poll_all(poll_spec(b, evs[0].0, evs[0].1), evs.drop_first())
    }
}

/// Whether none of the polls of `evs`, from state `b`, sees a release edge.
pub open spec fn no_release(b: Button, evs: Seq<(bool, u32)>) -> bool
    decreases evs.len(),
{
    if evs.len() == 0 {
        true
    } else {
        !is_release(b, evs[0].0) && no_release(
            poll_spec(b, evs[0].0, evs[0].1),
            evs.drop_first(),
        )
    }
}

/// A press is reported at most once: after a take, any number of polls
/// without a release edge leave nothing to take.
pub proof fn lemma_taken_press_not_repeated(b: Button, min: u32, evs: Seq<(bool, u32)>, min2: u32)
    requires
        no_release(take_spec(b, min), evs),
    ensures
        take_result(poll_all(take_spec(b, min), evs), min2) is None,
{
    lemma_polls_keep_no_press(take_spec(b, min), evs);
}

proof fn lemma_polls_keep_no_press(b: Button, evs: Seq<(bool, u32)>)
    requires
        b.last_push_duration_millis is None,
        no_release(b, evs),
    ensures
        poll_all(b, evs).last_push_duration_millis is None,
    decreases evs.len(),
{
    if evs.len() > 0 {
        lemma_polls_keep_no_press(poll_spec(b, evs[0].0, evs[0].1), evs.drop_first());
    }
}

} // verus!
