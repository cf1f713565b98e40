use vstd::prelude::*;

verus! {

/// Two moves closer together than this count as one repeated scroll.
pub const REPEATED_SCROLL_THRESHOLD_MILLIS: u64 = 300;

/// Speeds are kept in thousandths of a row per move.  The start value stands
/// for 0.1 rows, the cap for 10 rows; each repeated move multiplies the speed
/// by 1.05, that is by 21/20.
pub const SCROLL_SPEED_START_MILLI: u64 = 100;

pub const SCROLL_SPEED_MAX_MILLI: u64 = 10000;

pub const SCROLL_SPEED_MULT_NUM: u64 = 21;

pub const SCROLL_SPEED_MULT_DEN: u64 = 20;

/// The ways a list selection can be asked to move.
#[derive(Clone, Copy, PartialEq, Eq, Structural, Debug)]
pub enum ScrollType {
    Up,
    Down,
    PageUp,
    PageDown,
    Home,
    End,
}

/// Converts a stream of discrete move intents plus wall-clock timestamps into
/// an accelerating step size, independent of any one list: rapid repeats
/// multiply the speed up to a cap, a pause resets it to the start value.
#[derive(Clone, Copy, PartialEq, Eq, Structural, Debug)]
pub struct ScrollSpeed {
    /// When the previous move intent arrived, in milliseconds.
    pub last_move_millis: u64,
    /// The current speed, in thousandths of a row per move.
    pub speed_milli: u64,
}

impl ScrollSpeed {
    /// The speed never exceeds the cap.
    pub open spec fn wf(self) -> bool {
        self.speed_milli <= SCROLL_SPEED_MAX_MILLI
    }

    /// Milliseconds since the previous move, seen from `now_millis`; a clock
    /// that stepped backwards counts as no time passed.
    pub open spec fn spec_elapsed(self, now_millis: u64) -> int {
        if now_millis >= self.last_move_millis {
            now_millis - self.last_move_millis
        } else {
            0
        }
    }

    /// The speed after a move intent at `now_millis`: within the repeated-
    /// scroll threshold the speed is multiplied and clamped into the band
    /// from the start value to the cap, otherwise it resets to the start
    /// value.
    pub open spec fn spec_next_speed(self, now_millis: u64) -> int {
        if self.spec_elapsed(now_millis) < REPEATED_SCROLL_THRESHOLD_MILLIS {
            let raised = self.speed_milli * SCROLL_SPEED_MULT_NUM as int
                / SCROLL_SPEED_MULT_DEN as int;
            if raised < SCROLL_SPEED_START_MILLI {
                SCROLL_SPEED_START_MILLI as int
            } else if raised <= SCROLL_SPEED_MAX_MILLI {
                raised
            } else {
                SCROLL_SPEED_MAX_MILLI as int
            }
        } else {
            SCROLL_SPEED_START_MILLI as int
        }
    }

    /// Whole rows the selection should step per move at the current speed,
    /// never less than one.
    pub open spec fn spec_step(self) -> int {
        if self.speed_milli / 1000 >= 1 {
            self.speed_milli as int / 1000
        } else {
            1
        }
    }

    pub fn new() -> (r: ScrollSpeed)
        ensures
            r.last_move_millis == 0,
            r.speed_milli == 0,
            r.wf(),
    {
        ScrollSpeed { last_move_millis: 0, speed_milli: 0 }
    }

    /// Account for one move intent arriving at `now_millis`.
    pub fn update(&mut self, now_millis: u64)
        requires
            old(self).wf(),
        ensures
            final(self).wf(),
            final(self).last_move_millis == now_millis,
            final(self).speed_milli == old(self).spec_next_speed(now_millis),
            SCROLL_SPEED_START_MILLI <= final(self).speed_milli <= SCROLL_SPEED_MAX_MILLI,
    {
        let elapsed: u64 = if now_millis >= self.last_move_millis {
            now_millis - self.last_move_millis
        } else {
            0
        };
        self.last_move_millis = now_millis;
        if elapsed < REPEATED_SCROLL_THRESHOLD_MILLIS {
            let raised: u64 = self.speed_milli * SCROLL_SPEED_MULT_NUM / SCROLL_SPEED_MULT_DEN;
            self.speed_milli = if raised < SCROLL_SPEED_START_MILLI {
                SCROLL_SPEED_START_MILLI
            } else if raised <= SCROLL_SPEED_MAX_MILLI {
                raised
            } else {
                SCROLL_SPEED_MAX_MILLI
            };
        } else {
            self.speed_milli = SCROLL_SPEED_START_MILLI;
        }
    }

    /// The step size the current speed yields, at least one row.
    pub fn step(&self) -> (r: usize)
        requires
            self.wf(),
        ensures
            r == self.spec_step(),
            1 <= r <= SCROLL_SPEED_MAX_MILLI / 1000,
    {
        let s: u64 = self.speed_milli / 1000;
        if s >= 1 {
            s as usize
        } else {
            1
        }
    }
}

/// Law: a move intent within the repeated-scroll threshold strictly
/// increases a running speed until it reaches the cap and never past it;
/// a pause longer than the threshold resets the speed to the start value;
/// and after any move the speed lies in the band from the start value to
/// the cap — whatever it was before.
pub proof fn lemma_scroll_acceleration(s: ScrollSpeed, now_millis: u64)
    requires
        s.wf(),
    ensures
        s.spec_elapsed(now_millis) < REPEATED_SCROLL_THRESHOLD_MILLIS && s.speed_milli
            < SCROLL_SPEED_MAX_MILLI ==> s.spec_next_speed(now_millis) > s.speed_milli,
        SCROLL_SPEED_START_MILLI <= s.spec_next_speed(now_millis) <= SCROLL_SPEED_MAX_MILLI,
        s.spec_elapsed(now_millis) >= REPEATED_SCROLL_THRESHOLD_MILLIS ==> s.spec_next_speed(
            now_millis,
        ) == SCROLL_SPEED_START_MILLI,
{
    if s.spec_elapsed(now_millis) < REPEATED_SCROLL_THRESHOLD_MILLIS {
        let m = s.speed_milli as int;
        if m >= 100 {
            assert(m * 21 / 20 >= m + 1) by (nonlinear_arith)
                requires
                    m >= 100,
            ;
        }
    }
}

} // verus!
