use vstd::prelude::*;

use crate::geometry::Color;
use crate::ONE_SECOND;

verus! {

/// How long a status text takes to rise by one pixel (sixty steps a second).
pub const STATUS_UPDATE_TIME: u32 = ONE_SECOND / 60;

/// A short text (damage, healing, ...) that rises above a character and then goes away.
pub struct Status {
    pub text: String,
    /// How high the text already rose; once it reaches `y_limit`, the status should be
    /// removed.
    pub y_pos: i32,
    pub y_limit: i32,
    pub duration: u32,
    pub color: Color,
}

/// How many one-pixel steps `update` takes with `duration` accumulated, starting from
/// height `y_pos` with limit `y_limit`.
pub open spec fn rise_steps(duration: int, y_pos: int, y_limit: int) -> int {
    let by_time = if duration <= STATUS_UPDATE_TIME {
        0
    } else {
        (duration - 1) / (STATUS_UPDATE_TIME as int)
    };
    let room = if y_limit > y_pos {
        y_limit - y_pos
    } else {
        0
    };
    if by_time < room {
        by_time
    } else {
        room
    }
}

impl Status {
    /// A status showing `text`, not risen yet, that rises by 30 pixels.
    pub fn new(text: String, color: Color) -> (r: Status)
        ensures
            r.text == text,
            r.color == color,
            r.y_pos == 0,
            r.y_limit == 30,
            r.duration == 0,
    {
        Status { y_pos: 0, y_limit: 30, duration: 0, text, color }
    }

    /// Lets `elapsed` microseconds pass: the text rises one pixel for every full
    /// `STATUS_UPDATE_TIME` (keeping at most that much time in reserve), up to its limit.
    pub fn update(&mut self, elapsed: u32)
        requires
            old(self).duration + elapsed <= u32::MAX,
        ensures
            ({
                let d = old(self).duration + elapsed;
                let k = rise_steps(d, old(self).y_pos as int, old(self).y_limit as int);
                &&& final(self).y_pos == old(self).y_pos + k
                &&& final(self).duration == d - k * STATUS_UPDATE_TIME
            }),
            (final(self).y_pos as int, final(self).duration as int) == after_time(
                old(self).duration as int,
                old(self).y_pos as int,
                old(self).y_limit as int,
                elapsed as int,
            ),
            final(self).y_limit == old(self).y_limit,
            final(self).text == old(self).text,
            final(self).color == old(self).color,
            final(self).y_pos >= old(self).y_pos,
            old(self).y_pos >= old(self).y_limit ==> final(self).y_pos == old(self).y_pos,
            old(self).y_pos < old(self).y_limit ==> final(self).y_pos <= old(self).y_limit,
    {
        assert(STATUS_UPDATE_TIME == 16666);
        self.duration = self.duration + elapsed;
        let ghost d = self.duration as int;
        let ghost y0 = self.y_pos as int;
        let ghost k = rise_steps(d, y0, self.y_limit as int);
        let ghost mut taken: int = 0;
        while self.duration > STATUS_UPDATE_TIME && self.y_pos < self.y_limit
            invariant
                STATUS_UPDATE_TIME == 16666,
                0 <= taken <= k,
                self.y_pos == y0 + taken,
                self.duration == d - taken * STATUS_UPDATE_TIME,
                self.y_limit == old(self).y_limit,
                self.text == old(self).text,
                self.color == old(self).color,
                k == rise_steps(d, y0, self.y_limit as int),
                taken < k ==> self.duration > STATUS_UPDATE_TIME && self.y_pos < self.y_limit,
                taken == k ==> !(self.duration > STATUS_UPDATE_TIME && self.y_pos < self.y_limit),
            decreases self.duration,
        {
            self.duration = self.duration - STATUS_UPDATE_TIME;
            self.y_pos = self.y_pos + 1;
            proof {
                taken = taken + 1;
            }
        }
    }

    /// The text rose all the way.
    pub fn should_be_removed(&self) -> (r: bool)
        ensures
            r == (self.y_pos >= self.y_limit),
    {
        self.y_pos >= self.y_limit
    }
}

/// The height and reserved time of a status after `elapsed` more time, from height
/// `y_pos` with `duration` in reserve.
pub open spec fn after_time(duration: int, y_pos: int, y_limit: int, elapsed: int) -> (int, int) {
    let d = duration + elapsed;
    let k = rise_steps(d, y_pos, y_limit);
    (y_pos + k, d - k * STATUS_UPDATE_TIME)
}

/// Only the total time matters: letting `a` and then `b` pass leaves a status where
/// letting `a + b` pass at once leaves it.
pub proof fn lemma_updates_add_up(duration: int, y_pos: int, y_limit: int, a: int, b: int)
    requires
        0 <= duration,
        0 <= a,
        0 <= b,
    ensures
        ({
            let (y1, d1) = after_time(duration, y_pos, y_limit, a);
            after_time(d1, y1, y_limit, b) == after_time(duration, y_pos, y_limit, a + b)
        }),
{
    let t = STATUS_UPDATE_TIME as int;
    assert(t == 16666);
    let d1 = duration + a;
    let d = duration + a + b;
    if d1 > t {
        let q = (d1 - 1) / t;
        let r = (d1 - 1) % t;
        assert(d1 - 1 == q * t + r);
        assert((d - 1) / t == q + (r + b) / t) by {
            let q2 = (r + b) / t;
            let r2 = (r + b) % t;
            vstd::arithmetic::div_mod::lemma_fundamental_div_mod(r + b, t);
            assert(d - 1 == (q + q2) * t + r2) by (nonlinear_arith)
                requires
                    d - 1 == q * t + (r + b),
                    r + b == t * q2 + r2,
            ;
            vstd::arithmetic::div_mod::lemma_fundamental_div_mod_converse_div(d - 1, t, q + q2, r2);
        }
    }
}

} // verus!
