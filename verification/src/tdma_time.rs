use vstd::prelude::*;
use vstd::arithmetic::div_mod::{lemma_fundamental_div_mod, lemma_div_denominator, lemma_mod_bound, lemma_div_pos_is_pos};

verus! {

/// Timeslots in a TDMA frame.
pub const SLOTS_PER_FRAME: u64 = 4;
/// Timeslots in a multiframe (18 frames).
pub const SLOTS_PER_MULTIFRAME: u64 = 72;
/// Timeslots in a hyperframe (60 multiframes).
pub const SLOTS_PER_HYPERFRAME: u64 = 4320;
/// Timeslots before the hyperframe number (16 bits) wraps around.
pub const SLOTS_PER_CYCLE: u64 = 283_115_520;

/// A point in TDMA time: timeslot (1..=4), frame (1..=18), multiframe
/// (1..=60) and hyperframe number.
#[derive(Debug, Clone, Copy, PartialEq, Eq)]
pub struct TdmaTime {
    pub t: u8,
    pub f: u8,
    pub m: u8,
    pub h: u16,
}

impl TdmaTime {
    /// Timeslot, frame and multiframe numbers are in range.
    pub open spec fn wf(self) -> bool {
        1 <= self.t <= 4 && 1 <= self.f <= 18 && 1 <= self.m <= 60
    }

    /// Timeslots since timeslot 1 of frame 1 of multiframe 1 of hyperframe 0.
    pub open spec fn spec_index(self) -> int {
        ((self.h * 60 + (self.m - 1)) * 18 + (self.f - 1)) * 4 + (self.t - 1)
    }

    /// The time at a slot index below `SLOTS_PER_CYCLE`.
    pub open spec fn spec_from_index(x: int) -> TdmaTime {
        TdmaTime {
            t: (x % 4 + 1) as u8,
            f: ((x / 4) % 18 + 1) as u8,
            m: ((x / 72) % 60 + 1) as u8,
            h: (x / 4320) as u16,
        }
    }

    /// The slot index, as a number of timeslots.
    fn index(&self) -> (res: i64)
        ensures
            res == self.spec_index(),
    {
        ((self.h as i64 * 60 + (self.m as i64 - 1)) * 18 + (self.f as i64 - 1)) * 4 + (self.t as i64 - 1)
    }

    /// Timeslots from `other` to `self` (negative where `self` is earlier).
    pub fn diff(&self, other: TdmaTime) -> (res: i32)
        ensures
            res == self.spec_index() - other.spec_index(),
    {
        (self.index() - other.index()) as i32
    }

    /// The time `n` timeslots later (earlier for negative `n`), wrapping
    /// around after the last hyperframe.
    pub fn add_timeslots(&self, n: i32) -> (res: TdmaTime)
        ensures
            res.wf(),
            res.spec_index() == (self.spec_index() + n) % (SLOTS_PER_CYCLE as int),
    {
        // Shift by whole cycles so that the sum is not negative.
        let shifted: i64 = self.index() + n as i64 + 8 * (SLOTS_PER_CYCLE as i64);
        let x: u64 = (shifted as u64) % SLOTS_PER_CYCLE;
        proof {
            vstd::arithmetic::div_mod::lemma_mod_multiples_vanish(8, self.spec_index() + n, SLOTS_PER_CYCLE as int);
            lemma_index_roundtrip(x as int);
        }
        TdmaTime {
            t: (x % 4 + 1) as u8,
            f: ((x / 4) % 18 + 1) as u8,
            m: ((x / 72) % 60 + 1) as u8,
            h: (x / 4320) as u16,
        }
    }
}

impl Default for TdmaTime {
    /// Timeslot 1 of frame 1 of multiframe 1 of hyperframe 0.
    fn default() -> (res: TdmaTime)
        ensures
            res == (TdmaTime { t: 1, f: 1, m: 1, h: 0 }),
    {
        TdmaTime { t: 1, f: 1, m: 1, h: 0 }
    }
}

/// A slot index below `SLOTS_PER_CYCLE` is the index of the time it names,
/// and that time is well formed.
pub proof fn lemma_index_roundtrip(x: int)
    requires
        0 <= x < SLOTS_PER_CYCLE,
    ensures
        TdmaTime::spec_from_index(x).wf(),
        TdmaTime::spec_from_index(x).spec_index() == x,
{
    lemma_fundamental_div_mod(x, 4);
    lemma_fundamental_div_mod(x / 4, 18);
    lemma_div_denominator(x, 4, 18);
    lemma_fundamental_div_mod(x / 72, 60);
    lemma_div_denominator(x, 72, 60);
    lemma_mod_bound(x, 4);
    lemma_mod_bound(x / 4, 18);
    lemma_mod_bound(x / 72, 60);
    lemma_div_pos_is_pos(x, 4);
    lemma_div_pos_is_pos(x, 72);
    lemma_div_pos_is_pos(x, 4320);
    lemma_fundamental_div_mod(x, 4320);
    lemma_mod_bound(x, 4320);
    assert(x / 4320 < 65536);
    let t = TdmaTime::spec_from_index(x);
    assert(t.t == x % 4 + 1);
    assert(t.f == (x / 4) % 18 + 1);
    assert(t.m == (x / 72) % 60 + 1);
    assert(t.h == x / 4320);
}

/// The index of a well-formed time lies below `SLOTS_PER_CYCLE`, and naming it
/// gives the time back.
pub proof fn lemma_time_roundtrip(t: TdmaTime)
    requires
        t.wf(),
    ensures
        0 <= t.spec_index() < SLOTS_PER_CYCLE,
        TdmaTime::spec_from_index(t.spec_index()) == t,
{
    let x = t.spec_index();
    assert(0 <= x < SLOTS_PER_CYCLE) by (nonlinear_arith)
        requires
            x == ((t.h * 60 + (t.m - 1)) * 18 + (t.f - 1)) * 4 + (t.t - 1),
            1 <= t.t <= 4,
            1 <= t.f <= 18,
            1 <= t.m <= 60,
            0 <= t.h < 65536,
    ;
    lemma_index_roundtrip(x);
    let u = TdmaTime::spec_from_index(x);
    // Both are well formed with the same index, so their digits agree.
    lemma_digits_unique(t, u);
}

/// Two well-formed times with the same index are equal.
proof fn lemma_digits_unique(a: TdmaTime, b: TdmaTime)
    requires
        a.wf(),
        b.wf(),
        a.spec_index() == b.spec_index(),
    ensures
        a == b,
{
    let x = a.spec_index();
    vstd::arithmetic::div_mod::lemma_fundamental_div_mod_converse(x, 4, (a.h * 60 + (a.m - 1)) * 18 + (a.f - 1), a.t - 1);
    vstd::arithmetic::div_mod::lemma_fundamental_div_mod_converse(x, 4, (b.h * 60 + (b.m - 1)) * 18 + (b.f - 1), b.t - 1);
    let y = x / 4;
    vstd::arithmetic::div_mod::lemma_fundamental_div_mod_converse(y, 18, a.h * 60 + (a.m - 1), a.f - 1);
    vstd::arithmetic::div_mod::lemma_fundamental_div_mod_converse(y, 18, b.h * 60 + (b.m - 1), b.f - 1);
    let z = y / 18;
    vstd::arithmetic::div_mod::lemma_fundamental_div_mod_converse(z, 60, a.h as int, a.m - 1);
    vstd::arithmetic::div_mod::lemma_fundamental_div_mod_converse(z, 60, b.h as int, b.m - 1);
}

/// Moving `n` timeslots on from a well-formed time, without wrapping, lies
/// `n` timeslots after it.
pub proof fn lemma_add_then_diff(t: TdmaTime, n: int)
    requires
        t.wf(),
        0 <= t.spec_index() + n < SLOTS_PER_CYCLE,
    ensures
        (t.spec_index() + n) % (SLOTS_PER_CYCLE as int) - t.spec_index() == n,
{
    vstd::arithmetic::div_mod::lemma_small_mod((t.spec_index() + n) as nat, SLOTS_PER_CYCLE as nat);
}

} // verus!
