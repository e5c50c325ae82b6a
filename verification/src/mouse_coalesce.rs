//! Accumulates mouse deltas before they are sent on the Input stream.

use vstd::prelude::*;

verus! {

/// Absolute value of a 32-bit integer, as a mathematical integer.
pub open spec fn abs_int(v: int) -> int {
    if v < 0 { -v } else { v }
}

/// Manhattan length `|dx| + |dy|`, saturated at `i32::MAX`.
pub open spec fn manhattan_sat(dx: i32, dy: i32) -> int {
    let m = abs_int(dx as int) + abs_int(dy as int);
    if m > i32::MAX { i32::MAX as int } else { m }
}

/// Pending mouse movement not yet sent to the peer.
#[derive(Debug, Default)]
pub struct MouseCoalescer {
    pending_dx: i32,
    pending_dy: i32,
}

impl View for MouseCoalescer {
    type V = (i32, i32);

    open spec fn view(&self) -> (i32, i32) {
        (self.spec_dx(), self.spec_dy())
    }
}

impl MouseCoalescer {
    /// The pending horizontal delta.
    pub closed spec fn spec_dx(&self) -> i32 {
        self.pending_dx
    }

    /// The pending vertical delta.
    pub closed spec fn spec_dy(&self) -> i32 {
        self.pending_dy
    }

    /// A coalescer with nothing pending.
    pub fn new() -> (c: Self)
        ensures
            c@ == (0i32, 0i32),
    {
        Self { pending_dx: 0, pending_dy: 0 }
    }

    /// Adds a delta; each axis wraps around on overflow.
    pub fn push(&mut self, dx: i32, dy: i32)
        ensures
            final(self)@ == (old(self)@.0.wrapping_add(dx), old(self)@.1.wrapping_add(dy)),
    {
        self.pending_dx = self.pending_dx.wrapping_add(dx);
        self.pending_dy = self.pending_dy.wrapping_add(dy);
    }

    /// Hands out and clears the pending delta when its Manhattan length
    /// (saturated at `i32::MAX`) reaches `min_manhattan`; otherwise keeps it.
    pub fn take_if_significant(&mut self, min_manhattan: i32) -> (r: Option<(i32, i32)>)
        requires
            old(self)@.0 != i32::MIN,
            old(self)@.1 != i32::MIN,
        ensures
            manhattan_sat(old(self)@.0, old(self)@.1) < min_manhattan ==> {
                &&& r is None
                &&& final(self)@ == old(self)@
            },
            manhattan_sat(old(self)@.0, old(self)@.1) >= min_manhattan ==> {
                &&& r == Some(old(self)@)
                &&& final(self)@ == (0i32, 0i32)
            },
    {
        let ax: i32 = if self.pending_dx < 0 { -self.pending_dx } else { self.pending_dx };
        let ay: i32 = if self.pending_dy < 0 { -self.pending_dy } else { self.pending_dy };
        let sum: i64 = ax as i64 + ay as i64;
        let m: i32 = if sum > i32::MAX as i64 { i32::MAX } else { sum as i32 };
        if m < min_manhattan {
            return None;
        }
        let v = (self.pending_dx, self.pending_dy);
        self.pending_dx = 0;
        self.pending_dy = 0;
        Some(v)
    }

    /// The pending movement.
    pub fn pending(&self) -> (r: (i32, i32))
        ensures
            r == self@,
    {
        (self.pending_dx, self.pending_dy)
    }

    /// Whether any movement is pending.
    pub fn has_pending(&self) -> (b: bool)
        ensures
            b == (self@.0 != 0 || self@.1 != 0),
    {
        self.pending_dx != 0 || self.pending_dy != 0
    }
}

} // verus!
