//! A sixteen-lane vector of `u16`, with the wrapping arithmetic of 16-bit
//! machine integers applied lane by lane.
use vstd::prelude::*;

verus! {

/// `a + b` in 16-bit arithmetic.
pub open spec fn add16(a: int, b: int) -> int {
    if a + b > 0xFFFF {
        a + b - 0x10000
    } else {
        a + b
    }
}

/// `a - b` in 16-bit arithmetic.
pub open spec fn sub16(a: int, b: int) -> int {
    if a < b {
        a - b + 0x10000
    } else {
        a - b
    }
}

/// `a * b` in 16-bit arithmetic.
pub open spec fn mul16(a: int, b: int) -> int {
    (a * b) % 0x10000
}

/// Sixteen `u16` lanes.
#[allow(non_camel_case_types)]
#[derive(Clone, Copy, Debug)]
pub struct u16x16(pub [u16; 16]);

impl View for u16x16 {
    type V = Seq<u16>;

    open spec fn view(&self) -> Seq<u16> {
        self.0@
    }
}

impl u16x16 {
    /// Every lane set to `n`.
    pub fn splat(n: u16) -> (r: u16x16)
        ensures
            forall|i: int| 0 <= i < 16 ==> r@[i] == n,
    {
        u16x16([n; 16])
    }

    /// Lane-wise wrapping sum.
    pub fn add(&self, rhs: &u16x16) -> (r: u16x16)
        ensures
            forall|i: int| 0 <= i < 16 ==> r@[i] == add16(self@[i] as int, rhs@[i] as int),
    {
        let mut out = [0u16; 16];
        let mut i: usize = 0;
        while i < 16
            invariant
                0 <= i <= 16,
                forall|j: int| 0 <= j < i ==> out@[j] == add16(self@[j] as int, rhs@[j] as int),
            decreases 16 - i,
        {
            out[i] = self.0[i].wrapping_add(rhs.0[i]);
            i += 1;
        }
        u16x16(out)
    }

    /// Lane-wise wrapping difference.
    pub fn sub(&self, rhs: &u16x16) -> (r: u16x16)
        ensures
            forall|i: int| 0 <= i < 16 ==> r@[i] == sub16(self@[i] as int, rhs@[i] as int),
    {
        let mut out = [0u16; 16];
        let mut i: usize = 0;
        while i < 16
            invariant
                0 <= i <= 16,
                forall|j: int| 0 <= j < i ==> out@[j] == sub16(self@[j] as int, rhs@[j] as int),
            decreases 16 - i,
        {
            out[i] = self.0[i].wrapping_sub(rhs.0[i]);
            i += 1;
        }
        u16x16(out)
    }

    /// Lane-wise wrapping product.
    pub fn mul(&self, rhs: &u16x16) -> (r: u16x16)
        ensures
            forall|i: int| 0 <= i < 16 ==> r@[i] == mul16(self@[i] as int, rhs@[i] as int),
    {
        let mut out = [0u16; 16];
        let mut i: usize = 0;
        while i < 16
            invariant
                0 <= i <= 16,
                forall|j: int| 0 <= j < i ==> out@[j] == mul16(self@[j] as int, rhs@[j] as int),
            decreases 16 - i,
        {
            out[i] = self.0[i].wrapping_mul(rhs.0[i]);
            i += 1;
        }
        u16x16(out)
    }

    /// Lane-wise quotient by a divisor with no zero lane.
    pub fn div(&self, rhs: &u16x16) -> (r: u16x16)
        requires
            forall|i: int| 0 <= i < 16 ==> rhs@[i] != 0,
        ensures
            forall|i: int| 0 <= i < 16 ==> r@[i] == self@[i] / rhs@[i],
    {
        let mut out = [0u16; 16];
        let mut i: usize = 0;
        while i < 16
            invariant
                0 <= i <= 16,
                forall|j: int| 0 <= j < 16 ==> rhs@[j] != 0,
                forall|j: int| 0 <= j < i ==> out@[j] == self@[j] / rhs@[j],
            decreases 16 - i,
        {
            assert(rhs@[i as int] != 0);
            out[i] = self.0[i] / rhs.0[i];
            i += 1;
        }
        u16x16(out)
    }

    /// Lane-wise minimum.
    pub fn min(&self, rhs: &u16x16) -> (r: u16x16)
        ensures
            forall|i: int|
                0 <= i < 16 ==> r@[i] == if self@[i] <= rhs@[i] {
                    self@[i]
                } else {
                    rhs@[i]
                },
    {
        let mut out = [0u16; 16];
        let mut i: usize = 0;
        while i < 16
            invariant
                0 <= i <= 16,
                forall|j: int|
                    0 <= j < i ==> out@[j] == if self@[j] <= rhs@[j] {
                        self@[j]
                    } else {
                        rhs@[j]
                    },
            decreases 16 - i,
        {
            out[i] = if self.0[i] <= rhs.0[i] {
                self.0[i]
            } else {
                rhs.0[i]
            };
            i += 1;
        }
        u16x16(out)
    }

    /// Lane-wise maximum.
    pub fn max(&self, rhs: &u16x16) -> (r: u16x16)
        ensures
            forall|i: int|
                0 <= i < 16 ==> r@[i] == if self@[i] >= rhs@[i] {
                    self@[i]
                } else {
                    rhs@[i]
                },
    {
        let mut out = [0u16; 16];
        let mut i: usize = 0;
        while i < 16
            invariant
                0 <= i <= 16,
                forall|j: int|
                    0 <= j < i ==> out@[j] == if self@[j] >= rhs@[j] {
                        self@[j]
                    } else {
                        rhs@[j]
                    },
            decreases 16 - i,
        {
            out[i] = if self.0[i] >= rhs.0[i] {
                self.0[i]
            } else {
                rhs.0[i]
            };
            i += 1;
        }
        u16x16(out)
    }

    /// Lane-wise `<=`: a lane of all ones where it holds, zero elsewhere.
    pub fn cmp_le(&self, rhs: &u16x16) -> (r: u16x16)
        ensures
            forall|i: int|
                0 <= i < 16 ==> r@[i] == if self@[i] <= rhs@[i] {
                    0xFFFFu16
                } else {
                    0u16
                },
    {
        let mut out = [0u16; 16];
        let mut i: usize = 0;
        while i < 16
            invariant
                0 <= i <= 16,
                forall|j: int|
                    0 <= j < i ==> out@[j] == if self@[j] <= rhs@[j] {
                        0xFFFFu16
                    } else {
                        0u16
                    },
            decreases 16 - i,
        {
            out[i] = if self.0[i] <= rhs.0[i] {
                0xFFFF
            } else {
                0
            };
            i += 1;
        }
        u16x16(out)
    }

    /// Lane-wise select by a mask: `t` where the mask lane is set, `e` where
    /// it is zero.
    pub fn if_then_else(&self, t: &u16x16, e: &u16x16) -> (r: u16x16)
        ensures
            forall|i: int|
                0 <= i < 16 ==> r@[i] == if self@[i] != 0 {
                    t@[i]
                } else {
                    e@[i]
                },
    {
        let mut out = [0u16; 16];
        let mut i: usize = 0;
        while i < 16
            invariant
                0 <= i <= 16,
                forall|j: int|
                    0 <= j < i ==> out@[j] == if self@[j] != 0 {
                        t@[j]
                    } else {
                        e@[j]
                    },
            decreases 16 - i,
        {
            out[i] = if self.0[i] != 0 {
                t.0[i]
            } else {
                e.0[i]
            };
            i += 1;
        }
        u16x16(out)
    }
}

} // verus!
