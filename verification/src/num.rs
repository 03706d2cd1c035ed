//! Rounding sizes up to an alignment boundary.

use vstd::prelude::*;

verus! {

/// The smallest multiple of `a` that is at least `n`.
pub open spec fn spec_aligned(n: int, a: int) -> int {
    (n / a + (if n % a > 0 {
        1int
    } else {
        0int
    })) * a
}

/// Rounding up to a positive alignment never goes below the value, and
/// adds less than one alignment unit.
pub proof fn lemma_aligned_bounds(n: int, a: int)
    by (nonlinear_arith)
    requires
        n >= 0,
        a > 0,
    ensures
        n <= spec_aligned(n, a) < n + a,
        spec_aligned(n, a) % a == 0,
{
}

/// Alignment arithmetic on the unsigned integer types.
pub trait NumExt: Sized + Copy {
    /// The value as an integer.
    spec fn as_int(self) -> int;

    /// The largest value of the type.
    spec fn max_int() -> int;

    /// The smallest multiple of `align` that is at least `self`.
    fn aligned(self, align: Self) -> (r: Self)
        requires
            align.as_int() > 0,
            self.as_int() >= 0,
            spec_aligned(self.as_int(), align.as_int()) <= Self::max_int(),
        ensures
            r.as_int() == spec_aligned(self.as_int(), align.as_int()),
    ;

    /// How much `aligned` adds: `self.aligned(align) - self`.
    fn padding(self, align: Self) -> (r: Self)
        requires
            align.as_int() > 0,
            self.as_int() >= 0,
            spec_aligned(self.as_int(), align.as_int()) <= Self::max_int(),
        ensures
            r.as_int() == spec_aligned(self.as_int(), align.as_int()) - self.as_int(),
    ;
}

impl NumExt for u32 {
    open spec fn as_int(self) -> int {
        self as int
    }

    open spec fn max_int() -> int {
        0xFFFFFFFF
    }

    fn aligned(self, align: Self) -> (r: Self) {
        proof {
            lemma_aligned_bounds(self as int, align as int);
            assert((self as int / align as int + (if self as int % align as int > 0 {
                1int
            } else {
                0int
            })) <= spec_aligned(self as int, align as int)) by (nonlinear_arith)
                requires
                    align as int > 0,
            ;
        }
        (self / align + (if self % align > 0 {
            1
        } else {
            0
        })) * align
    }

    fn padding(self, align: Self) -> (r: Self) {
        proof {
            lemma_aligned_bounds(self as int, align as int);
        }
        self.aligned(align) - self
    }
}

impl NumExt for u64 {
    open spec fn as_int(self) -> int {
        self as int
    }

    open spec fn max_int() -> int {
        0xFFFFFFFFFFFFFFFF
    }

    fn aligned(self, align: Self) -> (r: Self) {
        proof {
            lemma_aligned_bounds(self as int, align as int);
            assert((self as int / align as int + (if self as int % align as int > 0 {
                1int
            } else {
                0int
            })) <= spec_aligned(self as int, align as int)) by (nonlinear_arith)
                requires
                    align as int > 0,
            ;
        }
        (self / align + (if self % align > 0 {
            1
        } else {
            0
        })) * align
    }

    fn padding(self, align: Self) -> (r: Self) {
        proof {
            lemma_aligned_bounds(self as int, align as int);
        }
        self.aligned(align) - self
    }
}

impl NumExt for usize {
    open spec fn as_int(self) -> int {
        self as int
    }

    open spec fn max_int() -> int {
        usize::MAX as int
    }

    fn aligned(self, align: Self) -> (r: Self) {
        proof {
            lemma_aligned_bounds(self as int, align as int);
            assert((self as int / align as int + (if self as int % align as int > 0 {
                1int
            } else {
                0int
            })) <= spec_aligned(self as int, align as int)) by (nonlinear_arith)
                requires
                    align as int > 0,
            ;
        }
        (self / align + (if self % align > 0 {
            1
        } else {
            0
        })) * align
    }

    fn padding(self, align: Self) -> (r: Self) {
        proof {
            lemma_aligned_bounds(self as int, align as int);
        }
        self.aligned(align) - self
    }
}

} // verus!
