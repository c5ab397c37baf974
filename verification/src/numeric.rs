//! The numeric capability bound for the element type of a [`crate::Blob`].
//!
//! A `Blob` never performs arithmetic itself; the bound exists so that the
//! numeric-operation code consuming a `Blob` can rely on a zero value,
//! addition and multiplication, and plain value (copy) semantics. Addition
//! and multiplication are provided with wrapping semantics so that they are
//! total over the whole type.

use vstd::prelude::*;

verus! {

/// The capability set a `Blob` element type must support: a zero value,
/// addition, multiplication, and copy semantics. The container itself never
/// calls these operations; they are for the numeric code built on top of it.
pub trait Numeric: Copy + Sized {
    /// The additive identity of the type.
    fn zero() -> Self;

    /// Addition, wrapping around on overflow.
    fn plus(self, other: Self) -> Self;

    /// Multiplication, wrapping around on overflow.
    fn times(self, other: Self) -> Self;
}

impl Numeric for i8 {
    fn zero() -> Self {
        0
    }

    fn plus(self, other: Self) -> Self {
        self.wrapping_add(other)
    }

    fn times(self, other: Self) -> Self {
        self.wrapping_mul(other)
    }
}

impl Numeric for i16 {
    fn zero() -> Self {
        0
    }

    fn plus(self, other: Self) -> Self {
        self.wrapping_add(other)
    }

    fn times(self, other: Self) -> Self {
        self.wrapping_mul(other)
    }
}

impl Numeric for i32 {
    fn zero() -> Self {
        0
    }

    fn plus(self, other: Self) -> Self {
        self.wrapping_add(other)
    }

    fn times(self, other: Self) -> Self {
        self.wrapping_mul(other)
    }
}

impl Numeric for i64 {
    fn zero() -> Self {
        0
    }

    fn plus(self, other: Self) -> Self {
        self.wrapping_add(other)
    }

    fn times(self, other: Self) -> Self {
        self.wrapping_mul(other)
    }
}

impl Numeric for isize {
    fn zero() -> Self {
        0
    }

    fn plus(self, other: Self) -> Self {
        self.wrapping_add(other)
    }

    fn times(self, other: Self) -> Self {
        self.wrapping_mul(other)
    }
}

impl Numeric for u8 {
    fn zero() -> Self {
        0
    }

    fn plus(self, other: Self) -> Self {
        self.wrapping_add(other)
    }

    fn times(self, other: Self) -> Self {
        self.wrapping_mul(other)
    }
}

impl Numeric for u16 {
    fn zero() -> Self {
        0
    }

    fn plus(self, other: Self) -> Self {
        self.wrapping_add(other)
    }

    fn times(self, other: Self) -> Self {
        self.wrapping_mul(other)
    }
}

impl Numeric for u32 {
    fn zero() -> Self {
        0
    }

    fn plus(self, other: Self) -> Self {
        self.wrapping_add(other)
    }

    fn times(self, other: Self) -> Self {
        self.wrapping_mul(other)
    }
}

impl Numeric for u64 {
    fn zero() -> Self {
        0
    }

    fn plus(self, other: Self) -> Self {
        self.wrapping_add(other)
    }

    fn times(self, other: Self) -> Self {
        self.wrapping_mul(other)
    }
}

impl Numeric for usize {
    fn zero() -> Self {
        0
    }

    fn plus(self, other: Self) -> Self {
        self.wrapping_add(other)
    }

    fn times(self, other: Self) -> Self {
        self.wrapping_mul(other)
    }
}

} // verus!
