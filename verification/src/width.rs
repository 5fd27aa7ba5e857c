//! The widths that an identifier can have.
//!
//! A symbol carries six bits, so eleven symbols are the most that a 64-bit
//! value can fill. The bound `Width: Supported<N>` holds for the widths from
//! 0 to [`MAX_WIDTH`] and for no other, which lets the compiler turn down a
//! width that would ask for bits beyond the 64th.

use vstd::prelude::*;

verus! {

/// The largest width that an identifier can have: eleven symbols hold 66
/// bits, enough for a whole `u64`.
pub const MAX_WIDTH: usize = 11;

/// Carries the [`Supported`] bound.
pub struct Width;

/// `Width: Supported<N>` says that identifiers of `N` symbols exist.
pub trait Supported<const N: usize> {
    /// A supported width is at most [`MAX_WIDTH`].
    proof fn lemma_width_in_range()
        ensures
            N <= MAX_WIDTH,
    ;
}

impl Supported<0> for Width {
    proof fn lemma_width_in_range() {
    }
}

impl Supported<1> for Width {
    proof fn lemma_width_in_range() {
    }
}

impl Supported<2> for Width {
    proof fn lemma_width_in_range() {
    }
}

impl Supported<3> for Width {
    proof fn lemma_width_in_range() {
    }
}

impl Supported<4> for Width {
    proof fn lemma_width_in_range() {
    }
}

impl Supported<5> for Width {
    proof fn lemma_width_in_range() {
    }
}

impl Supported<6> for Width {
    proof fn lemma_width_in_range() {
    }
}

impl Supported<7> for Width {
    proof fn lemma_width_in_range() {
    }
}

impl Supported<8> for Width {
    proof fn lemma_width_in_range() {
    }
}

impl Supported<9> for Width {
    proof fn lemma_width_in_range() {
    }
}

impl Supported<10> for Width {
    proof fn lemma_width_in_range() {
    }
}

impl Supported<11> for Width {
    proof fn lemma_width_in_range() {
    }
}

} // verus!
