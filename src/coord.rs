use vstd::prelude::*;

verus! {

/// A scalar coordinate type whose values are mathematical integers.
pub trait Coord: Copy + Sized {
    /// The integer that this value stands for.
    spec fn val(self) -> int;

    /// Whether `v` can be held by this type.
    spec fn fits(v: int) -> bool;

    /// Distinct values stand for distinct integers.
    proof fn lemma_val_injective(a: Self, b: Self)
        requires
            a.val() == b.val(),
        ensures
            a == b,
    ;

    /// Sum of two coordinates.
    fn plus(self, o: Self) -> (r: Self)
        requires
            Self::fits(self.val() + o.val()),
        ensures
            r.val() == self.val() + o.val(),
    ;

    /// Difference of two coordinates.
    fn minus(self, o: Self) -> (r: Self)
        requires
            Self::fits(self.val() - o.val()),
        ensures
            r.val() == self.val() - o.val(),
    ;

    /// Whether `self` is at most `o`.
    fn le(&self, o: &Self) -> (r: bool)
        ensures
            r == (self.val() <= o.val()),
    ;
}

impl Coord for i32 {
    open spec fn val(self) -> int {
        self as int
    }

    open spec fn fits(v: int) -> bool {
        i32::MIN <= v <= i32::MAX
    }

    proof fn lemma_val_injective(a: Self, b: Self) {
    }

    fn plus(self, o: Self) -> (r: Self) {
        self + o
    }

    fn minus(self, o: Self) -> (r: Self) {
        self - o
    }

    fn le(&self, o: &Self) -> (r: bool) {
        *self <= *o
    }
}

impl Coord for i64 {
    open spec fn val(self) -> int {
        self as int
    }

    open spec fn fits(v: int) -> bool {
        i64::MIN <= v <= i64::MAX
    }

    proof fn lemma_val_injective(a: Self, b: Self) {
    }

    fn plus(self, o: Self) -> (r: Self) {
        self + o
    }

    fn minus(self, o: Self) -> (r: Self) {
        self - o
    }

    fn le(&self, o: &Self) -> (r: bool) {
        *self <= *o
    }
}

impl Coord for u32 {
    open spec fn val(self) -> int {
        self as int
    }

    open spec fn fits(v: int) -> bool {
        u32::MIN <= v <= u32::MAX
    }

    proof fn lemma_val_injective(a: Self, b: Self) {
    }

    fn plus(self, o: Self) -> (r: Self) {
        self + o
    }

    fn minus(self, o: Self) -> (r: Self) {
        self - o
    }

    fn le(&self, o: &Self) -> (r: bool) {
        *self <= *o
    }
}

impl Coord for u64 {
    open spec fn val(self) -> int {
        self as int
    }

    open spec fn fits(v: int) -> bool {
        u64::MIN <= v <= u64::MAX
    }

    proof fn lemma_val_injective(a: Self, b: Self) {
    }

    fn plus(self, o: Self) -> (r: Self) {
        self + o
    }

    fn minus(self, o: Self) -> (r: Self) {
        self - o
    }

    fn le(&self, o: &Self) -> (r: bool) {
        *self <= *o
    }
}

} // verus!
