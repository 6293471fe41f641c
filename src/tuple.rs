use vstd::prelude::*;

verus! {

/// Largest arity for which the tuple operations and the callable impls of
/// this crate exist.
pub const MAX_ARITY: usize = 4;

/// An argument tuple: a fixed-length list of values, one per parameter.
pub trait ArgTuple {
    /// Number of elements.
    spec fn arity() -> nat;
}

/// Conversion of a callable's output into the argument tuple `T` that the
/// next callable expects.
///
/// Any value becomes a 1-tuple of itself; the unit value becomes the empty
/// tuple; a tuple of two or more elements is taken as it is, element by
/// element.
pub trait AutoTuple<T>: Sized {
    spec fn tupled(self) -> T;

    fn auto_tuple(self) -> (r: T)
        ensures
            r == self.tupled(),
    ;
}

/// Reversal of an argument tuple.
pub trait FlipTuple: Sized {
    type Flipped;

    spec fn flipped(self) -> Self::Flipped;

    fn flip(self) -> (r: Self::Flipped)
        ensures
            r == self.flipped(),
    ;
}

/// An argument tuple whose reversal reverses back to it.
pub trait FlipInvolutive: FlipTuple where Self::Flipped: FlipTuple<Flipped = Self> {
    /// Reversing twice gives the tuple back.
    proof fn lemma_flip_flip(self)
        ensures
            self.flipped().flipped() == self,
    ;
}

/// Splitting an argument tuple of one or more elements into its first element
/// and the tuple of the others, and joining them back.
pub trait TupleTake: ArgTuple + Sized {
    type Take;

    type Rest: ArgTuple;

    spec fn taken(self) -> (Self::Take, Self::Rest);

    spec fn joined(head: Self::Take, rest: Self::Rest) -> Self;

    fn take(self) -> (r: (Self::Take, Self::Rest))
        ensures
            r == self.taken(),
    ;

    fn join(head: Self::Take, rest: Self::Rest) -> (r: Self)
        ensures
            r == Self::joined(head, rest),
    ;

    /// Joining a head and a rest and splitting the result gives them back.
    proof fn lemma_take_join(head: Self::Take, rest: Self::Rest)
        ensures
            Self::joined(head, rest).taken() == (head, rest),
    ;

    /// The rest has one element less than the tuple.
    proof fn lemma_rest_arity()
        ensures
            Self::Rest::arity() + 1 == Self::arity(),
    ;
}

impl AutoTuple<()> for () {
    open spec fn tupled(self) -> () {
        ()
    }

    fn auto_tuple(self) -> (r: ()) {
        ()
    }
}

impl<T> AutoTuple<(T,)> for T {
    open spec fn tupled(self) -> (T,) {
        (self,)
    }

    fn auto_tuple(self) -> (r: (T,)) {
        (self,)
    }
}

impl ArgTuple for () {
    open spec fn arity() -> nat {
        0
    }
}

impl<A> ArgTuple for (A,) {
    open spec fn arity() -> nat {
        1
    }
}

impl<A, B> ArgTuple for (A, B) {
    open spec fn arity() -> nat {
        2
    }
}

impl<A, B, C> ArgTuple for (A, B, C) {
    open spec fn arity() -> nat {
        3
    }
}

impl<A, B, C, D> ArgTuple for (A, B, C, D) {
    open spec fn arity() -> nat {
        4
    }
}

impl<A, B> AutoTuple<(A, B)> for (A, B) {
    open spec fn tupled(self) -> (A, B) {
        self
    }

    fn auto_tuple(self) -> (r: (A, B)) {
        self
    }
}

impl<A, B, C> AutoTuple<(A, B, C)> for (A, B, C) {
    open spec fn tupled(self) -> (A, B, C) {
        self
    }

    fn auto_tuple(self) -> (r: (A, B, C)) {
        self
    }
}

impl<A, B, C, D> AutoTuple<(A, B, C, D)> for (A, B, C, D) {
    open spec fn tupled(self) -> (A, B, C, D) {
        self
    }

    fn auto_tuple(self) -> (r: (A, B, C, D)) {
        self
    }
}

impl FlipTuple for () {
    type Flipped = ();

    open spec fn flipped(self) -> () {
        ()
    }

    fn flip(self) -> (r: ()) {
        ()
    }
}

impl FlipInvolutive for () {
    proof fn lemma_flip_flip(self) {
    }
}

impl<A> FlipTuple for (A,) {
    type Flipped = (A,);

    open spec fn flipped(self) -> (A,) {
        (self.0,)
    }

    fn flip(self) -> (r: (A,)) {
        (self.0,)
    }
}

impl<A> FlipInvolutive for (A,) {
    proof fn lemma_flip_flip(self) {
    }
}

impl<A, B> FlipTuple for (A, B) {
    type Flipped = (B, A);

    open spec fn flipped(self) -> (B, A) {
        (self.1, self.0)
    }

    fn flip(self) -> (r: (B, A)) {
        (self.1, self.0)
    }
}

impl<A, B> FlipInvolutive for (A, B) {
    proof fn lemma_flip_flip(self) {
    }
}

impl<A, B, C> FlipTuple for (A, B, C) {
    type Flipped = (C, B, A);

    open spec fn flipped(self) -> (C, B, A) {
        (self.2, self.1, self.0)
    }

    fn flip(self) -> (r: (C, B, A)) {
        (self.2, self.1, self.0)
    }
}

impl<A, B, C> FlipInvolutive for (A, B, C) {
    proof fn lemma_flip_flip(self) {
    }
}

impl<A, B, C, D> FlipTuple for (A, B, C, D) {
    type Flipped = (D, C, B, A);

    open spec fn flipped(self) -> (D, C, B, A) {
        (self.3, self.2, self.1, self.0)
    }

    fn flip(self) -> (r: (D, C, B, A)) {
        (self.3, self.2, self.1, self.0)
    }
}

impl<A, B, C, D> FlipInvolutive for (A, B, C, D) {
    proof fn lemma_flip_flip(self) {
    }
}

impl<A> TupleTake for (A,) {
    type Take = A;

    type Rest = ();

    open spec fn taken(self) -> (A, ()) {
        (self.0, ())
    }

    open spec fn joined(head: A, rest: ()) -> (A,) {
        (head,)
    }

    fn take(self) -> (r: (A, ())) {
        (self.0, ())
    }

    fn join(head: A, rest: ()) -> (r: (A,)) {
        (head,)
    }

    proof fn lemma_take_join(head: A, rest: ()) {
    }

    proof fn lemma_rest_arity() {
    }
}

impl<A, B> TupleTake for (A, B) {
    type Take = A;

    type Rest = (B,);

    open spec fn taken(self) -> (A, (B,)) {
        (self.0, (self.1,))
    }

    open spec fn joined(head: A, rest: (B,)) -> (A, B) {
        (head, rest.0)
    }

    fn take(self) -> (r: (A, (B,))) {
        (self.0, (self.1,))
    }

    fn join(head: A, rest: (B,)) -> (r: (A, B)) {
        (head, rest.0)
    }

    proof fn lemma_take_join(head: A, rest: (B,)) {
    }

    proof fn lemma_rest_arity() {
    }
}

impl<A, B, C> TupleTake for (A, B, C) {
    type Take = A;

    type Rest = (B, C);

    open spec fn taken(self) -> (A, (B, C)) {
        (self.0, (self.1, self.2))
    }

    open spec fn joined(head: A, rest: (B, C)) -> (A, B, C) {
        (head, rest.0, rest.1)
    }

    fn take(self) -> (r: (A, (B, C))) {
        (self.0, (self.1, self.2))
    }

    fn join(head: A, rest: (B, C)) -> (r: (A, B, C)) {
        (head, rest.0, rest.1)
    }

    proof fn lemma_take_join(head: A, rest: (B, C)) {
    }

    proof fn lemma_rest_arity() {
    }
}

impl<A, B, C, D> TupleTake for (A, B, C, D) {
    type Take = A;

    type Rest = (B, C, D);

    open spec fn taken(self) -> (A, (B, C, D)) {
        (self.0, (self.1, self.2, self.3))
    }

    open spec fn joined(head: A, rest: (B, C, D)) -> (A, B, C, D) {
        (head, rest.0, rest.1, rest.2)
    }

    fn take(self) -> (r: (A, (B, C, D))) {
        (self.0, (self.1, self.2, self.3))
    }

    fn join(head: A, rest: (B, C, D)) -> (r: (A, B, C, D)) {
        (head, rest.0, rest.1, rest.2)
    }

    proof fn lemma_take_join(head: A, rest: (B, C, D)) {
    }

    proof fn lemma_rest_arity() {
    }
}

} // verus!
