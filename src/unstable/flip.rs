use vstd::prelude::*;
use crate::call::{Call, CallMut, CallOnce};
use crate::tuple::FlipTuple;

verus! {

/// Reverses the order of the arguments of `f`.
pub fn flip<F>(f: F) -> (r: Flip<F>)
    ensures
        r.f == f,
{
    Flip { f }
}

/// The callable that takes the arguments of `f` in reverse order.
#[derive(Debug, Clone, Copy)]
pub struct Flip<F> {
    pub f: F,
}

impl<A, F> CallOnce<A> for Flip<F> where A: FlipTuple, F: CallOnce<A::Flipped> {
    type Output = F::Output;

    open spec fn pre(&self, args: A) -> bool {
        self.f.pre(args.flipped())
    }

    open spec fn post(&self, args: A, out: F::Output) -> bool {
        self.f.post(args.flipped(), out)
    }

    fn call_once(self, args: A) -> (r: F::Output) {
        self.f.call_once(args.flip())
    }
}

impl<A, F> CallMut<A> for Flip<F> where A: FlipTuple, F: CallMut<A::Flipped> {
    fn call_mut(&mut self, args: A) -> (r: F::Output) {
        self.f.call_mut(args.flip())
    }
}

impl<A, F> Call<A> for Flip<F> where A: FlipTuple, F: Call<A::Flipped> {
    fn call(&self, args: A) -> (r: F::Output) {
        self.f.call(args.flip())
    }
}

} // verus!
