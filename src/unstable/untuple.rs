use vstd::prelude::*;
use crate::call::{Call, CallMut, CallOnce};

verus! {

/// Wraps `f`, which takes flat arguments, into a callable that takes them
/// all as one tuple argument.
pub fn untuple<F>(f: F) -> (r: Untuple<F>)
    ensures
        r.f == f,
{
    Untuple { f }
}

/// The callable that takes one tuple and calls `f` with its elements.
#[derive(Debug, Clone, Copy)]
pub struct Untuple<F> {
    pub f: F,
}

impl<A, F> CallOnce<(A,)> for Untuple<F> where F: CallOnce<A> {
    type Output = F::Output;

    open spec fn pre(&self, args: (A,)) -> bool {
        self.f.pre(args.0)
    }

    open spec fn post(&self, args: (A,), out: F::Output) -> bool {
        self.f.post(args.0, out)
    }

    fn call_once(self, args: (A,)) -> (r: F::Output) {
        self.f.call_once(args.0)
    }
}

impl<A, F> CallMut<(A,)> for Untuple<F> where F: CallMut<A> {
    fn call_mut(&mut self, args: (A,)) -> (r: F::Output) {
        self.f.call_mut(args.0)
    }
}

impl<A, F> Call<(A,)> for Untuple<F> where F: Call<A> {
    fn call(&self, args: (A,)) -> (r: F::Output) {
        self.f.call(args.0)
    }
}

} // verus!
