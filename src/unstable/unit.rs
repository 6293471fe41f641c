use vstd::prelude::*;
use crate::call::{Call, CallMut, CallOnce};

verus! {

/// Wraps `f` so that its output is dropped and the unit value returned.
pub fn unit<F>(f: F) -> (r: Unit<F>)
    ensures
        r.f == f,
{
    Unit { f }
}

/// The callable that runs `f` on its arguments and returns `()`.
#[derive(Debug, Clone, Copy)]
pub struct Unit<F> {
    pub f: F,
}

impl<A, F> CallOnce<A> for Unit<F> where F: CallOnce<A> {
    type Output = ();

    open spec fn pre(&self, args: A) -> bool {
        self.f.pre(args)
    }

    /// `f` has some output on the arguments.
    open spec fn post(&self, args: A, out: ()) -> bool {
        exists|b: F::Output| #[trigger] self.f.post(args, b)
    }

    fn call_once(self, args: A) -> (r: ()) {
        let _ = self.f.call_once(args);
    }
}

impl<A, F> CallMut<A> for Unit<F> where F: CallMut<A> {
    fn call_mut(&mut self, args: A) -> (r: ()) {
        let _ = self.f.call_mut(args);
    }
}

impl<A, F> Call<A> for Unit<F> where F: Call<A> {
    fn call(&self, args: A) -> (r: ()) {
        let _ = self.f.call(args);
    }
}

} // verus!
