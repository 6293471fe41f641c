use vstd::prelude::*;
use std::marker::PhantomData;
use crate::call::{Call, CallMut, CallOnce};
use crate::tuple::TupleTake;

verus! {

/// Fixes the first argument of `f`.
///
/// The result takes the remaining arguments. Supplying repeatedly binds the
/// arguments from left to right in the order of the calls.
pub fn supply<F, Args>(f: F, argument: Args::Take) -> (r: Supply<Args::Take, F, Args>)
    where
        F: CallOnce<Args>,
        Args: TupleTake,
    ensures
        r.argument == argument,
        r.f == f,
{
    Supply { argument, f, args: PhantomData }
}

/// The callable `f` with its first argument fixed to `argument`.
#[derive(Debug)]
pub struct Supply<T, F, Args> {
    pub argument: T,
    pub f: F,
    pub args: PhantomData<Args>,
}

impl<F, Args> CallOnce<Args::Rest> for Supply<Args::Take, F, Args>
    where
        F: CallOnce<Args>,
        Args: TupleTake,
{
    type Output = F::Output;

    open spec fn pre(&self, rest: Args::Rest) -> bool {
        self.f.pre(Args::joined(self.argument, rest))
    }

    open spec fn post(&self, rest: Args::Rest, out: F::Output) -> bool {
        self.f.post(Args::joined(self.argument, rest), out)
    }

    fn call_once(self, rest: Args::Rest) -> (r: F::Output) {
        self.f.call_once(Args::join(self.argument, rest))
    }
}

impl<F, Args> CallMut<Args::Rest> for Supply<Args::Take, F, Args>
    where
        F: CallMut<Args>,
        Args: TupleTake,
        Args::Take: Copy,
{
    fn call_mut(&mut self, rest: Args::Rest) -> (r: F::Output) {
        let argument = self.argument;
        self.f.call_mut(Args::join(argument, rest))
    }
}

impl<F, Args> Call<Args::Rest> for Supply<Args::Take, F, Args>
    where
        F: Call<Args>,
        Args: TupleTake,
        Args::Take: Copy,
{
    fn call(&self, rest: Args::Rest) -> (r: F::Output) {
        self.f.call(Args::join(self.argument, rest))
    }
}

} // verus!
