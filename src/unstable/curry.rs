use vstd::prelude::*;
use std::marker::PhantomData;
use crate::call::CallOnce;

verus! {

/// Curries `f`: the result takes the arguments of `f` one call at a time.
///
/// Each call with one argument appends it to the arguments gathered so far.
/// The call that completes them invokes `f` and returns its output; every
/// earlier call returns a new pending [`Curry`]. Currying a callable of no
/// arguments gives a value that, called with no arguments, calls `f`.
pub fn curry<F, Args>(f: F) -> (r: Curry<(), F, Args>)
    where
        F: CallOnce<Args>,
    ensures
        r.acc == (),
        r.f == f,
{
    Curry { acc: (), f, args: PhantomData }
}

/// A curried callable that has gathered the arguments `acc` of the
/// argument tuple `Args` of `f`.
#[derive(Debug)]
pub struct Curry<Acc, F, Args> {
    pub acc: Acc,
    pub f: F,
    pub args: PhantomData<Args>,
}

impl<Acc: Clone, F: Clone, Args> Clone for Curry<Acc, F, Args> {
    fn clone(&self) -> (r: Self) {
        Curry { acc: self.acc.clone(), f: self.f.clone(), args: PhantomData }
    }
}

impl<Acc: Copy, F: Copy, Args> Copy for Curry<Acc, F, Args> {

}

impl<F> CallOnce<()> for Curry<(), F, ()> where F: CallOnce<()> {
    type Output = F::Output;

    open spec fn pre(&self, args: ()) -> bool {
        self.f.pre(())
    }

    open spec fn post(&self, args: (), out: F::Output) -> bool {
        self.f.post((), out)
    }

    fn call_once(self, args: ()) -> (r: F::Output) {
        self.f.call_once(())
    }
}

impl<F, A> CallOnce<(A,)> for Curry<(), F, (A,)> where F: CallOnce<(A,)> {
    type Output = F::Output;

    open spec fn pre(&self, args: (A,)) -> bool {
        self.f.pre((args.0,))
    }

    open spec fn post(&self, args: (A,), out: F::Output) -> bool {
        self.f.post((args.0,), out)
    }

    fn call_once(self, args: (A,)) -> (r: F::Output) {
        self.f.call_once((args.0,))
    }
}

impl<F, A, B> CallOnce<(A,)> for Curry<(), F, (A, B)> {
    type Output = Curry<(A,), F, (A, B)>;

    open spec fn pre(&self, args: (A,)) -> bool {
        true
    }

    open spec fn post(&self, args: (A,), out: Self::Output) -> bool {
        out == (Curry { acc: (args.0,), f: self.f, args: PhantomData::<(A, B)> })
    }

    fn call_once(self, args: (A,)) -> (r: Self::Output) {
        Curry { acc: (args.0,), f: self.f, args: PhantomData }
    }
}

impl<F, A, B> CallOnce<(B,)> for Curry<(A,), F, (A, B)> where F: CallOnce<(A, B)> {
    type Output = F::Output;

    open spec fn pre(&self, args: (B,)) -> bool {
        self.f.pre((self.acc.0, args.0))
    }

    open spec fn post(&self, args: (B,), out: F::Output) -> bool {
        self.f.post((self.acc.0, args.0), out)
    }

    fn call_once(self, args: (B,)) -> (r: F::Output) {
        self.f.call_once((self.acc.0, args.0))
    }
}

impl<F, A, B, C> CallOnce<(A,)> for Curry<(), F, (A, B, C)> {
    type Output = Curry<(A,), F, (A, B, C)>;

    open spec fn pre(&self, args: (A,)) -> bool {
        true
    }

    open spec fn post(&self, args: (A,), out: Self::Output) -> bool {
        out == (Curry { acc: (args.0,), f: self.f, args: PhantomData::<(A, B, C)> })
    }

    fn call_once(self, args: (A,)) -> (r: Self::Output) {
        Curry { acc: (args.0,), f: self.f, args: PhantomData }
    }
}

impl<F, A, B, C> CallOnce<(B,)> for Curry<(A,), F, (A, B, C)> {
    type Output = Curry<(A, B), F, (A, B, C)>;

    open spec fn pre(&self, args: (B,)) -> bool {
        true
    }

    open spec fn post(&self, args: (B,), out: Self::Output) -> bool {
        out == (Curry { acc: (self.acc.0, args.0), f: self.f, args: PhantomData::<(A, B, C)> })
    }

    fn call_once(self, args: (B,)) -> (r: Self::Output) {
        Curry { acc: (self.acc.0, args.0), f: self.f, args: PhantomData }
    }
}

impl<F, A, B, C> CallOnce<(C,)> for Curry<(A, B), F, (A, B, C)> where F: CallOnce<(A, B, C)> {
    type Output = F::Output;

    open spec fn pre(&self, args: (C,)) -> bool {
        self.f.pre((self.acc.0, self.acc.1, args.0))
    }

    open spec fn post(&self, args: (C,), out: F::Output) -> bool {
        self.f.post((self.acc.0, self.acc.1, args.0), out)
    }

    fn call_once(self, args: (C,)) -> (r: F::Output) {
        self.f.call_once((self.acc.0, self.acc.1, args.0))
    }
}

impl<F, A, B, C, D> CallOnce<(A,)> for Curry<(), F, (A, B, C, D)> {
    type Output = Curry<(A,), F, (A, B, C, D)>;

    open spec fn pre(&self, args: (A,)) -> bool {
        true
    }

    open spec fn post(&self, args: (A,), out: Self::Output) -> bool {
        out == (Curry { acc: (args.0,), f: self.f, args: PhantomData::<(A, B, C, D)> })
    }

    fn call_once(self, args: (A,)) -> (r: Self::Output) {
        Curry { acc: (args.0,), f: self.f, args: PhantomData }
    }
}

impl<F, A, B, C, D> CallOnce<(B,)> for Curry<(A,), F, (A, B, C, D)> {
    type Output = Curry<(A, B), F, (A, B, C, D)>;

    open spec fn pre(&self, args: (B,)) -> bool {
        true
    }

    open spec fn post(&self, args: (B,), out: Self::Output) -> bool {
        out == (Curry { acc: (self.acc.0, args.0), f: self.f, args: PhantomData::<(A, B, C, D)> })
    }

    fn call_once(self, args: (B,)) -> (r: Self::Output) {
        Curry { acc: (self.acc.0, args.0), f: self.f, args: PhantomData }
    }
}

impl<F, A, B, C, D> CallOnce<(C,)> for Curry<(A, B), F, (A, B, C, D)> {
    type Output = Curry<(A, B, C), F, (A, B, C, D)>;

    open spec fn pre(&self, args: (C,)) -> bool {
        true
    }

    open spec fn post(&self, args: (C,), out: Self::Output) -> bool {
        out == (Curry { acc: (self.acc.0, self.acc.1, args.0), f: self.f, args: PhantomData::<(A, B, C, D)> })
    }

    fn call_once(self, args: (C,)) -> (r: Self::Output) {
        Curry { acc: (self.acc.0, self.acc.1, args.0), f: self.f, args: PhantomData }
    }
}

impl<F, A, B, C, D> CallOnce<(D,)> for Curry<(A, B, C), F, (A, B, C, D)> where F: CallOnce<(A, B, C, D)> {
    type Output = F::Output;

    open spec fn pre(&self, args: (D,)) -> bool {
        self.f.pre((self.acc.0, self.acc.1, self.acc.2, args.0))
    }

    open spec fn post(&self, args: (D,), out: F::Output) -> bool {
        self.f.post((self.acc.0, self.acc.1, self.acc.2, args.0), out)
    }

    fn call_once(self, args: (D,)) -> (r: F::Output) {
        self.f.call_once((self.acc.0, self.acc.1, self.acc.2, args.0))
    }
}

} // verus!
