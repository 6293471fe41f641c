use vstd::prelude::*;

verus! {

/// A value that can be invoked once with the argument tuple `Args`.
///
/// `pre` says on which argument tuples a call is allowed and `post` which
/// outputs a call may produce. Every closure of arity up to four is such a
/// value, and so is every combinator of this crate whose parts are.
pub trait CallOnce<Args>: Sized {
    type Output;

    spec fn pre(&self, args: Args) -> bool;

    spec fn post(&self, args: Args, out: Self::Output) -> bool;

    /// Invokes the value, consuming it.
    fn call_once(self, args: Args) -> (r: Self::Output)
        requires
            self.pre(args),
        ensures
            self.post(args, r),
    ;
}

/// A value that can be invoked repeatedly and may change its own state
/// between calls.
pub trait CallMut<Args>: CallOnce<Args> {
    /// Invokes the value through a mutable borrow.
    fn call_mut(&mut self, args: Args) -> (r: Self::Output)
        requires
            old(self).pre(args),
        ensures
            old(self).post(args, r),
    ;
}

/// A value that can be invoked repeatedly without changing.
pub trait Call<Args>: CallMut<Args> {
    /// Invokes the value through a shared borrow.
    fn call(&self, args: Args) -> (r: Self::Output)
        requires
            self.pre(args),
        ensures
            self.post(args, r),
    ;
}

impl<R, Fun: FnOnce() -> R> CallOnce<()> for Fun {
    type Output = R;

    open spec fn pre(&self, args: ()) -> bool {
        call_requires(*self, args)
    }

    open spec fn post(&self, args: (), out: R) -> bool {
        call_ensures(*self, args, out)
    }

    fn call_once(self, args: ()) -> (r: R) {
        self()
    }
}

impl<R, Fun: FnMut() -> R> CallMut<()> for Fun {
    fn call_mut(&mut self, args: ()) -> (r: R) {
        (self)()
    }
}

impl<R, Fun: Fn() -> R> Call<()> for Fun {
    fn call(&self, args: ()) -> (r: R) {
        (self)()
    }
}

impl<A, R, Fun: FnOnce(A) -> R> CallOnce<(A,)> for Fun {
    type Output = R;

    open spec fn pre(&self, args: (A,)) -> bool {
        call_requires(*self, args)
    }

    open spec fn post(&self, args: (A,), out: R) -> bool {
        call_ensures(*self, args, out)
    }

    fn call_once(self, args: (A,)) -> (r: R) {
        self(args.0)
    }
}

impl<A, R, Fun: FnMut(A) -> R> CallMut<(A,)> for Fun {
    fn call_mut(&mut self, args: (A,)) -> (r: R) {
        (self)(args.0)
    }
}

impl<A, R, Fun: Fn(A) -> R> Call<(A,)> for Fun {
    fn call(&self, args: (A,)) -> (r: R) {
        (self)(args.0)
    }
}

impl<A, B, R, Fun: FnOnce(A, B) -> R> CallOnce<(A, B)> for Fun {
    type Output = R;

    open spec fn pre(&self, args: (A, B)) -> bool {
        call_requires(*self, args)
    }

    open spec fn post(&self, args: (A, B), out: R) -> bool {
        call_ensures(*self, args, out)
    }

    fn call_once(self, args: (A, B)) -> (r: R) {
        self(args.0, args.1)
    }
}

impl<A, B, R, Fun: FnMut(A, B) -> R> CallMut<(A, B)> for Fun {
    fn call_mut(&mut self, args: (A, B)) -> (r: R) {
        (self)(args.0, args.1)
    }
}

impl<A, B, R, Fun: Fn(A, B) -> R> Call<(A, B)> for Fun {
    fn call(&self, args: (A, B)) -> (r: R) {
        (self)(args.0, args.1)
    }
}

impl<A, B, C, R, Fun: FnOnce(A, B, C) -> R> CallOnce<(A, B, C)> for Fun {
    type Output = R;

    open spec fn pre(&self, args: (A, B, C)) -> bool {
        call_requires(*self, args)
    }

    open spec fn post(&self, args: (A, B, C), out: R) -> bool {
        call_ensures(*self, args, out)
    }

    fn call_once(self, args: (A, B, C)) -> (r: R) {
        self(args.0, args.1, args.2)
    }
}

impl<A, B, C, R, Fun: FnMut(A, B, C) -> R> CallMut<(A, B, C)> for Fun {
    fn call_mut(&mut self, args: (A, B, C)) -> (r: R) {
        (self)(args.0, args.1, args.2)
    }
}

impl<A, B, C, R, Fun: Fn(A, B, C) -> R> Call<(A, B, C)> for Fun {
    fn call(&self, args: (A, B, C)) -> (r: R) {
        (self)(args.0, args.1, args.2)
    }
}

impl<A, B, C, D, R, Fun: FnOnce(A, B, C, D) -> R> CallOnce<(A, B, C, D)> for Fun {
    type Output = R;

    open spec fn pre(&self, args: (A, B, C, D)) -> bool {
        call_requires(*self, args)
    }

    open spec fn post(&self, args: (A, B, C, D), out: R) -> bool {
        call_ensures(*self, args, out)
    }

    fn call_once(self, args: (A, B, C, D)) -> (r: R) {
        self(args.0, args.1, args.2, args.3)
    }
}

impl<A, B, C, D, R, Fun: FnMut(A, B, C, D) -> R> CallMut<(A, B, C, D)> for Fun {
    fn call_mut(&mut self, args: (A, B, C, D)) -> (r: R) {
        (self)(args.0, args.1, args.2, args.3)
    }
}

impl<A, B, C, D, R, Fun: Fn(A, B, C, D) -> R> Call<(A, B, C, D)> for Fun {
    fn call(&self, args: (A, B, C, D)) -> (r: R) {
        (self)(args.0, args.1, args.2, args.3)
    }
}

} // verus!
