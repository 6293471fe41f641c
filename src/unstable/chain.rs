use vstd::prelude::*;
use std::marker::PhantomData;
use crate::call::{Call, CallMut, CallOnce};
use crate::tuple::AutoTuple;

verus! {

/// Chains two callables: `g ∘ f`.
///
/// The result takes the arguments of `f`, runs `f`, turns its output into the
/// argument tuple `C` of `g` (see [`AutoTuple`]) and returns what `g` returns.
pub fn chain<A, C, F, G>(f: F, g: G) -> (r: Chain<F, G, C>)
    where
        F: CallOnce<A>,
        G: CallOnce<C>,
        F::Output: AutoTuple<C>,
    ensures
        r.f == f,
        r.g == g,
{
    Chain::new(f, g)
}

/// The callable `g ∘ f`: `f` runs first and its output, as an argument tuple
/// `C`, feeds `g`.
#[derive(Debug)]
pub struct Chain<F, G, C> {
    pub f: F,
    pub g: G,
    pub args: PhantomData<C>,
}

impl<F, G, C> Chain<F, G, C> {
    pub fn new<A>(f: F, g: G) -> (r: Self)
        where
            F: CallOnce<A>,
            G: CallOnce<C>,
            F::Output: AutoTuple<C>,
        ensures
            r.f == f,
            r.g == g,
    {
        Chain { f, g, args: PhantomData }
    }
}

impl<A, C, F, G> CallOnce<A> for Chain<F, G, C>
    where
        F: CallOnce<A>,
        G: CallOnce<C>,
        F::Output: AutoTuple<C>,
{
    type Output = G::Output;

    /// `f` accepts the arguments, and `g` accepts every output of `f`.
    open spec fn pre(&self, args: A) -> bool {
        &&& self.f.pre(args)
        &&& forall|b: F::Output| #[trigger] self.f.post(args, b) ==> self.g.pre(b.tupled())
    }

    /// Some output of `f` on the arguments leads `g` to the result.
    open spec fn post(&self, args: A, out: G::Output) -> bool {
        exists|b: F::Output| #[trigger] self.f.post(args, b) && self.g.post(b.tupled(), out)
    }

    fn call_once(self, args: A) -> (r: G::Output) {
        let b = self.f.call_once(args);
        let c = b.auto_tuple();
        self.g.call_once(c)
    }
}

impl<A, C, F, G> CallMut<A> for Chain<F, G, C>
    where
        F: CallMut<A>,
        G: CallMut<C>,
        F::Output: AutoTuple<C>,
{
    fn call_mut(&mut self, args: A) -> (r: G::Output) {
        let b = self.f.call_mut(args);
        let c = b.auto_tuple();
        self.g.call_mut(c)
    }
}

impl<A, C, F, G> Call<A> for Chain<F, G, C>
    where
        F: Call<A>,
        G: Call<C>,
        F::Output: AutoTuple<C>,
{
    fn call(&self, args: A) -> (r: G::Output) {
        let b = self.f.call(args);
        let c = b.auto_tuple();
        self.g.call(c)
    }
}

impl<F: Clone, G: Clone, C> Clone for Chain<F, G, C> {
    fn clone(&self) -> (r: Self) {
        Chain { f: self.f.clone(), g: self.g.clone(), args: PhantomData }
    }
}

impl<F: Copy, G: Copy, C> Copy for Chain<F, G, C> {

}

/// The `.chain` method on every callable.
pub trait FnExtChain<A, B> {
    /// Chains `g` after `self` (`g ∘ self`).
    fn chain<C, G>(self, g: G) -> (r: Chain<Self, G, C>)
        where
            Self: Sized,
            G: CallOnce<C>,
            B: AutoTuple<C>,
        ensures
            r.f == self,
            r.g == g,
    ;
}

impl<A, B, F> FnExtChain<A, B> for F where F: CallOnce<A, Output = B> {
    fn chain<C, G>(self, g: G) -> (r: Chain<Self, G, C>)
        where
            Self: Sized,
            G: CallOnce<C>,
            B: AutoTuple<C>,
    {
        chain(self, g)
    }
}

} // verus!
