use vstd::prelude::*;
use std::marker::PhantomData;
use crate::call::{Call, CallMut, CallOnce};
use crate::tuple::AutoTuple;

verus! {

/// Composes two callables: `f ∘ g`.
///
/// The result takes the arguments of `g`, runs `g`, turns its output into the
/// argument tuple `C` of `f` (see [`AutoTuple`]) and returns what `f` returns.
pub fn compose<A, C, F, G>(f: F, g: G) -> (r: Compose<F, G, C>)
    where
        F: CallOnce<C>,
        G: CallOnce<A>,
        G::Output: AutoTuple<C>,
    ensures
        r.f == f,
        r.g == g,
{
    Compose { f, g, args: PhantomData }
}

/// The callable `f ∘ g`: `g` runs first and its output, as an argument tuple
/// `C`, feeds `f`.
#[derive(Debug)]
pub struct Compose<F, G, C> {
    pub f: F,
    pub g: G,
    pub args: PhantomData<C>,
}

impl<A, C, F, G> CallOnce<A> for Compose<F, G, C>
    where
        F: CallOnce<C>,
        G: CallOnce<A>,
        G::Output: AutoTuple<C>,
{
    type Output = F::Output;

    /// `g` accepts the arguments, and `f` accepts every output of `g`.
    open spec fn pre(&self, args: A) -> bool {
        &&& self.g.pre(args)
        &&& forall|b: G::Output| #[trigger] self.g.post(args, b) ==> self.f.pre(b.tupled())
    }

    /// Some output of `g` on the arguments leads `f` to the result.
    open spec fn post(&self, args: A, out: F::Output) -> bool {
        exists|b: G::Output| #[trigger] self.g.post(args, b) && self.f.post(b.tupled(), out)
    }

    fn call_once(self, args: A) -> (r: F::Output) {
        let b = self.g.call_once(args);
        let c = b.auto_tuple();
        self.f.call_once(c)
    }
}

impl<A, C, F, G> CallMut<A> for Compose<F, G, C>
    where
        F: CallMut<C>,
        G: CallMut<A>,
        G::Output: AutoTuple<C>,
{
    fn call_mut(&mut self, args: A) -> (r: F::Output) {
        let b = self.g.call_mut(args);
        let c = b.auto_tuple();
        self.f.call_mut(c)
    }
}

impl<A, C, F, G> Call<A> for Compose<F, G, C>
    where
        F: Call<C>,
        G: Call<A>,
        G::Output: AutoTuple<C>,
{
    fn call(&self, args: A) -> (r: F::Output) {
        let b = self.g.call(args);
        let c = b.auto_tuple();
        self.f.call(c)
    }
}

impl<F: Clone, G: Clone, C> Clone for Compose<F, G, C> {
    fn clone(&self) -> (r: Self) {
        Compose { f: self.f.clone(), g: self.g.clone(), args: PhantomData }
    }
}

impl<F: Copy, G: Copy, C> Copy for Compose<F, G, C> {

}

} // verus!
