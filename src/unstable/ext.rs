use vstd::prelude::*;
use crate::call::CallOnce;
use crate::tuple::{FlipTuple, TupleTake};
use crate::unstable::chain::Chain;
use crate::unstable::compose::Compose;
use crate::unstable::curry::Curry;
use crate::unstable::flip::Flip;
use crate::unstable::supply::Supply;
use crate::unstable::unit::Unit;
use crate::unstable::untuple::Untuple;

verus! {

/// Combinator methods on every callable taking the argument tuple `Args`.
pub trait FnExt<Args>: Sized {
    /// Chains `g` after `self` (`g ∘ self`); `g` takes the output of `self`
    /// as its one argument.
    fn chain<G>(self, g: G) -> (r: Chain<Self, G, (<Self as CallOnce<Args>>::Output,)>)
        where
            Self: CallOnce<Args>,
            G: CallOnce<(<Self as CallOnce<Args>>::Output,)>,
        ensures
            r.f == self,
            r.g == g,
    {
        crate::unstable::chain::chain(self, g)
    }

    /// Chains `g` after `self`, spreading the tuple that `self` returns over
    /// the arguments of `g`.
    fn chain_ut<G>(self, g: G) -> (r: Chain<Self, Untuple<G>, (<Self as CallOnce<Args>>::Output,)>)
        where
            Self: CallOnce<Args>,
            G: CallOnce<<Self as CallOnce<Args>>::Output>,
        ensures
            r.f == self,
            r.g.f == g,
    {
        crate::unstable::chain::chain(self, crate::unstable::untuple::untuple(g))
    }

    /// Composes `self` after `g` (`self ∘ g`); `self` takes the output of `g`
    /// as its one argument.
    fn compose<A, G>(self, g: G) -> (r: Compose<Self, G, (G::Output,)>)
        where
            Self: CallOnce<(G::Output,)>,
            G: CallOnce<A>,
        ensures
            r.f == self,
            r.g == g,
    {
        crate::unstable::compose::compose(self, g)
    }

    /// Composes `self` after `g`, spreading the tuple that `g` returns over
    /// the arguments of `self`.
    fn compose_ut<A, G>(self, g: G) -> (r: Compose<Untuple<Self>, G, (Args,)>)
        where
            Self: CallOnce<Args>,
            G: CallOnce<A, Output = Args>,
        ensures
            r.f.f == self,
            r.g == g,
    {
        crate::unstable::compose::compose(crate::unstable::untuple::untuple(self), g)
    }

    /// Fixes the first argument of `self`.
    fn supply(self, argument: Args::Take) -> (r: Supply<Args::Take, Self, Args>)
        where
            Self: CallOnce<Args>,
            Args: TupleTake,
        ensures
            r.argument == argument,
            r.f == self,
    {
        crate::unstable::supply::supply(self, argument)
    }

    /// Reverses the order of the arguments of `self`.
    fn flip(self) -> (r: Flip<Self>)
        where
            Self: CallOnce<Args>,
            Args: FlipTuple,
        ensures
            r.f == self,
    {
        crate::unstable::flip::flip(self)
    }

    /// Curries `self`.
    fn curry(self) -> (r: Curry<(), Self, Args>)
        where
            Self: CallOnce<Args>,
        ensures
            r.acc == (),
            r.f == self,
    {
        crate::unstable::curry::curry(self)
    }

    /// Drops the output of `self`.
    fn unit(self) -> (r: Unit<Self>)
        where
            Self: CallOnce<Args>,
        ensures
            r.f == self,
    {
        crate::unstable::unit::unit(self)
    }
}

impl<A, F> FnExt<A> for F where F: CallOnce<A> {

}

} // verus!
