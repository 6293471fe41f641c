use vstd::prelude::*;
use std::marker::PhantomData;
use crate::call::CallOnce;
use crate::tuple::{ArgTuple, AutoTuple, FlipInvolutive, FlipTuple, TupleTake};
use crate::unstable::chain::Chain;
use crate::unstable::compose::Compose;
use crate::unstable::curry::Curry;
use crate::unstable::flip::Flip;
use crate::unstable::supply::Supply;

verus! {

/// The value `chain(f, g)` builds.
pub open spec fn chained<F, G, C>(f: F, g: G) -> Chain<F, G, C> {
    Chain { f, g, args: PhantomData }
}

/// The value `compose(f, g)` builds.
pub open spec fn composed<F, G, C>(f: F, g: G) -> Compose<F, G, C> {
    Compose { f, g, args: PhantomData }
}

/// A curried `f` that has gathered the arguments `acc`.
pub open spec fn pending<Acc, F, Args>(acc: Acc, f: F) -> Curry<Acc, F, Args> {
    Curry { acc, f, args: PhantomData }
}

/// `f` with its first argument fixed to `argument`.
pub open spec fn supplied<T, F, Args>(f: F, argument: T) -> Supply<T, F, Args> {
    Supply { argument, f, args: PhantomData }
}

/// Chaining `f` then `g` is composing `g` after `f`: both accept the same
/// arguments and may give the same results.
pub proof fn lemma_chain_compose_duality<A, C, F, G>(f: F, g: G, args: A)
    where
        F: CallOnce<A>,
        G: CallOnce<C>,
        F::Output: AutoTuple<C>,
    ensures
        chained::<F, G, C>(f, g).pre(args) == composed::<G, F, C>(g, f).pre(args),
        forall|out: G::Output|
            #[trigger] chained::<F, G, C>(f, g).post(args, out) == composed::<G, F, C>(g, f).post(
                args,
                out,
            ),
{
    let c = chained::<F, G, C>(f, g);
    let d = composed::<G, F, C>(g, f);
    assert forall|out: G::Output| #[trigger] c.post(args, out) == d.post(args, out) by {
        if c.post(args, out) {
            let b = choose|b: F::Output| #[trigger] c.f.post(args, b) && c.g.post(b.tupled(), out);
            assert(d.g.post(args, b) && d.f.post(b.tupled(), out));
        }
        if d.post(args, out) {
            let b = choose|b: F::Output| #[trigger] d.g.post(args, b) && d.f.post(b.tupled(), out);
            assert(c.f.post(args, b) && c.g.post(b.tupled(), out));
        }
    }
}

/// Chaining is associative: `chain(chain(f, g), h)` and `chain(f, chain(g, h))`
/// accept the same arguments and may give the same results.
pub proof fn lemma_chain_associative<A, C, E, F, G, H>(f: F, g: G, h: H, args: A)
    where
        F: CallOnce<A>,
        F::Output: AutoTuple<C>,
        G: CallOnce<C>,
        G::Output: AutoTuple<E>,
        H: CallOnce<E>,
    ensures
        chained::<Chain<F, G, C>, H, E>(chained(f, g), h).pre(args) == chained::<
            F,
            Chain<G, H, E>,
            C,
        >(f, chained(g, h)).pre(args),
        forall|out: H::Output|
            #[trigger] chained::<Chain<F, G, C>, H, E>(chained(f, g), h).post(args, out)
                == chained::<F, Chain<G, H, E>, C>(f, chained(g, h)).post(args, out),
{
    let fg = chained::<F, G, C>(f, g);
    let gh = chained::<G, H, E>(g, h);
    let left = chained::<Chain<F, G, C>, H, E>(fg, h);
    let right = chained::<F, Chain<G, H, E>, C>(f, gh);
    assert forall|out: H::Output| #[trigger] left.post(args, out) == right.post(args, out) by {
        if left.post(args, out) {
            let d = choose|d: G::Output| #[trigger] fg.post(args, d) && h.post(d.tupled(), out);
            let b = choose|b: F::Output| #[trigger] f.post(args, b) && g.post(b.tupled(), d);
            assert(gh.f.post(b.tupled(), d) && gh.g.post(d.tupled(), out));
            assert(gh.post(b.tupled(), out));
            assert(right.f.post(args, b) && right.g.post(b.tupled(), out));
        }
        if right.post(args, out) {
            let b = choose|b: F::Output| #[trigger] f.post(args, b) && gh.post(b.tupled(), out);
            let d = choose|d: G::Output| #[trigger] g.post(b.tupled(), d) && h.post(d.tupled(), out);
            assert(fg.f.post(args, b) && fg.g.post(b.tupled(), d));
            assert(fg.post(args, d));
            assert(left.f.post(args, d) && left.g.post(d.tupled(), out));
        }
    }
    if left.pre(args) {
        assert forall|b: F::Output| #[trigger] f.post(args, b) implies gh.pre(b.tupled()) by {
            assert forall|d: G::Output| #[trigger] g.post(b.tupled(), d) implies h.pre(d.tupled()) by {
                assert(fg.f.post(args, b) && fg.g.post(b.tupled(), d));
                assert(fg.post(args, d));
            }
        }
    }
    if right.pre(args) {
        assert forall|d: G::Output| #[trigger] fg.post(args, d) implies h.pre(d.tupled()) by {
            let b = choose|b: F::Output| #[trigger] f.post(args, b) && g.post(b.tupled(), d);
            assert(gh.pre(b.tupled()));
        }
    }
}

/// Flipping twice gives the callable back: `flip(flip(f))` accepts the same
/// arguments as `f` and may give the same results.
pub proof fn lemma_flip_involutive<A, F>(f: F, args: A)
    where
        A: FlipInvolutive,
        A::Flipped: FlipTuple<Flipped = A>,
        F: CallOnce<A>,
    ensures
        (Flip { f: Flip { f } }).pre(args) == f.pre(args),
        forall|out: F::Output| #[trigger] (Flip { f: Flip { f } }).post(args, out) == f.post(args, out),
{
    args.lemma_flip_flip();
}

/// Auto-tupling a value to one argument wraps it as it is, without taking it
/// apart, whatever its type.
pub proof fn lemma_auto_tuple_single<T>(v: T)
    ensures
        <T as AutoTuple<(T,)>>::tupled(v) == (v,),
{
}

/// Supplying an argument leaves a callable of one argument less, which runs
/// `f` on that argument followed by the rest.
pub proof fn lemma_supply_step<F, Args>(f: F, argument: Args::Take, rest: Args::Rest)
    where
        F: CallOnce<Args>,
        Args: TupleTake,
    ensures
        Args::Rest::arity() + 1 == Args::arity(),
        supplied::<Args::Take, F, Args>(f, argument).pre(rest) == f.pre(Args::joined(argument, rest)),
        forall|out: F::Output|
            #[trigger] supplied::<Args::Take, F, Args>(f, argument).post(rest, out) == f.post(
                Args::joined(argument, rest),
                out,
            ),
{
    Args::lemma_rest_arity();
}

/// Currying a callable of no arguments and calling the result with none is
/// calling the callable.
pub proof fn lemma_curry_no_args<F>(f: F)
    where
        F: CallOnce<()>,
    ensures
        pending::<(), F, ()>((), f).pre(()) == f.pre(()),
        forall|out: F::Output| #[trigger] pending::<(), F, ()>((), f).post((), out) == f.post((), out),
{
}

/// Currying a callable of one argument and calling the result with that
/// argument is calling the callable with it.
pub proof fn lemma_curry_one_arg<F, A>(f: F, a: A)
    where
        F: CallOnce<(A,)>,
    ensures
        pending::<(), F, (A,)>((), f).pre((a,)) == f.pre((a,)),
        forall|out: F::Output|
            #[trigger] pending::<(), F, (A,)>((), f).post((a,), out) == f.post((a,), out),
{
}

/// Currying a callable of two arguments and calling the result with
/// them one at a time is calling the callable with all of them: each call but
/// the last gives the pending value that has gathered one argument more.
pub proof fn lemma_curry_two_args<F, A, B>(f: F, a: A, b: B)
    where
        F: CallOnce<(A, B)>,
    ensures
        pending::<(), F, (A, B)>((), f).pre((a,)),
        forall|pc: Curry<(A,), F, (A, B)>|
            #[trigger] pending::<(), F, (A, B)>((), f).post((a,), pc) <==> pc == pending::<(A,), F, (A, B)>((a,), f),
        pending::<(A,), F, (A, B)>((a,), f).pre((b,)) == f.pre((a, b)),
        forall|out: F::Output|
            #[trigger] pending::<(A,), F, (A, B)>((a,), f).post((b,), out) == f.post((a, b), out),
{
}

/// Currying a callable of three arguments and calling the result with
/// them one at a time is calling the callable with all of them: each call but
/// the last gives the pending value that has gathered one argument more.
pub proof fn lemma_curry_three_args<F, A, B, C>(f: F, a: A, b: B, c: C)
    where
        F: CallOnce<(A, B, C)>,
    ensures
        pending::<(), F, (A, B, C)>((), f).pre((a,)),
        forall|pc: Curry<(A,), F, (A, B, C)>|
            #[trigger] pending::<(), F, (A, B, C)>((), f).post((a,), pc) <==> pc == pending::<(A,), F, (A, B, C)>((a,), f),
        pending::<(A,), F, (A, B, C)>((a,), f).pre((b,)),
        forall|pc: Curry<(A, B), F, (A, B, C)>|
            #[trigger] pending::<(A,), F, (A, B, C)>((a,), f).post((b,), pc) <==> pc == pending::<(A, B), F, (A, B, C)>((a, b), f),
        pending::<(A, B), F, (A, B, C)>((a, b), f).pre((c,)) == f.pre((a, b, c)),
        forall|out: F::Output|
            #[trigger] pending::<(A, B), F, (A, B, C)>((a, b), f).post((c,), out) == f.post((a, b, c), out),
{
}

/// Currying a callable of four arguments and calling the result with
/// them one at a time is calling the callable with all of them: each call but
/// the last gives the pending value that has gathered one argument more.
pub proof fn lemma_curry_four_args<F, A, B, C, D>(f: F, a: A, b: B, c: C, d: D)
    where
        F: CallOnce<(A, B, C, D)>,
    ensures
        pending::<(), F, (A, B, C, D)>((), f).pre((a,)),
        forall|pc: Curry<(A,), F, (A, B, C, D)>|
            #[trigger] pending::<(), F, (A, B, C, D)>((), f).post((a,), pc) <==> pc == pending::<(A,), F, (A, B, C, D)>((a,), f),
        pending::<(A,), F, (A, B, C, D)>((a,), f).pre((b,)),
        forall|pc: Curry<(A, B), F, (A, B, C, D)>|
            #[trigger] pending::<(A,), F, (A, B, C, D)>((a,), f).post((b,), pc) <==> pc == pending::<(A, B), F, (A, B, C, D)>((a, b), f),
        pending::<(A, B), F, (A, B, C, D)>((a, b), f).pre((c,)),
        forall|pc: Curry<(A, B, C), F, (A, B, C, D)>|
            #[trigger] pending::<(A, B), F, (A, B, C, D)>((a, b), f).post((c,), pc) <==> pc == pending::<(A, B, C), F, (A, B, C, D)>((a, b, c), f),
        pending::<(A, B, C), F, (A, B, C, D)>((a, b, c), f).pre((d,)) == f.pre((a, b, c, d)),
        forall|out: F::Output|
            #[trigger] pending::<(A, B, C), F, (A, B, C, D)>((a, b, c), f).post((d,), out) == f.post((a, b, c, d), out),
{
}

/// Supplying the one argument of a callable and calling the result with
/// none is calling the callable with that argument.
pub proof fn lemma_supply_one_arg<F, A>(f: F, a: A)
    where
        F: CallOnce<(A,)>,
    ensures
        supplied::<A, F, (A,)>(f, a).pre(()) == f.pre((a,)),
        forall|out: F::Output|
            #[trigger] supplied::<A, F, (A,)>(f, a).post((), out) == f.post((a,), out),
{
}

/// Supplying the two arguments of a callable one after the other, from
/// the first to the last, and calling the result with none is calling the
/// callable with all of them.
pub proof fn lemma_supply_two_args<F, A, B>(f: F, a: A, b: B)
    where
        F: CallOnce<(A, B)>,
    ensures
        supplied::<B, Supply<A, F, (A, B)>, (B,)>(supplied::<A, F, (A, B)>(f, a), b).pre(()) == f.pre((a, b)),
        forall|out: F::Output|
            #[trigger] supplied::<B, Supply<A, F, (A, B)>, (B,)>(supplied::<A, F, (A, B)>(f, a), b).post((), out) == f.post((a, b), out),
{
}

/// Supplying the three arguments of a callable one after the other, from
/// the first to the last, and calling the result with none is calling the
/// callable with all of them.
pub proof fn lemma_supply_three_args<F, A, B, C>(f: F, a: A, b: B, c: C)
    where
        F: CallOnce<(A, B, C)>,
    ensures
        supplied::<C, Supply<B, Supply<A, F, (A, B, C)>, (B, C)>, (C,)>(supplied::<B, Supply<A, F, (A, B, C)>, (B, C)>(supplied::<A, F, (A, B, C)>(f, a), b), c).pre(()) == f.pre((a, b, c)),
        forall|out: F::Output|
            #[trigger] supplied::<C, Supply<B, Supply<A, F, (A, B, C)>, (B, C)>, (C,)>(supplied::<B, Supply<A, F, (A, B, C)>, (B, C)>(supplied::<A, F, (A, B, C)>(f, a), b), c).post((), out) == f.post((a, b, c), out),
{
}

/// Supplying the four arguments of a callable one after the other, from
/// the first to the last, and calling the result with none is calling the
/// callable with all of them.
pub proof fn lemma_supply_four_args<F, A, B, C, D>(f: F, a: A, b: B, c: C, d: D)
    where
        F: CallOnce<(A, B, C, D)>,
    ensures
        supplied::<D, Supply<C, Supply<B, Supply<A, F, (A, B, C, D)>, (B, C, D)>, (C, D)>, (D,)>(supplied::<C, Supply<B, Supply<A, F, (A, B, C, D)>, (B, C, D)>, (C, D)>(supplied::<B, Supply<A, F, (A, B, C, D)>, (B, C, D)>(supplied::<A, F, (A, B, C, D)>(f, a), b), c), d).pre(()) == f.pre((a, b, c, d)),
        forall|out: F::Output|
            #[trigger] supplied::<D, Supply<C, Supply<B, Supply<A, F, (A, B, C, D)>, (B, C, D)>, (C, D)>, (D,)>(supplied::<C, Supply<B, Supply<A, F, (A, B, C, D)>, (B, C, D)>, (C, D)>(supplied::<B, Supply<A, F, (A, B, C, D)>, (B, C, D)>(supplied::<A, F, (A, B, C, D)>(f, a), b), c), d).post((), out) == f.post((a, b, c, d), out),
{
}

} // verus!
