//! Combinators that build new callables out of existing ones: sequencing
//! (`chain`, `compose`), partial application (`supply`, `curry`), argument
//! reordering (`flip`) and adaptation of outputs and arguments (`untuple`,
//! `unit`).
//!
//! The functions at the root work on callables of one or two arguments. The
//! module [`unstable`] holds the same combinators for callables of any arity
//! up to [`tuple::MAX_ARITY`], built on the traits of [`call`] and [`tuple`];
//! [`laws`] states and proves how they relate.
use vstd::prelude::*;

pub mod call;
pub mod laws;
pub mod tuple;
pub mod unstable;

verus! {

/// Composes two functions: `f ∘ g`, that is `|a| f(g(a))`.
pub fn compose<A, B, C, F, G>(f: F, g: G) -> (r: impl Fn(A) -> C)
    where
        G: Fn(A) -> B,
        F: Fn(B) -> C,
    ensures
        forall|a: A|
            g.requires((a,)) && (forall|b: B| g.ensures((a,), b) ==> f.requires((b,)))
                ==> #[trigger] r.requires((a,)),
        forall|a: A, c: C|
            #[trigger] r.ensures((a,), c) ==> exists|b: B| g.ensures((a,), b) && f.ensures((b,), c),
{
    move |a: A| -> (c: C)
        requires
            g.requires((a,)),
            forall|b: B| g.ensures((a,), b) ==> f.requires((b,)),
        ensures
            exists|b: B| g.ensures((a,), b) && f.ensures((b,), c),
        { f(g(a)) }
}

/// Chains two functions: `g ∘ f`, that is `|a| g(f(a))`.
pub fn chain<A, B, C, F, G>(f: F, g: G) -> (r: impl Fn(A) -> C)
    where
        F: Fn(A) -> B,
        G: Fn(B) -> C,
    ensures
        forall|a: A|
            f.requires((a,)) && (forall|b: B| f.ensures((a,), b) ==> g.requires((b,)))
                ==> #[trigger] r.requires((a,)),
        forall|a: A, c: C|
            #[trigger] r.ensures((a,), c) ==> exists|b: B| f.ensures((a,), b) && g.ensures((b,), c),
{
    move |a: A| -> (c: C)
        requires
            f.requires((a,)),
            forall|b: B| f.ensures((a,), b) ==> g.requires((b,)),
        ensures
            exists|b: B| f.ensures((a,), b) && g.ensures((b,), c),
        { g(f(a)) }
}

/// Swaps the two arguments of `f`.
pub fn flip_args<A, B, R, F>(f: F) -> (r: impl FnOnce(B, A) -> R)
    where
        F: FnOnce(A, B) -> R,
    ensures
        forall|a: A, b: B| f.requires((a, b)) ==> #[trigger] r.requires((b, a)),
        forall|a: A, b: B, out: R| #[trigger] r.ensures((b, a), out) ==> f.ensures((a, b), out),
{
    move |b: B, a: A| -> (out: R)
        requires
            f.requires((a, b)),
        ensures
            f.ensures((a, b), out),
        { f(a, b) }
}

/// Cartesian product of two functions: `|a, x| (f(a), g(x))`.
pub fn product<A, B, X, Y, F, G>(f: F, g: G) -> (r: impl Fn(A, X) -> (B, Y))
    where
        F: Fn(A) -> B,
        G: Fn(X) -> Y,
    ensures
        forall|a: A, x: X| f.requires((a,)) && g.requires((x,)) ==> #[trigger] r.requires((a, x)),
        forall|a: A, x: X, out: (B, Y)|
            #[trigger] r.ensures((a, x), out) ==> f.ensures((a,), out.0) && g.ensures((x,), out.1),
{
    move |a: A, x: X| -> (out: (B, Y))
        requires
            f.requires((a,)),
            g.requires((x,)),
        ensures
            f.ensures((a,), out.0) && g.ensures((x,), out.1),
        { (f(a), g(x)) }
}

} // verus!
