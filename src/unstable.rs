//! Combinators over callables of any arity up to
//! [`MAX_ARITY`](crate::tuple::MAX_ARITY): each is a value that implements
//! [`CallOnce`](crate::call::CallOnce), and [`CallMut`](crate::call::CallMut)
//! or [`Call`](crate::call::Call) where the callables it wraps do.
pub mod chain;
pub mod compose;
pub mod curry;
pub mod ext;
pub mod flip;
pub mod supply;
pub mod unit;
pub mod untuple;

pub use self::chain::{chain, Chain, FnExtChain};
pub use self::compose::{compose, Compose};
pub use self::curry::{curry, Curry};
pub use self::ext::FnExt;
pub use self::flip::{flip, Flip};
pub use self::supply::{supply, Supply};
pub use self::unit::{unit, Unit};
pub use self::untuple::{untuple, Untuple};
