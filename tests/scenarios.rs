use fntools::call::{Call, CallOnce};
use fntools::unstable::{chain, curry, flip};

#[test]
fn chain_of_unary_functions() {
    let c = chain(|a: i32| a + 2, |a: i32| a * 3);
    assert_eq!(c.call((4,)), 18);
}

#[test]
fn chain_spreads_tuple_output_over_arguments() {
    let checked = chain(i32::overflowing_add, |res: i32, over: bool| if over { None } else { Some(res) });
    assert_eq!(checked.call((8, 16)), Some(24));
    assert_eq!(checked.call((i32::MAX, 1)), None);
}

#[test]
fn flip_reverses_three_arguments() {
    let f = flip(|a: &str, b: i32, c: char| format!("{}{}{}", a, b, c));
    assert_eq!(f.call(('x', 1, "y")), "y1x");
}

#[test]
fn curry_fires_on_last_argument() {
    let c = curry(|a: i32, b: i32, c: i32| a + b + c);
    let r = c.call_once((1,)).call_once((2,)).call_once((3,));
    assert_eq!(r, 6);
}

#[test]
fn curry_stays_pending_before_last_argument() {
    let c = curry(|a: i32, b: i32, c: i32| a + b + c);
    let pending = c.call_once((1,)).call_once((2,));
    assert_eq!(pending.acc, (1, 2));
    assert_eq!(pending.call_once((10,)), 13);
}
