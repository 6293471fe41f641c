use fntools::call::{Call, CallOnce};
use fntools::tuple::{AutoTuple, FlipTuple};
use fntools::unstable::{chain, compose, curry, flip, supply};

#[test]
fn chain_equals_swapped_compose() {
    let f = |a: i32, b: i32| (a * b, a + b);
    let g = |p: i32, s: i32| p - s;
    for (a, b) in [(0, 0), (2, 3), (-4, 7), (100, -1)] {
        assert_eq!(chain(f, g).call((a, b)), compose(g, f).call((a, b)));
    }
}

#[test]
fn chain_is_associative() {
    let f = |a: i32| a + 1;
    let g = |a: i32| (a, a * 2);
    let h = |x: i32, y: i32| x * 100 + y;
    for a in [-3, 0, 5, 42] {
        let left = chain(chain(f, g), h).call((a,));
        let right = chain(f, chain(g, h)).call((a,));
        assert_eq!(left, right);
    }
    assert_eq!(chain(chain(f, g), h).call((5,)), 612);
}

#[test]
fn flip_twice_is_the_callable() {
    let f = |a: i32, b: char, c: &str| format!("{}{}{}", a, b, c);
    assert_eq!(flip(flip(f)).call((1, 'b', "c")), f(1, 'b', "c"));
    assert_eq!(flip(flip(f)).call((1, 'b', "c")), "1bc");
}

#[test]
fn curry_equals_direct_call() {
    let f = |a: i32, b: i32, c: i32| a * 100 + b * 10 + c;
    let r = curry(f).call_once((1,)).call_once((2,)).call_once((3,));
    assert_eq!(r, f(1, 2, 3));
}

#[test]
fn supply_saturation_equals_direct_call() {
    let f = |a: i32, b: i32, c: i32| a * 100 + b * 10 + c;
    let s = supply::<_, (i32,)>(supply::<_, (i32, i32)>(supply::<_, (i32, i32, i32)>(f, 1), 2), 3);
    assert_eq!(s.call(()), f(1, 2, 3));
    assert_eq!(s.call(()), 123);
}

#[test]
fn auto_tuple_single_keeps_tuple_value_whole() {
    let v = (1, 2);
    let t: ((i32, i32),) = AutoTuple::<((i32, i32),)>::auto_tuple(v);
    assert_eq!(t, ((1, 2),));
    let c = chain(|a: i32| (a, a), |p: (i32, i32)| p.0 + p.1);
    assert_eq!(c.call((4,)), 8);
}

#[test]
fn flip_tuple_twice_is_identity() {
    let t = (1, 'a', "s", 2u8);
    assert_eq!(t.flip().flip(), t);
}
