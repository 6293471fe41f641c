use fntools::call::{Call, CallMut, CallOnce};
use fntools::tuple::{AutoTuple, FlipTuple, TupleTake};
use fntools::unstable::{
    chain, compose, curry, flip, supply, unit, untuple, Chain, FnExt, FnExtChain,
};

#[test]
fn chain_new_builds_the_same_chain() {
    let c: Chain<_, _, (i32,)> = Chain::new(|a: i32| a - 1, |a: i32| a * 10);
    assert_eq!(c.call((3,)), 20);
}

#[test]
fn compose_runs_second_callable_first() {
    let c = compose(|a: i32| a * 3, |a: i32| a + 2);
    assert_eq!(c.call((4,)), 18);
}

#[test]
fn compose_spreads_tuple_output_over_arguments() {
    let checked = compose(|res: i32, over: bool| if over { None } else { Some(res) }, i32::overflowing_add);
    assert_eq!(checked.call((8, 16)), Some(24));
    assert_eq!(checked.call((i32::MAX, 1)), None);
}

#[test]
fn chain_through_unit_output_into_no_argument_callable() {
    let c = chain(|_a: i32| (), || 7u8);
    assert_eq!(c.call((1,)), 7);
}

#[test]
fn chain_with_no_argument_first_callable() {
    let c = chain(|| 5i64, |a: i64| a * a);
    assert_eq!(c.call(()), 25);
}

#[test]
fn chain_of_four_argument_callables() {
    let c = chain(|a: u8, b: u8, c: u8, d: u8| (d, c, b, a), |a: u8, b: u8, c: u8, d: u8| a * 8 + b * 4 + c * 2 + d);
    assert_eq!(c.call((1, 0, 0, 0)), 1);
    assert_eq!(c.call((0, 0, 0, 1)), 8);
}

#[test]
fn chain_call_mut_updates_captured_state() {
    let mut count = 0;
    let mut c = chain(
        |a: i32| {
            count += 1;
            a + count
        },
        |a: i32| a * 2,
    );
    assert_eq!(c.call_mut((1,)), 4);
    assert_eq!(c.call_mut((1,)), 6);
}

#[test]
fn chain_consumes_once_callable() {
    let s = String::from("abc");
    let c = chain(move |x: usize| s.len() + x, |n: usize| n * 2);
    assert_eq!(c.call_once((1,)), 8);
}

#[test]
fn flip_of_no_and_one_argument_callables() {
    assert_eq!(flip(|| 3).call(()), 3);
    assert_eq!(flip(|a: i32| a - 1).call((3,)), 2);
}

#[test]
fn flip_of_two_and_four_arguments() {
    assert_eq!(flip(|a: i32, b: i32| a - b).call((1, 10)), 9);
    let f = flip(|a: char, b: char, c: char, d: char| format!("{}{}{}{}", a, b, c, d));
    assert_eq!(f.call(('a', 'b', 'c', 'd')), "dcba");
}

#[test]
fn supply_binds_left_to_right() {
    let fun = |a: i32, b: usize, c: String| format!("a: {}, b: {}, c: {:?}", a, b, c);
    let s1 = supply::<_, (i32, usize, String)>(fun, 8);
    let s2 = supply::<_, (usize, String)>(s1, 16);
    let s3 = supply::<_, (String,)>(s2, String::from("AAA"));
    assert_eq!(s3.call_once(()), "a: 8, b: 16, c: \"AAA\"");
}

#[test]
fn supply_leaves_remaining_arguments() {
    let s = supply::<_, (i32, i32)>(|a: i32, b: i32| a - b, 10);
    assert_eq!(s.call((3,)), 7);
    assert_eq!(s.call((4,)), 6);
}

#[test]
fn untuple_spreads_one_tuple_argument() {
    let u = untuple(|a: i32, b: i32| a * b);
    assert_eq!(u.call(((6, 7),)), 42);
}

#[test]
fn unit_drops_output() {
    let u = unit(|a: i32, b: i32| a - b);
    assert_eq!(u.call((2, 1)), ());
}

#[test]
fn curry_of_no_argument_callable_calls_it() {
    let c = curry::<_, ()>(|| 9);
    assert_eq!(c.call_once(()), 9);
}

#[test]
fn curry_of_one_and_four_arguments() {
    assert_eq!(curry(|a: i32| a * 5).call_once((2,)), 10);
    let c = curry(|a: i32, b: i32, c: i32, d: i32| a * 1000 + b * 100 + c * 10 + d);
    assert_eq!(c.call_once((1,)).call_once((2,)).call_once((3,)).call_once((4,)), 1234);
}

#[test]
fn ext_chain_and_compose() {
    let add_two = |a: i32| a + 2;
    let add_three = |a: i32| a + 3;
    let add_eight = FnExt::<(i32,)>::chain(add_two, add_three);
    let add_eight = FnExt::<(i32,)>::chain(add_eight, add_three);
    assert_eq!(add_eight.call((4,)), 12);
    let c = FnExt::<(i32,)>::compose(|a: i32| a * 3, |a: i32| a + 2);
    assert_eq!(c.call((4,)), 18);
}

#[test]
fn ext_chain_ut_and_compose_ut() {
    let tuple = |a: i32| (a, 8);
    let add_eight = FnExt::<(i32,)>::chain_ut(tuple, |a: i32, b: i32| a + b);
    assert_eq!(add_eight.call((4,)), 12);
    let checked = FnExt::<(i32, bool)>::compose_ut(
        |res: i32, over: bool| if over { None } else { Some(res) },
        i32::overflowing_add,
    );
    assert_eq!(checked.call((8, 16)), Some(24));
    assert_eq!(checked.call((i32::MAX, 1)), None);
}

#[test]
fn ext_supply_flip_curry_unit() {
    let fun = |a: i32, b: usize, c: String| format!("a: {}, b: {}, c: {:?}", a, b, c);
    let s = FnExt::<(i32, usize, String)>::supply(fun, 8);
    let s = FnExt::<(usize, String)>::supply(s, 16);
    let s = FnExt::<(String,)>::supply(s, String::from("AAA"));
    assert_eq!(s.call_once(()), "a: 8, b: 16, c: \"AAA\"");
    let f = FnExt::<(&str, i32, char)>::flip(|a: &str, b: i32, c: char| format!("{}{}{}", a, b, c));
    assert_eq!(f.call(('c', 17, "hello, ")), "hello, 17c");
    let add = FnExt::<(i32, i32)>::curry(|a: i32, b: i32| a + b);
    assert_eq!(add.call_once((2,)).call_once((2,)), 4);
    let u = FnExt::<(i32, i32)>::unit(|a: i32, b: i32| a - b);
    assert_eq!(u.call((2, 1)), ());
}

#[test]
fn ext_chain_trait_method() {
    let add_two = |a: i32| a + 2;
    let add_three = |a: i32| a + 3;
    let c = FnExtChain::<(i32,), i32>::chain::<(i32,), _>(add_two, add_three);
    assert_eq!(c.call((4,)), 9);
}

#[test]
fn tuple_operations() {
    let t: (i32,) = AutoTuple::<(i32,)>::auto_tuple(5);
    assert_eq!(t, (5,));
    let u: () = AutoTuple::<()>::auto_tuple(());
    assert_eq!(u, ());
    let p: (i32, char) = AutoTuple::<(i32, char)>::auto_tuple((1, 'a'));
    assert_eq!(p, (1, 'a'));
    assert_eq!((1, 'a', "s").flip(), ("s", 'a', 1));
    assert_eq!((1,).flip(), (1,));
    assert_eq!(().flip(), ());
    assert_eq!((1, 2, 3, 4).take(), (1, (2, 3, 4)));
    assert_eq!((1,).take(), (1, ()));
    assert_eq!(<(i32, char)>::join(1, ('x',)), (1, 'x'));
}
