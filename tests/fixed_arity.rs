use fntools::{chain, compose, flip_args, product};

#[test]
fn compose_adds_in_order() {
    let add_two = |a: i32| a + 2;
    let add_three = |a: i32| a + 3;
    let add_five = compose(add_two, add_three);
    assert_eq!(add_five(4), 9);
}

#[test]
fn compose_runs_right_to_left() {
    let to_16 = |i: i8| i16::from(i);
    let to_32 = |i: i16| i32::from(i);
    let to_64 = |i: i32| i64::from(i);
    let i8_to_i64 = compose(compose(to_64, to_32), to_16);
    assert_eq!(i8_to_i64(8i8), 8i64);
}

#[test]
fn compose_order_is_f_after_g() {
    let double = |a: i32| a * 2;
    let inc = |a: i32| a + 1;
    assert_eq!(compose(double, inc)(5), 12);
}

#[test]
fn chain_adds_in_order() {
    let add_two = |a: i32| a + 2;
    let add_three = |a: i32| a + 3;
    let add_five = chain(add_two, add_three);
    assert_eq!(add_five(4), 9);
}

#[test]
fn chain_runs_left_to_right() {
    let to_16 = |i: i8| i16::from(i);
    let to_32 = |i: i16| i32::from(i);
    let to_64 = |i: i32| i64::from(i);
    let i8_to_i64 = chain(to_16, chain(to_32, to_64));
    assert_eq!(i8_to_i64(8i8), 8i64);
}

#[test]
fn chain_order_is_g_after_f() {
    let double = |a: i32| a * 2;
    let inc = |a: i32| a + 1;
    assert_eq!(chain(double, inc)(5), 11);
}

#[test]
fn flip_args_swaps_two_arguments() {
    let fun = |a: &str, b: i32| format!("{}{}", a, b);
    let fun = flip_args(fun);
    assert_eq!(fun(17, "hello, "), "hello, 17");
}

#[test]
fn product_applies_each_function_to_its_argument() {
    let string = "привет";
    let (slice, chars) = product(|b: &[u8]| b.len(), |s: &str| s.chars().count())(string.as_bytes(), string);
    assert_eq!(slice, 12);
    assert_eq!(chars, 6);
}
