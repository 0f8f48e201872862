use funcs::Func;
use funcs::FuncMut;
use funcs::FuncOnce;

fn add_pair(_c: &(), args: (i32, i32)) -> i32 {
    let (a, b) = args;
    a + b
}

fn scaled_add(c: &(i32,), args: (i32, i32)) -> i32 {
    let (a, b) = args;
    c.0 * a + c.0 * b
}

fn sum_times_coeff(c: &(i32,), args: (i32, i32)) -> i32 {
    let (a, b) = args;
    (a + b) * c.0
}

fn first_capture(c: (i32, i32), _args: (f64, i32)) -> i32 {
    c.0
}

fn constant_seven(_c: &(), _args: ()) -> i32 {
    7
}

fn tick(c: &u32, _args: ()) -> (u32, u32) {
    (c + 1, c + 1)
}

#[test]
fn addition_func_with_type_annotations() {
    let add = Func::new2((), |_c: &(), args: (i32, i32)| -> i32 { args.0 + args.1 });
    assert_eq!(add.call(1, 2), 3);
}

#[test]
fn addition_func_without_parameter_type_annotations() {
    let add = Func::new2((), add_pair as fn(&(), (i32, i32)) -> i32);
    assert_eq!(add.call(1, 2), 3);
}

#[test]
fn addition_func_without_type_annotations() {
    let add = Func::new2((), add_pair);
    assert_eq!(add.call(1, 2), 3);
}

#[test]
fn labeled_capturing_addition_func() {
    let coeff = 3;
    let add = Func::new2((coeff,), scaled_add);
    assert_eq!(add.call(1, 2), 9);
}

#[test]
fn unlabeled_capturing_addition_func() {
    let c = 3;
    let add = Func::new2((c,), scaled_add);
    assert_eq!(add.call(1, 2), 9);
}

#[test]
fn coefficient_scaled_sum() {
    let coeff = 3;
    let entity = Func::new2((coeff,), sum_times_coeff);
    assert_eq!(entity.call(1, 2), 9);
}

#[test]
fn consuming_entity_returns_first_capture() {
    let d = 32;
    let once = FuncOnce::new2((d, 4 * 8), first_capture);
    assert_eq!(once.call(10.0, 11), 32);
    // `once` has been consumed here: another `once.call(..)` does not compile.
}

#[test]
fn consuming_conversion_is_single_use() {
    let once = FuncOnce::new2((32, 7), first_capture);
    let g = once.to_fn_once();
    assert_eq!(g(10.0, 11), 32);
    // `g` has been consumed here: another `g(..)` does not compile.
}

#[test]
fn zero_param_constant_entity() {
    let k = Func::new0((), constant_seven);
    assert_eq!(k.call(), 7);
    assert_eq!(k.call(), 7);
    assert_eq!(k.call(), 7);
}

#[test]
fn mutable_counter_yields_successive_values() {
    let mut counter = FuncMut::new0(0u32, tick);
    assert_eq!(counter.call(), 1);
    assert_eq!(counter.call(), 2);
    assert_eq!(counter.call(), 3);
    assert_eq!(counter.captured, 3);
}

#[test]
fn equality_requires_equal_captured_and_function() {
    let f: fn(&(i32,), (i32, i32)) -> i32 = scaled_add;
    let a = Func::new2((3,), f);
    let b = Func::new2((3,), f);
    assert_eq!(a, b);
}

#[test]
fn equality_breaks_when_captured_differs() {
    let f: fn(&(i32,), (i32, i32)) -> i32 = scaled_add;
    let a = Func::new2((3,), f);
    let b = Func::new2((4,), f);
    assert_ne!(a, b);
}

#[test]
fn equality_breaks_when_function_differs() {
    let f: fn(&(i32,), (i32, i32)) -> i32 = scaled_add;
    let g: fn(&(i32,), (i32, i32)) -> i32 = sum_times_coeff;
    let a = Func::new2((3,), f);
    let b = Func::new2((3,), g);
    assert_ne!(a, b);
}

#[test]
fn equality_of_mutable_and_consuming_kinds() {
    let f: fn(&u32, ()) -> (u32, u32) = tick;
    assert_eq!(FuncMut::new0(5, f), FuncMut::new0(5, f));
    assert_ne!(FuncMut::new0(5, f), FuncMut::new0(6, f));
    let h: fn((i32, i32), (f64, i32)) -> i32 = first_capture;
    assert_eq!(FuncOnce::new2((1, 2), h), FuncOnce::new2((1, 2), h));
    assert_ne!(FuncOnce::new2((1, 2), h), FuncOnce::new2((9, 2), h));
}

#[test]
fn clone_of_mutable_entity_is_independent() {
    let original = FuncMut::new0(0u32, tick);
    let mut copy = original.clone();
    assert_eq!(copy.call(), 1);
    assert_eq!(copy.call(), 2);
    let mut original = original;
    assert_eq!(original.call(), 1);
    assert_eq!(copy.captured, 2);
}

#[test]
fn copy_of_read_only_entity() {
    let entity = Func::new2((3,), scaled_add);
    let duplicate = entity;
    assert_eq!(duplicate.call(1, 2), 9);
    assert_eq!(entity.call(1, 2), 9);
}

#[test]
fn converted_callable_matches_call() {
    let entity = Func::new2((3,), sum_times_coeff);
    let native = entity.to_fn();
    assert_eq!(native(1, 2), entity.call(1, 2));
    assert_eq!(native(2, 3), 15);
    assert_eq!(native(0, 0), 0);
}
