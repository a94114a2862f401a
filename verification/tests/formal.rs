use rcp::formal::{check_all, witness, Invariant};

#[test]
fn invariant_passes_when_predicate_true() {
    let inv = Invariant::new("non-negative", |x: &i32| *x >= 0);
    let result = check_all(&42i32, std::slice::from_ref(&inv));
    assert!(result.all_passed());
}

#[test]
fn invariant_fails_when_predicate_false() {
    let inv = Invariant::new("always-false", |_: &i32| false);
    let result = check_all(&0i32, std::slice::from_ref(&inv));
    assert!(!result.all_passed());
    assert_eq!(result.failed, vec!["always-false"]);
}

#[test]
fn check_result_tracks_pass_fail() {
    let invs = vec![
        Invariant::new("pass", Box::new(|x: &i32| *x >= 0) as Box<dyn Fn(&i32) -> bool>),
        Invariant::new("fail", Box::new(|x: &i32| *x < 0) as Box<dyn Fn(&i32) -> bool>),
    ];
    let r = check_all(&5i32, &invs);
    assert_eq!(r.passed, vec!["pass"]);
    assert_eq!(r.failed, vec!["fail"]);
}

#[test]
fn witness_finds_first_violation() {
    let inv = Invariant::new("positive", |x: &i32| *x > 0);
    let states = vec![1, 2, -1, 3, -2];
    let w = witness(&states, &inv).unwrap();
    assert_eq!(w, -1);
}

#[test]
fn witness_returns_none_when_no_violation() {
    let inv = Invariant::new("positive", |x: &i32| *x > 0);
    let states = vec![1, 2, 3];
    assert!(witness(&states, &inv).is_none());
}

#[test]
fn check_all_keeps_list_order_in_both_lists() {
    let invs: Vec<Invariant<Box<dyn Fn(&i32) -> bool>>> = vec![
        Invariant::new("a-fail", Box::new(|x: &i32| *x > 100)),
        Invariant::new("b-pass", Box::new(|x: &i32| *x > 0)),
        Invariant::new("c-fail", Box::new(|x: &i32| *x < 0)),
        Invariant::new("d-pass", Box::new(|x: &i32| *x == 5)),
    ];
    let r = check_all(&5i32, &invs);
    assert_eq!(r.passed, vec!["b-pass", "d-pass"]);
    assert_eq!(r.failed, vec!["a-fail", "c-fail"]);
}

#[test]
fn check_all_on_no_invariants_passes() {
    let invs: Vec<Invariant<fn(&i32) -> bool>> = Vec::new();
    let r = check_all(&5i32, &invs);
    assert!(r.all_passed());
    assert!(r.passed.is_empty());
}

#[test]
fn witness_on_empty_trace_is_none() {
    let inv = Invariant::new("positive", |x: &i32| *x > 0);
    let states: Vec<i32> = Vec::new();
    assert!(witness(&states, &inv).is_none());
}

#[test]
fn invariant_check_evaluates_predicate() {
    let inv = Invariant::new("even", |x: &u8| *x % 2 == 0);
    assert!(inv.check(&4u8));
    assert!(!inv.check(&5u8));
    assert_eq!(inv.name, "even");
}
