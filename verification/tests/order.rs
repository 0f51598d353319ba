use order_struct::order::OrderVal;
use std::cmp::Ordering;

/// A value with no equality and no order of its own.
struct Opaque {
    tag: &'static str,
}

#[test]
fn new_keeps_value_and_score() {
    let a = OrderVal::new("task", 7);
    assert_eq!(a.ord(), 7);
    assert_eq!(a.into_inner(), "task");
}

#[test]
fn into_inner_returns_what_new_wrapped() {
    for k in [0u32, 1, 10, u32::MAX] {
        assert_eq!(OrderVal::new(String::from("payload"), k).into_inner(), "payload");
        assert_eq!(OrderVal::new(-3i64, k).into_inner(), -3);
    }
}

#[test]
fn cmp_follows_the_scores() {
    let low = OrderVal::new('z', 1);
    let mid = OrderVal::new('a', 2);
    let top = OrderVal::new('m', u32::MAX);
    let zero = OrderVal::new('q', 0);
    assert_eq!(low.cmp(&mid), Ordering::Less);
    assert_eq!(mid.cmp(&low), Ordering::Greater);
    assert_eq!(mid.cmp(&mid), Ordering::Equal);
    assert_eq!(zero.cmp(&top), Ordering::Less);
    assert_eq!(top.cmp(&zero), Ordering::Greater);
    assert_eq!(top.cmp(&OrderVal::new('x', u32::MAX)), Ordering::Equal);
}

#[test]
fn equal_scores_are_equal_whatever_the_values() {
    assert!(OrderVal::new(5, 10) == OrderVal::new(99, 10));
    assert!(OrderVal::new(5, 10) != OrderVal::new(5, 11));
    assert_eq!(OrderVal::new(5, 10).cmp(&OrderVal::new(99, 10)), Ordering::Equal);
}

#[test]
fn values_need_no_equality() {
    let a = OrderVal::new(Opaque { tag: "a" }, 3);
    let b = OrderVal::new(Opaque { tag: "b" }, 3);
    let c = OrderVal::new(Opaque { tag: "c" }, 4);
    assert!(a == b);
    assert!(a < c);
    assert!(c > b);
    assert!(a <= b);
    assert_eq!(c.into_inner().tag, "c");
}

#[test]
fn partial_cmp_always_answers() {
    let a = OrderVal::new((), 1);
    let b = OrderVal::new((), 2);
    assert_eq!(a.partial_cmp(&b), Some(Ordering::Less));
    assert_eq!(b.partial_cmp(&a), Some(Ordering::Greater));
    assert_eq!(a.partial_cmp(&a), Some(Ordering::Equal));
}

#[test]
fn cmp_is_reflexive() {
    for k in [0u32, 1, 77, u32::MAX] {
        let a = OrderVal::new("v", k);
        assert_eq!(a.cmp(&a), Ordering::Equal);
    }
}

#[test]
fn cmp_is_antisymmetric() {
    let keys = [0u32, 1, 2, 1000, u32::MAX];
    for x in keys {
        for y in keys {
            let a = OrderVal::new("a", x);
            let b = OrderVal::new("b", y);
            assert_eq!(a.cmp(&b) == Ordering::Greater, b.cmp(&a) == Ordering::Less);
        }
    }
}

#[test]
fn cmp_is_transitive() {
    let keys = [0u32, 1, 2, 1000, u32::MAX];
    for x in keys {
        for y in keys {
            for z in keys {
                let a = OrderVal::new((), x);
                let b = OrderVal::new((), y);
                let c = OrderVal::new((), z);
                if a.cmp(&b) != Ordering::Greater && b.cmp(&c) != Ordering::Greater {
                    assert_ne!(a.cmp(&c), Ordering::Greater);
                }
            }
        }
    }
}

#[test]
fn sorts_by_score() {
    let mut v = vec![
        OrderVal::new("c", 30),
        OrderVal::new("a", 10),
        OrderVal::new("d", 40),
        OrderVal::new("b", 20),
    ];
    v.sort_by(|x, y| x.cmp(y));
    let names: Vec<&str> = v.into_iter().map(|x| x.into_inner()).collect();
    assert_eq!(names, vec!["a", "b", "c", "d"]);
}

#[test]
fn root_export_is_the_score_adapter() {
    let a: order_struct::OrderVal<u8> = OrderVal::new(1u8, 2);
    assert_eq!(a.ord(), 2);
}
