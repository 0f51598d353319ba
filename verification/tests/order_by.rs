use order_struct::order_by::OrderBy;
use std::cmp::Ordering;

fn natural(a: &i32, b: &i32) -> Ordering {
    a.cmp(b)
}

#[test]
fn reversed_comparator_turns_the_order() {
    let rev = |a: &i32, b: &i32| b.cmp(a);
    assert_eq!(OrderBy::new(3, rev).cmp(&OrderBy::new(5, rev)), Ordering::Greater);
    assert_eq!(OrderBy::new(5, rev).cmp(&OrderBy::new(3, rev)), Ordering::Less);
    assert_eq!(OrderBy::new(4, rev).cmp(&OrderBy::new(4, rev)), Ordering::Equal);
}

#[test]
fn natural_comparator_keeps_the_order() {
    assert_eq!(OrderBy::new(3, natural).cmp(&OrderBy::new(5, natural)), Ordering::Less);
    assert_eq!(OrderBy::new(5, natural).cmp(&OrderBy::new(3, natural)), Ordering::Greater);
    assert_eq!(
        OrderBy::new(i32::MIN, natural).cmp(&OrderBy::new(i32::MAX, natural)),
        Ordering::Less
    );
}

#[test]
fn order_by_into_inner_returns_the_value() {
    assert_eq!(OrderBy::new(String::from("kept"), |_: &String, _: &String| Ordering::Less).into_inner(), "kept");
}

#[test]
fn order_by_partial_cmp_always_answers() {
    let rev = |a: &i32, b: &i32| b.cmp(a);
    assert_eq!(OrderBy::new(1, rev).partial_cmp(&OrderBy::new(2, rev)), Some(Ordering::Greater));
    assert_eq!(OrderBy::new(2, rev).partial_cmp(&OrderBy::new(1, rev)), Some(Ordering::Less));
    assert_eq!(OrderBy::new(2, rev).partial_cmp(&OrderBy::new(2, rev)), Some(Ordering::Equal));
}

#[test]
fn order_by_eq_is_what_the_comparator_calls_equal() {
    let by_len = |a: &&str, b: &&str| a.len().cmp(&b.len());
    assert!(OrderBy::new("abc", by_len).eq(&OrderBy::new("xyz", by_len)));
    assert!(!OrderBy::new("abc", by_len).eq(&OrderBy::new("abcd", by_len)));
    let never = |_: &i32, _: &i32| Ordering::Less;
    assert!(!OrderBy::new(1, never).eq(&OrderBy::new(1, never)));
}

#[test]
fn comparison_uses_the_left_comparator_each_time() {
    let calls = std::cell::Cell::new(0u32);
    let counting = |a: &i32, b: &i32| {
        calls.set(calls.get() + 1);
        a.cmp(b)
    };
    let x = OrderBy::new(1, &counting);
    let y = OrderBy::new(2, &counting);
    assert_eq!(x.cmp(&y), Ordering::Less);
    assert_eq!(x.cmp(&y), Ordering::Less);
    assert!(!x.eq(&y));
    assert_eq!(calls.get(), 3);
}

#[test]
fn order_by_clone_compares_equal_to_its_source() {
    let a = OrderBy::new(String::from("seven"), |x: &String, y: &String| x.cmp(y));
    let b = a.clone();
    assert_eq!(a.cmp(&b), Ordering::Equal);
    assert_eq!(b.cmp(&a), Ordering::Equal);
    assert!(a.eq(&b));
    assert_eq!(b.into_inner(), "seven");
    assert_eq!(a.into_inner(), "seven");
}

#[test]
fn order_by_copy_compares_equal_to_its_source() {
    let a = OrderBy::new(7, natural);
    let b = a;
    assert_eq!(a.cmp(&b), Ordering::Equal);
    assert_eq!(b.into_inner(), 7);
    assert_eq!(a.into_inner(), 7);
}

#[test]
fn order_by_laws_hold_under_a_total_order() {
    let rev = |a: &i32, b: &i32| b.cmp(a);
    let vals = [-5, 0, 3, 3, 9];
    for x in vals {
        assert_eq!(OrderBy::new(x, rev).cmp(&OrderBy::new(x, rev)), Ordering::Equal);
        for y in vals {
            let (a, b) = (OrderBy::new(x, rev), OrderBy::new(y, rev));
            assert_eq!(a.cmp(&b) == Ordering::Greater, b.cmp(&a) == Ordering::Less);
            for z in vals {
                let c = OrderBy::new(z, rev);
                if a.cmp(&b) != Ordering::Greater && b.cmp(&c) != Ordering::Greater {
                    assert_ne!(a.cmp(&c), Ordering::Greater);
                }
            }
        }
    }
}

#[test]
fn sorts_by_comparator() {
    let rev = |a: &u8, b: &u8| b.cmp(a);
    let mut v = vec![OrderBy::new(2u8, rev), OrderBy::new(9, rev), OrderBy::new(4, rev)];
    v.sort_by(|x, y| x.cmp(y));
    let out: Vec<u8> = v.into_iter().map(|x| x.into_inner()).collect();
    assert_eq!(out, vec![9, 4, 2]);
}

#[test]
fn root_export_is_the_comparator_adapter() {
    let a: order_struct::OrderBy<i32, fn(&i32, &i32) -> Ordering> = OrderBy::new(1, natural);
    assert_eq!(a.into_inner(), 1);
}
