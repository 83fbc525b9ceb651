use spinachflow::lattice::{Lattice, Merge, MaxMerge, MinMerge, SetUnionRepr};

#[test]
fn max_merge_keeps_the_larger() {
    let mut l = Lattice::<MaxMerge<u64>>::new(3);
    l.merge_in(5);
    assert_eq!(*l.as_reveal(), 5);
    l.merge_in(4);
    assert_eq!(*l.as_reveal(), 5);
    assert_eq!(l.into_reveal(), 5);
}

#[test]
fn min_merge_keeps_the_smaller() {
    let mut v: u64 = 7;
    <MinMerge<u64> as Merge>::merge_in(&mut v, 9);
    assert_eq!(v, 7);
    <MinMerge<u64> as Merge>::merge_in(&mut v, 2);
    assert_eq!(v, 2);
}

#[test]
fn max_merge_orders_strings_lexicographically() {
    let mut v = "Hi".to_owned();
    <MaxMerge<String> as Merge>::merge_in(&mut v, "Wah".to_owned());
    assert_eq!(v, "Wah");
    <MaxMerge<String> as Merge>::merge_in(&mut v, "Hah".to_owned());
    assert_eq!(v, "Wah");
    let mut w = "ab".to_owned();
    <MaxMerge<String> as Merge>::merge_in(&mut w, "abc".to_owned());
    assert_eq!(w, "abc");
    let mut m = "abc".to_owned();
    <MinMerge<String> as Merge>::merge_in(&mut m, "ab".to_owned());
    assert_eq!(m, "ab");
}

#[test]
fn set_union_merge_appends() {
    let mut v: Vec<u64> = vec![1, 2];
    <SetUnionRepr<u64> as Merge>::merge_in(&mut v, vec![2, 3]);
    assert_eq!(v, vec![1, 2, 2, 3]);
    let c = <SetUnionRepr<u64> as Merge>::copy(&v);
    assert_eq!(c, v);
}

#[test]
fn merge_order_does_not_matter() {
    let deltas: Vec<u64> = vec![4, 9, 1, 7];
    let mut forward = Lattice::<MaxMerge<u64>>::new(0);
    for d in deltas.iter() {
        forward.merge_in(*d);
    }
    let mut backward = Lattice::<MaxMerge<u64>>::new(0);
    for d in deltas.iter().rev() {
        backward.merge_in(*d);
    }
    assert_eq!(forward.as_reveal(), backward.as_reveal());
    assert_eq!(*forward.as_reveal(), 9);
}

#[test]
fn merging_again_changes_nothing() {
    let mut l = Lattice::<MinMerge<u64>>::new(10);
    l.merge_in(6);
    let once = *l.as_reveal();
    l.merge_in(6);
    assert_eq!(*l.as_reveal(), once);
    assert_eq!(once, 6);
}

#[test]
fn set_union_in_any_order_holds_the_same_set() {
    let deltas: Vec<Vec<u64>> = vec![vec![3], vec![1, 2], vec![3, 4]];
    let mut a = Lattice::<SetUnionRepr<u64>>::new(Vec::new());
    for d in deltas.iter() {
        a.merge_in(d.clone());
    }
    let mut b = Lattice::<SetUnionRepr<u64>>::new(Vec::new());
    for d in deltas.iter().rev() {
        b.merge_in(d.clone());
    }
    let mut sa = a.into_reveal();
    let mut sb = b.into_reveal();
    sa.sort();
    sa.dedup();
    sb.sort();
    sb.dedup();
    assert_eq!(sa, sb);
    assert_eq!(sa, vec![1, 2, 3, 4]);
}
