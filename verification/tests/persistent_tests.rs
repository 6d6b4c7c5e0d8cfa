use lists::persistent::List;

#[test]
fn third_basics() {
    let list = List::new();
    assert_eq!(list.head(), None);

    let list = list.append(1).append(2).append(3);
    assert_eq!(list.head(), Some(&3));

    let list = list.tail().unwrap();
    assert_eq!(list.head(), Some(&2));

    let list = list.tail().unwrap();
    assert_eq!(list.head(), Some(&1));

    let list = list.tail().unwrap();
    assert_eq!(list.head(), None);

    // Make sure empty tail works
    let listm: Option<List<i32>> = list.tail();
    assert_eq!(listm.is_none(), true);
}

#[test]
fn third_iter() {
    let list = List::new().append(1).append(2).append(3);

    let mut iter = list.iter();
    assert_eq!(iter.next(), Some(&3));
    assert_eq!(iter.next(), Some(&2));
    assert_eq!(iter.next(), Some(&1));
}

#[test]
fn shared_base_stays_valid() {
    let base = List::new().append(1).append(2);

    let left = base.append(10);
    let right = base.append(20);

    assert_eq!(left.head(), Some(&10));
    assert_eq!(right.head(), Some(&20));

    let left_tail = left.tail().unwrap();
    assert_eq!(left_tail.head(), Some(&2));

    drop(left);
    drop(left_tail);

    let mut iter = right.iter();
    assert_eq!(iter.next(), Some(&20));
    assert_eq!(iter.next(), Some(&2));
    assert_eq!(iter.next(), Some(&1));
    assert_eq!(iter.next(), None);

    assert_eq!(base.head(), Some(&2));
}

#[test]
fn append_leaves_original_untouched() {
    let base = List::new().append(7);
    let bigger = base.append(8);

    assert_eq!(base.head(), Some(&7));
    assert_eq!(bigger.head(), Some(&8));

    let mut iter = base.iter();
    assert_eq!(iter.next(), Some(&7));
    assert_eq!(iter.next(), None);
}

#[test]
fn long_persistent_list_teardown() {
    let mut list = List::new();
    for i in 0..200_000 {
        list = list.append(i);
    }
    assert_eq!(list.head(), Some(&199_999));
    drop(list);
}

#[test]
fn teardown_stops_at_shared_tail() {
    let mut base = List::new();
    for i in 0..200_000 {
        base = base.append(i);
    }

    let derived = base.append(-1);
    drop(derived);

    assert_eq!(base.head(), Some(&199_999));
    let tail = base.tail().unwrap();
    drop(base);
    assert_eq!(tail.head(), Some(&199_998));
}
