use lists::simple;
use lists::stack::List;

#[test]
fn simple_basics() {
    let mut list = simple::List::new();

    assert_eq!(list.pop(), None);

    list.push(1);
    list.push(2);
    list.push(3);

    assert_eq!(list.pop(), Some(3));
    assert_eq!(list.pop(), Some(2));

    list.push(4);
    list.push(5);

    assert_eq!(list.pop(), Some(5));
    assert_eq!(list.pop(), Some(4));

    assert_eq!(list.pop(), Some(1));
    assert_eq!(list.pop(), None);
}

#[test]
fn second_basics() {
    let mut list = List::new();

    assert_eq!(list.pop(), None);

    list.push(1);
    list.push(2);
    list.push(3);

    assert_eq!(list.pop(), Some(3));
    assert_eq!(list.pop(), Some(2));

    list.push(4);
    list.push(5);

    assert_eq!(list.pop(), Some(5));
    assert_eq!(list.pop(), Some(4));

    assert_eq!(list.pop(), Some(1));
    assert_eq!(list.pop(), None);
}

#[test]
fn into_iter() {
    let mut list = List::new();
    list.push(1);
    list.push(2);
    list.push(3);

    let mut iter = list.into_iter();
    assert_eq!(iter.next(), Some(3));
    assert_eq!(iter.next(), Some(2));
    assert_eq!(iter.next(), Some(1));
}

#[test]
fn second_iter() {
    let mut list = List::new();
    list.push(1);
    list.push(2);
    list.push(3);

    let mut iter = list.iter();
    assert_eq!(iter.next(), Some(&3));
    assert_eq!(iter.next(), Some(&2));
    assert_eq!(iter.next(), Some(&1));
}

#[test]
fn iter_mut() {
    let mut list = List::new();
    list.push(1);
    list.push(2);
    list.push(3);

    let mut iter = list.iter_mut();
    assert_eq!(iter.next(), Some(&mut 3));
    assert_eq!(iter.next(), Some(&mut 2));
    assert_eq!(iter.next(), Some(&mut 1));
}

#[test]
fn lifo_order() {
    let mut list = List::new();
    list.push(10);
    list.push(20);
    list.push(30);
    list.push(40);

    assert_eq!(list.pop(), Some(40));
    assert_eq!(list.pop(), Some(30));
    assert_eq!(list.pop(), Some(20));
    assert_eq!(list.pop(), Some(10));
    assert_eq!(list.pop(), None);
}

#[test]
fn pop_empty_repeatedly() {
    let mut list: List<i32> = List::new();
    assert_eq!(list.pop(), None);
    assert_eq!(list.pop(), None);
    assert_eq!(list.pop(), None);
}

#[test]
fn peek_and_peek_mut() {
    let mut list = List::new();
    assert_eq!(list.peek(), None);
    assert_eq!(list.peek_mut(), None);

    list.push(1);
    list.push(2);

    assert_eq!(list.peek(), Some(&2));
    assert_eq!(list.peek(), Some(&2));

    if let Some(top) = list.peek_mut() {
        *top = 42;
    }

    assert_eq!(list.peek(), Some(&42));
    assert_eq!(list.pop(), Some(42));
    assert_eq!(list.pop(), Some(1));
    assert_eq!(list.pop(), None);
}

#[test]
fn into_iter_exhausts() {
    let mut list = List::new();
    list.push(1);
    list.push(2);

    let mut iter = list.into_iter();
    assert_eq!(iter.next(), Some(2));
    assert_eq!(iter.next(), Some(1));
    assert_eq!(iter.next(), None);
    assert_eq!(iter.next(), None);
}

#[test]
fn iter_twice_same_sequence() {
    let mut list = List::new();
    list.push(1);
    list.push(2);
    list.push(3);

    let mut first = Vec::new();
    let mut iter = list.iter();
    while let Some(e) = iter.next() {
        first.push(*e);
    }

    let mut second = Vec::new();
    let mut iter = list.iter();
    while let Some(e) = iter.next() {
        second.push(*e);
    }

    assert_eq!(first, vec![3, 2, 1]);
    assert_eq!(second, vec![3, 2, 1]);
    assert_eq!(list.pop(), Some(3));
}

#[test]
fn iter_mut_writes_are_visible() {
    let mut list = List::new();
    list.push(1);
    list.push(2);
    list.push(3);

    let mut iter = list.iter_mut();
    if let Some(top) = iter.next() {
        *top = 99;
    }
    assert_eq!(iter.next(), Some(&mut 2));
    assert_eq!(iter.next(), Some(&mut 1));
    assert_eq!(iter.next(), None);

    assert_eq!(list.peek(), Some(&99));
    assert_eq!(list.pop(), Some(99));
    assert_eq!(list.pop(), Some(2));
    assert_eq!(list.pop(), Some(1));
}

#[test]
fn long_simple_list_teardown() {
    let mut list = simple::List::new();
    for i in 0..200_000 {
        list.push(i);
    }
    assert_eq!(list.pop(), Some(199_999));
    drop(list);
}

#[test]
fn long_owned_list_teardown() {
    let mut list = List::new();
    for i in 0..200_000 {
        list.push(i);
    }
    assert_eq!(list.peek(), Some(&199_999));
    drop(list);
}
