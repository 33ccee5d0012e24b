use linked_lists::second::{IntoIter, Iter, IterMut, List};

#[test]
fn second_basics() {
    let mut list: List<i32> = List::new();

    assert_eq!(list.pop(), None);

    list.push(1);
    list.push(2);
    list.push(3);

    assert_eq!(list.pop(), Some(3));
    assert_eq!(list.pop(), Some(2));

    list.push(5);
    list.push(4);

    assert_eq!(list.pop(), Some(4));
    assert_eq!(list.pop(), Some(5));

    assert_eq!(list.pop(), Some(1));
    assert_eq!(list.pop(), None);
}

#[test]
fn peek() {
    let mut list: List<i32> = List::new();

    assert_eq!(list.peek(), None);
    assert_eq!(list.peek_mut(), None);

    list.push(1);
    list.push(2);
    list.push(3);

    assert_eq!(list.peek(), Some(&3));
    assert_eq!(list.peek_mut(), Some(&mut 3));

    list.peek_mut().map(|value: &mut i32| {
        *value = 42
    });

    assert_eq!(list.peek(), Some(&42));
    assert_eq!(list.pop(), Some(42));
}

#[test]
fn into_iter() {
    let mut list: List<i32> = List::new();

    list.push(1);
    list.push(2);
    list.push(3);

    let mut iter: IntoIter<i32> = list.into_iter();
    assert_eq!(iter.next(), Some(3));
    assert_eq!(iter.next(), Some(2));
    assert_eq!(iter.next(), Some(1));
    assert_eq!(iter.next(), None);
}

#[test]
fn iter() {
    let mut list: List<i32> = List::new();

    list.push(1);
    list.push(2);
    list.push(3);

    let mut iter: Iter<i32> = list.iter();
    assert_eq!(iter.next(), Some(&3));
    assert_eq!(iter.next(), Some(&2));
    assert_eq!(iter.next(), Some(&1));
    assert_eq!(iter.next(), None);
}

#[test]
fn iter_mut() {
    let mut list: List<i32> = List::new();

    list.push(1);
    list.push(2);
    list.push(3);

    let mut iter: IterMut<i32> = list.iter_mut();
    assert_eq!(iter.next(), Some(&mut 3));
    assert_eq!(iter.next(), Some(&mut 2));
    assert_eq!(iter.next(), Some(&mut 1));
    assert_eq!(iter.next(), None);
}

#[test]
fn second_empty_safety() {
    let mut list: List<String> = List::new();
    assert_eq!(list.pop(), None);
    assert_eq!(list.peek(), None);
    assert_eq!(list.peek_mut(), None);
    assert_eq!(list.pop(), None);
    assert_eq!(list.peek(), None);
    assert_eq!(list.iter().next(), None);
    assert_eq!(list.iter_mut().next(), None);
    list.push(String::from("a"));
    assert_eq!(list.peek(), Some(&String::from("a")));
    assert_eq!(list.pop(), Some(String::from("a")));
    assert_eq!(list.pop(), None);
    assert_eq!(list.into_iter().next(), None);
}

#[test]
fn second_lifo_order() {
    let mut list: List<u64> = List::new();
    let pushed: Vec<u64> = vec![9, 8, 8, 0, u64::MAX, 1];
    for e in pushed.iter() {
        list.push(*e);
    }
    for e in pushed.iter().rev() {
        assert_eq!(list.pop(), Some(*e));
    }
    assert_eq!(list.pop(), None);
}

#[test]
fn second_peek_does_not_remove() {
    let mut list: List<i32> = List::new();
    list.push(1);
    list.push(2);
    assert_eq!(list.peek(), Some(&2));
    assert_eq!(list.peek(), Some(&2));
    assert_eq!(list.pop(), Some(2));
    assert_eq!(list.peek(), Some(&1));
}

#[test]
fn second_peek_mut_changes_only_the_top() {
    let mut list: List<i32> = List::new();
    list.push(1);
    list.push(2);
    list.push(3);
    match list.peek_mut() {
        Some(value) => *value = 42,
        None => panic!("peek_mut on a stack of three"),
    }
    assert_eq!(list.pop(), Some(42));
    assert_eq!(list.pop(), Some(2));
    assert_eq!(list.pop(), Some(1));
    assert_eq!(list.pop(), None);
}

#[test]
fn second_exhausted_traversals_stay_exhausted() {
    let mut list: List<i32> = List::new();
    list.push(1);

    let mut by_ref: Iter<i32> = list.iter();
    assert_eq!(by_ref.next(), Some(&1));
    assert_eq!(by_ref.next(), None);
    assert_eq!(by_ref.next(), None);
    assert_eq!(by_ref.next(), None);

    let mut by_mut: IterMut<i32> = list.iter_mut();
    assert_eq!(by_mut.next(), Some(&mut 1));
    assert_eq!(by_mut.next(), None);
    assert_eq!(by_mut.next(), None);
    assert_eq!(by_mut.next(), None);

    let mut by_value: IntoIter<i32> = list.into_iter();
    assert_eq!(by_value.next(), Some(1));
    assert_eq!(by_value.next(), None);
    assert_eq!(by_value.next(), None);
    assert_eq!(by_value.next(), None);
}

#[test]
fn second_iter_is_restartable_and_leaves_the_stack() {
    let mut list: List<i32> = List::new();
    list.push(1);
    list.push(2);
    list.push(3);

    let mut once: Iter<i32> = list.iter();
    assert_eq!(once.next(), Some(&3));
    assert_eq!(once.next(), Some(&2));

    let mut again: Iter<i32> = list.iter();
    assert_eq!(again.next(), Some(&3));
    assert_eq!(again.next(), Some(&2));
    assert_eq!(again.next(), Some(&1));
    assert_eq!(again.next(), None);

    assert_eq!(list.pop(), Some(3));
    assert_eq!(list.pop(), Some(2));
    assert_eq!(list.pop(), Some(1));
    assert_eq!(list.pop(), None);
}

#[test]
fn second_iter_mut_writes_reach_the_stack() {
    let mut list: List<i32> = List::new();
    list.push(1);
    list.push(2);
    list.push(3);

    let mut iter: IterMut<i32> = list.iter_mut();
    match iter.next() {
        Some(value) => *value = 30,
        None => panic!("first step on a stack of three"),
    }
    match iter.next() {
        Some(value) => *value += 18,
        None => panic!("second step on a stack of three"),
    }

    assert_eq!(list.pop(), Some(30));
    assert_eq!(list.pop(), Some(20));
    assert_eq!(list.pop(), Some(1));
    assert_eq!(list.pop(), None);
}

#[test]
fn second_iter_mut_keeps_earlier_references_alive() {
    let mut list: List<i32> = List::new();
    list.push(1);
    list.push(2);
    list.push(3);

    let mut iter: IterMut<i32> = list.iter_mut();
    let a: &mut i32 = iter.next().unwrap();
    let b: &mut i32 = iter.next().unwrap();
    let c: &mut i32 = iter.next().unwrap();
    assert_eq!(iter.next(), None);
    *c = 100;
    *a = 300;
    *b = 200;

    let mut seen: Iter<i32> = list.iter();
    assert_eq!(seen.next(), Some(&300));
    assert_eq!(seen.next(), Some(&200));
    assert_eq!(seen.next(), Some(&100));
    assert_eq!(seen.next(), None);
}

#[test]
fn second_into_iter_partial_then_drop() {
    let mut list: List<String> = List::new();
    list.push(String::from("x"));
    list.push(String::from("y"));
    list.push(String::from("z"));
    let mut iter: IntoIter<String> = list.into_iter();
    assert_eq!(iter.next(), Some(String::from("z")));
    drop(iter);
}

#[test]
fn second_deep_chain_teardown() {
    let mut list: List<u32> = List::new();
    for i in 0..200_000u32 {
        list.push(i);
    }
    assert_eq!(list.peek(), Some(&199_999));
    drop(list);

    let mut owned: List<u32> = List::new();
    for i in 0..200_000u32 {
        owned.push(i);
    }
    let mut iter: IntoIter<u32> = owned.into_iter();
    assert_eq!(iter.next(), Some(199_999));
    drop(iter);
}
