use persistent_stack::Stack;

fn values<'a, T: Clone>(s: &'a Stack<'a, T>) -> Vec<T> {
    let mut out = Vec::new();
    let mut it = s.iter();
    while let Some(v) = it.next() {
        out.push(v.clone());
    }
    out
}

fn frames<'a, T: Clone>(s: &'a Stack<'a, T>) -> Vec<Vec<T>> {
    let mut out = Vec::new();
    let mut it = s.iter_frames();
    while let Some(h) = it.next() {
        out.push(values(h));
    }
    out
}

#[test]
fn it_works() {
    let stack = Stack::new();

    println!("{}", stack.render());

    let a = stack.push("hoge a");
    let b = stack.push("hoge b");

    println!("{}", a.render());
    println!("{}", b.render());

    let aa = a.push("fuga aa");
    let ab = a.push("fuga ab");
    let ba = b.push("fuga ba");
    let bb = b.push("fuga bb");

    println!("{}", aa.render());
    println!("{}", ab.render());
    println!("{}", ba.render());
    println!("{}", bb.render());
}

#[test]
fn pushes_come_back_in_reverse() {
    let s0: Stack<u32> = Stack::new();
    let s1 = s0.push(1);
    let s2 = s1.push(2);
    let s3 = s2.push(3);
    assert_eq!(values(&s3), vec![3, 2, 1]);
    assert_eq!(values(&s0), Vec::<u32>::new());
}

#[test]
fn pop_empty_and_after_push() {
    let s0: Stack<u32> = Stack::new();
    assert_eq!(Stack::<u32>::new().pop(), None);
    let s1 = s0.push(5);
    let s2 = s1.push(7);
    assert_eq!(s2.pop(), Some(7));
    assert_eq!(values(&s1), vec![5]);
    assert_eq!(s1.peek(), Some(&5));
}

#[test]
fn peek_changes_nothing() {
    let s0: Stack<u32> = Stack::new();
    assert_eq!(s0.peek(), None);
    let s1 = s0.push(4);
    let s2 = s1.push(9);
    let before = values(&s2);
    assert_eq!(s2.peek(), Some(&9));
    assert_eq!(s2.peek(), Some(&9));
    assert_eq!(values(&s2), before);
}

#[test]
fn clone_is_equal() {
    let s0 = Stack::new();
    let s1 = s0.push("x");
    let s2 = s1.push("y");
    let c = s2.clone();
    assert!(c == s2);
    assert_eq!(values(&c), values(&s2));
    let e: Stack<&str> = Stack::new();
    assert!(e.clone() == e);
}

#[test]
fn same_pushes_from_two_roots_are_equal() {
    let r1: Stack<u32> = Stack::new();
    let r2: Stack<u32> = Stack::new();
    assert!(r1 == r2);
    let a1 = r1.push(1);
    let a2 = a1.push(2);
    let b1 = r2.push(1);
    let b2 = b1.push(2);
    assert!(a2 == b2);
    let c2 = b1.push(3);
    assert!(a2 != c2);
    assert!(a1 != a2);
    assert!(r1 != a1);
}

#[test]
fn push_then_pop_round_trip() {
    let s0: Stack<u32> = Stack::new();
    let s1 = s0.push(10);
    let s2 = s1.push(20);
    let mut it = s2.iter_frames();
    assert!(it.next().is_some());
    let below = it.next().unwrap();
    assert!(*below == s1);
    assert_eq!(s2.pop(), Some(20));
    assert_eq!(values(&s1), vec![10]);
}

#[test]
fn branches_scenario() {
    let s0 = Stack::new();
    let a = s0.push("a");
    let b = s0.push("b");
    let aa = a.push("aa");
    assert_eq!(values(&aa), vec!["aa", "a"]);
    assert_eq!(values(&b), vec!["b"]);
    assert!(a != b);
    assert_eq!(aa.render(), "[<top>, aa, a, <base>]");
}

#[test]
fn frames_scenario() {
    let s0 = Stack::new();
    let a = s0.push("a");
    let aa = a.push("aa");
    assert_eq!(frames(&aa), vec![vec!["aa", "a"], vec!["a"]]);
    let mut it = aa.iter_frames();
    assert!(*it.next().unwrap() == aa);
    assert!(*it.next().unwrap() == a);
    assert!(it.next().is_none());
    assert!(it.next().is_none());
}

#[test]
fn empty_renders_markers_only() {
    let s0: Stack<&str> = Stack::new();
    assert_eq!(s0.render(), "[<top>, <base>]");
    let s1 = s0.push("only");
    assert_eq!(s1.render(), "[<top>, only, <base>]");
}

#[test]
fn empty_iterators_end_at_once() {
    let s0: Stack<u32> = Stack::new();
    let mut it = s0.iter();
    assert!(it.next().is_none());
    assert!(it.next().is_none());
    assert_eq!(frames(&s0), Vec::<Vec<u32>>::new());
}

#[test]
fn iterators_copy_and_compare_by_position() {
    let s0: Stack<u32> = Stack::new();
    let s1 = s0.push(1);
    let s2 = s1.push(2);
    let mut it = s2.iter();
    let start = it.clone();
    assert!(it == start);
    assert_eq!(it.next(), Some(&2));
    assert!(it != start);
    let mut again = start.clone();
    assert_eq!(again.next(), Some(&2));
    assert!(again == it);

    let mut frames_it = s2.iter_frames();
    let frames_start = frames_it.clone();
    assert!(frames_it == frames_start);
    assert!(frames_it.next().is_some());
    assert!(frames_it != frames_start);
}
