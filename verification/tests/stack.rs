use remem::treiber_stack::TreiberStack;

#[test]
fn lifo_order() {
    let mut s = TreiberStack::new();
    s.push('a');
    s.push('b');
    assert_eq!(s.pop(), Some('b'));
    assert_eq!(s.pop(), Some('a'));
    assert_eq!(s.pop(), None);
}

#[test]
fn empty_stack() {
    let mut s: TreiberStack<u32> = TreiberStack::new();
    assert!(s.is_empty());
    assert_eq!(s.pop(), None);
    s.push(1);
    assert!(!s.is_empty());
    assert_eq!(s.pop(), Some(1));
    assert!(s.is_empty());
}

#[test]
fn conservation() {
    let mut s = TreiberStack::new();
    for i in 0..100u64 {
        s.push(i);
    }
    let mut popped = Vec::new();
    while let Some(v) = s.pop() {
        popped.push(v);
    }
    // Exactly the pushed items come back, in reverse order, and the stack
    // is left empty: nothing is lost, nothing is duplicated.
    assert_eq!(popped.len(), 100);
    assert!(s.is_empty());
    for i in 0..100u64 {
        assert_eq!(popped[(99 - i) as usize], i);
    }
}
