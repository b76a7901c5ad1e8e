use remem::Pool;
use std::sync::atomic::{AtomicUsize, Ordering};
use std::sync::Arc;

#[test]
fn it_works() {
    let pool = Pool::with_clear(
        || Vec::new(),
        |mut v: Vec<u8>| {
            v.clear();
            v
        },
    );
    let mut item = pool.get();
    item.deref_mut().push(1);
    item.release();

    let mut item = pool.get();
    item.deref_mut().push(1);
    item.release();
}

#[test]
fn reuses_cleared_allocation() {
    let created = Arc::new(AtomicUsize::new(0));
    let counter = Arc::clone(&created);
    let pool = Pool::with_clear(
        move || {
            counter.fetch_add(1, Ordering::SeqCst);
            Vec::new()
        },
        |mut v: Vec<usize>| {
            v.truncate(0);
            v
        },
    );

    // An empty pool creates a fresh, empty vector.
    let mut g = pool.get();
    assert_eq!(created.load(Ordering::SeqCst), 1);
    assert_eq!(g.deref().len(), 0);

    // Write a marker and grow the vector, then release it.
    g.deref_mut().push(7);
    g.deref_mut().push(8);
    g.deref_mut().push(9);
    assert_eq!(g.deref().len(), 3);
    g.release();

    // The next get reuses the same allocation, truncated to length 0:
    // nothing was created anew, the marker is gone, and the capacity the
    // pushes grew is still there.
    let g = pool.get();
    assert_eq!(created.load(Ordering::SeqCst), 1);
    assert_eq!(g.deref().len(), 0);
    assert!(!g.deref().contains(&7));
    assert!(g.deref().capacity() >= 3);
    g.release();
}

#[test]
fn shared_across_handles() {
    let created = Arc::new(AtomicUsize::new(0));
    let counter = Arc::clone(&created);
    let pool = Pool::with_clear(
        move || {
            counter.fetch_add(1, Ordering::SeqCst);
            Vec::new()
        },
        |mut v: Vec<u64>| {
            v.truncate(0);
            v
        },
    );
    let first = pool.clone();
    let second = pool.clone();

    // An item released through one cloned handle is obtainable through
    // another handle to the same pool.
    let mut g = first.get();
    g.deref_mut().push(5);
    g.release();

    let g = second.get();
    assert_eq!(created.load(Ordering::SeqCst), 1);
    assert_eq!(g.deref().len(), 0);
    g.release();
}

#[test]
fn new_keeps_items_as_they_are() {
    let pool = Pool::new(|| Vec::<u8>::new());
    let mut g = pool.get();
    g.deref_mut().push(9);
    g.release();

    // A pool built by `new` has a no-op clear: the released item comes back
    // exactly as it went in.
    let g = pool.get();
    assert_eq!(g.deref().as_slice(), &[9]);
    g.release();
}

#[test]
fn concurrent_get_release_cycles() {
    let created = Arc::new(AtomicUsize::new(0));
    let counter = Arc::clone(&created);
    let pool = Pool::with_clear(
        move || {
            counter.fetch_add(1, Ordering::SeqCst);
            Vec::new()
        },
        |mut v: Vec<usize>| {
            v.truncate(0);
            v
        },
    );

    crossbeam_utils::thread::scope(|scope| {
        for t in 0..10usize {
            let handle = pool.clone();
            scope.spawn(move |_| {
                for i in 0..1000usize {
                    let mut g = handle.get();
                    // Every item is sanitized before reuse.
                    assert_eq!(g.deref().len(), 0);
                    g.deref_mut().push(t * 1000 + i);
                    // The lease is exclusive: nobody else wrote to the item.
                    assert_eq!(g.deref().len(), 1);
                    g.release();
                }
            });
        }
    })
    .unwrap();

    // Each thread holds at most one item at a time, so at most ten items
    // were ever created, and after all releases they all sit in the pool.
    assert!(created.load(Ordering::SeqCst) <= 10);
}
