//! Thread-safe reuse of expensive-to-allocate objects.
//!
//! A [`Pool`] hands out items through [`ItemGuard`] leases. `get` takes an
//! item from the shared free list, or creates a fresh one with the
//! caller-supplied creation function when the free list is empty. Releasing
//! a lease runs the pool's clear function on the item and then returns it to
//! the free list, so a later `get` can reuse the allocation. Cloning a pool
//! handle yields a new handle to the same shared state, so handles can be
//! sent to other threads and items released through one handle can be
//! obtained through another.

use std::sync::Arc;
use vstd::prelude::*;

pub mod treiber_stack;

verus! {

/// Declares crossbeam's unbounded concurrent queue, the pool's free list.
/// The queue is shared between threads, so nothing stable can be said of its
/// contents: every operation below is specified only over its own arguments
/// and result.
#[verifier::external_type_specification]
#[verifier::external_body]
#[verifier::reject_recursive_types(T)]
pub struct ExSegQueue<T>(crossbeam_queue::SegQueue<T>);

/// Relies on SegQueue::push: stores the value in the shared queue; it always
/// succeeds and returns nothing, and concurrent callers may remove the value
/// at any time, so there is nothing further to state.
pub assume_specification<T>[ crossbeam_queue::SegQueue::<T>::push ](
    q: &crossbeam_queue::SegQueue<T>,
    value: T,
);

/// Relies on SegQueue::pop: removes and returns one previously stored value,
/// or returns `None`; which value comes back depends on the interleaving with
/// concurrent pushes and pops, so no more can be promised of the result.
pub assume_specification<T>[ crossbeam_queue::SegQueue::<T>::pop ](
    q: &crossbeam_queue::SegQueue<T>,
) -> (popped: Option<T>);

/// Relies on SegQueue::new: creates an empty queue.
#[verifier::external_body]
fn seg_queue_new<T>() -> (q: crossbeam_queue::SegQueue<T>) {
    crossbeam_queue::SegQueue::new()
}

/// Relies on Arc::clone: the result is a handle to the same allocation as the
/// argument, so the two hold equal values.
#[verifier::external_body]
fn arc_clone<T>(v: &Arc<T>) -> (res: Arc<T>)
    ensures
        res == *v,
{
    Arc::clone(v)
}

/// A sanitizer: scrubs a previously used item before it re-enters the free
/// list. `clears` names the pre- and post-state pairs the sanitizer can
/// produce, and `clear` is proved to stay within them.
pub trait Clearer<T>: Sized {
    /// Whether the sanitizer may be invoked.
    spec fn callable(&self) -> bool;

    /// Whether `post` is a state this sanitizer can leave behind when run on
    /// an item in state `pre`.
    spec fn clears(&self, pre: T, post: T) -> bool;

    /// Runs the sanitizer on one item.
    fn clear(&self, item: T) -> (cleared: T)
        requires
            self.callable(),
        ensures
            self.clears(item, cleared),
    ;
}

/// The sanitizer of a pool built by [`Pool::new`]: it leaves the item as it
/// is.
pub struct NoClear;

impl<T> Clearer<T> for NoClear {
    open spec fn callable(&self) -> bool {
        true
    }

    open spec fn clears(&self, pre: T, post: T) -> bool {
        post == pre
    }

    fn clear(&self, item: T) -> (cleared: T) {
        item
    }
}

/// A sanitizer given as a closure that takes the used item and returns the
/// scrubbed one, as [`Pool::with_clear`] takes it.
pub struct FnClear<D>(pub D);

impl<T, D: Fn(T) -> T> Clearer<T> for FnClear<D> {
    open spec fn callable(&self) -> bool {
        forall|t: T| call_requires(self.0, (t,))
    }

    open spec fn clears(&self, pre: T, post: T) -> bool {
        call_ensures(self.0, (pre,), post)
    }

    fn clear(&self, item: T) -> (cleared: T) {
        (self.0)(item)
    }
}

/// What a closure sanitizer scrubs to is exactly what its closure can
/// return. Spelled out as a lemma so that it is available where the closure
/// is a literal, whose type the trait machinery does not unfold on its own.
pub proof fn lemma_fn_clear_clears<T, D: Fn(T) -> T>(clear: FnClear<D>, pre: T, post: T)
    ensures
        clear.clears(pre, post) == call_ensures(clear.0, (pre,), post),
{
}

/// The state shared by every handle to one pool: the free list, the creation
/// function and the sanitizer.
#[verifier::reject_recursive_types(T)]
struct Internal<T, C, S> {
    queue: crossbeam_queue::SegQueue<T>,
    create: C,
    clear: S,
}

impl<T, C: Fn() -> T, S: Clearer<T>> Internal<T, C, S> {
    fn new(create: C, clear: S) -> (internal: Internal<T, C, S>)
        ensures
            internal.create == create,
            internal.clear == clear,
    {
        Internal { queue: seg_queue_new(), create, clear }
    }
}

/// A pool of reusable memory.
#[verifier::reject_recursive_types(T)]
pub struct Pool<T, C, S> {
    internal: Arc<Internal<T, C, S>>,
}

impl<T, C: Fn() -> T, S: Clearer<T>> Pool<T, C, S> {
    /// The creation function shared by every handle to this pool.
    pub closed spec fn create_fn(&self) -> C {
        self.internal.create
    }

    /// The sanitizer shared by every handle to this pool.
    pub closed spec fn clearer(&self) -> S {
        self.internal.clear
    }

    /// A pool is well formed when its creation function and its sanitizer may
    /// be invoked; every handle it issues keeps this.
    pub open spec fn wf(&self) -> bool {
        &&& call_requires(self.create_fn(), ())
        &&& self.clearer().callable()
    }

    /// Get an item from the pool: the free list if it has one, else a fresh
    /// item from the creation function.
    pub fn get(&self) -> (guard: ItemGuard<T, C, S>)
        requires
            self.wf(),
        ensures
            guard.wf(),
            guard.pool() == *self,
    {
        let popped = (self.internal.queue).pop();
        let item = self.unwrap_or_create(popped);
        ItemGuard { item: Some(item), pool: self.clone() }
    }

    /// The get-or-create decision of `get`, verified for every value the free
    /// list can hand back.
    fn unwrap_or_create(&self, popped: Option<T>) -> (item: T)
        requires
            popped is None ==> call_requires(self.create_fn(), ()),
        ensures
            match popped {
                Some(p) => item == p,
                None => call_ensures(self.create_fn(), (), item),
            },
    {
        match popped {
            Some(t) => t,
            None => (self.internal.create)(),
        }
    }

    /// Store an item back inside the pool: run the sanitizer, then push the
    /// result onto the free list. Returns, as ghost information, the value
    /// that re-entered the free list.
    fn push(&self, item: T) -> (returned: Ghost<T>)
        requires
            self.wf(),
        ensures
            self.clearer().clears(item, returned@),
    {
        let cleared = (self.internal.clear).clear(item);
        let returned: Ghost<T> = Ghost(cleared);
        (self.internal.queue).push(cleared);
        returned
    }
}

impl<T, C: Fn() -> T, D: Fn(T) -> T> Pool<T, C, FnClear<D>> {
    /// Create a new Pool from an initializer function and a clear function.
    ///
    /// The clear function takes an item whenever an [`ItemGuard`] is
    /// released and returns the value that re-enters the free list, and is
    /// the opportunity to scrub potentially sensitive state out of the used
    /// item. Should the clear function panic, the item is discarded and
    /// never reaches the free list, so an unscrubbed item cannot re-enter
    /// circulation.
    pub fn with_clear(create: C, clear: D) -> (pool: Pool<T, C, FnClear<D>>)
        requires
            call_requires(create, ()),
            forall|t: T| call_requires(clear, (t,)),
        ensures
            pool.wf(),
            pool.create_fn() == create,
            pool.clearer() == (FnClear(clear)),
    {
        Pool { internal: Arc::new(Internal::new(create, FnClear(clear))) }
    }
}

impl<T, C: Fn() -> T> Pool<T, C, NoClear> {
    /// Create a new Pool from an initializer function. Items return to the
    /// free list as they are: the pool's sanitizer does nothing.
    pub fn new(create: C) -> (pool: Pool<T, C, NoClear>)
        requires
            call_requires(create, ()),
        ensures
            pool.wf(),
            pool.create_fn() == create,
            pool.clearer() == NoClear,
    {
        Pool { internal: Arc::new(Internal::new(create, NoClear)) }
    }
}

impl<T, C: Fn() -> T, S: Clearer<T>> Clone for Pool<T, C, S> {
    /// Returns a new handle to the same pool: the free list, creation
    /// function and sanitizer are shared, not copied.
    fn clone(&self) -> (cloned: Self)
        ensures
            cloned == *self,
    {
        Pool { internal: arc_clone(&self.internal) }
    }
}

/// A lease on one item of a pool: it grants exclusive access to the item and
/// returns it to the pool's free list when released. While it lives it holds
/// exactly one item, and it can only be moved, never copied.
#[verifier::reject_recursive_types(T)]
pub struct ItemGuard<T, C, S> {
    item: Option<T>,
    pool: Pool<T, C, S>,
}

impl<T, C: Fn() -> T, S: Clearer<T>> ItemGuard<T, C, S> {
    /// The pool handle this lease was issued by.
    pub closed spec fn pool(&self) -> Pool<T, C, S> {
        self.pool
    }

    /// The item this lease holds.
    pub closed spec fn item(&self) -> T {
        self.item.unwrap()
    }

    /// A lease is well formed while it holds its item and its pool is well
    /// formed; `get` establishes this and access preserves it.
    pub closed spec fn wf(&self) -> bool {
        &&& self.item is Some
        &&& self.pool.wf()
    }

    /// Read access to the held item.
    pub fn deref(&self) -> (item: &T)
        requires
            self.wf(),
        ensures
            *item == self.item(),
    {
        self.item.as_ref().unwrap()
    }

    /// Write access to the held item.
    pub fn deref_mut(&mut self) -> (item: &mut T)
        requires
            old(self).wf(),
        ensures
            *item == old(self).item(),
            final(self).item() == *final(item),
            final(self).pool() == old(self).pool(),
            final(self).wf(),
    {
        match &mut self.item {
            Some(t) => t,
            None => unreached(),
        }
    }

    /// Ends the lease: the held item is sanitized and returned to the pool's
    /// free list. Returns, as ghost information, the value that re-entered
    /// the free list: a value the pool's sanitizer can produce from the held
    /// item, never the raw held item itself unless the sanitizer allows it.
    pub fn release(self) -> (returned: Ghost<T>)
        requires
            self.wf(),
        ensures
            self.pool().clearer().clears(self.item(), returned@),
    {
        let ItemGuard { item, pool } = self;
        pool.push(item.unwrap())
    }
}

} // verus!
