//! A Treiber-style LIFO stack over owned, linked nodes.
//!
//! The stack keeps a head reference to the top node; each node links to the
//! one below it. `push` places a new node at the head and `pop` removes it,
//! transferring ownership of the stored item to the caller. Ownership of the
//! nodes guarantees that a popped node can never be observed again.
//!
//! A [`crate::Pool`] shares its free list between threads and so keeps it in
//! a concurrent queue; this stack is the free list in single-owner form,
//! where every operation carries its full last-in, first-out contract.

use vstd::prelude::*;

verus! {

/// A LIFO stack: a head reference to the top node, or empty.
pub struct TreiberStack<T> {
    head: Option<Box<Node<T>>>,
}

/// One node: an item plus a link to the node below it.
struct Node<T> {
    data: T,
    next: Option<Box<Node<T>>>,
}

impl<T> TreiberStack<T> {
    /// The items stored in the chain starting at `node`, bottom first,
    /// so that the top of the stack is the last element.
    spec fn seq_of(node: Option<Box<Node<T>>>) -> Seq<T>
        decreases node,
    {
        match node {
            None => Seq::empty(),
            Some(n) => Self::seq_of(n.next).push(n.data),
        }
    }

    /// Creates a new, empty stack.
    pub fn new() -> (stack: TreiberStack<T>)
        ensures
            stack@ == Seq::<T>::empty(),
    {
        TreiberStack { head: None }
    }

    /// Pushes a value on top of the stack.
    pub fn push(&mut self, t: T)
        ensures
            final(self)@ == old(self)@.push(t),
    {
        let below = self.head.take();
        self.head = Some(Box::new(Node { data: t, next: below }));
    }

    /// Removes and returns the top item, or `None` if the stack is empty.
    pub fn pop(&mut self) -> (popped: Option<T>)
        ensures
            match popped {
                Some(t) => old(self)@.len() > 0 && t == old(self)@.last() && final(self)@ == old(
                    self,
                )@.drop_last(),
                None => old(self)@.len() == 0 && final(self)@ == old(self)@,
            },
    {
        match self.head.take() {
            None => None,
            Some(n) => {
                let node = *n;
                proof {
                    assert(Self::seq_of(Some(n)).drop_last() =~= Self::seq_of(node.next));
                }
                self.head = node.next;
                Some(node.data)
            },
        }
    }

    /// Returns `true` if the stack is empty.
    pub fn is_empty(&self) -> (empty: bool)
        ensures
            empty <==> self@.len() == 0,
    {
        proof {
            if self.head is Some {
                assert(self@.len() > 0);
            }
        }
        self.head.is_none()
    }
}

/// Last-in, first-out: whatever a stack holds, after `a` and then `b` are
/// pushed, the next pop returns `b` and the one after it returns `a`, and
/// the earlier contents stand as they were. Each clause matches one step of
/// the contracts of `push` and `pop`.
pub proof fn lemma_lifo_order<T>(contents: Seq<T>, a: T, b: T)
    ensures
        contents.push(a).push(b).last() == b,
        contents.push(a).push(b).drop_last() == contents.push(a),
        contents.push(a).last() == a,
        contents.push(a).drop_last() == contents,
{
    assert(contents.push(a).push(b).drop_last() =~= contents.push(a));
    assert(contents.push(a).drop_last() =~= contents);
}

/// No leak, no duplication: a push adds exactly the pushed item to the
/// stack's contents, and a pop removes exactly the returned item — counted
/// as a multiset, nothing else appears or disappears.
pub proof fn lemma_conservation<T>(contents: Seq<T>, t: T)
    ensures
        contents.push(t).to_multiset() == contents.to_multiset().insert(t),
        contents.len() > 0 ==> contents.to_multiset() == contents.drop_last().to_multiset().insert(
            contents.last(),
        ),
{
    broadcast use vstd::seq_lib::group_to_multiset_ensures;

    if contents.len() > 0 {
        assert(contents =~= contents.drop_last().push(contents.last()));
    }
}

impl<T> View for TreiberStack<T> {
    type V = Seq<T>;

    closed spec fn view(&self) -> Seq<T> {
        TreiberStack::seq_of(self.head)
    }
}

} // verus!
