//! An exclusively-owned generic LIFO stack with peeking and three kinds
//! of iteration: consuming, shared-borrowing, and exclusive-borrowing.
//!
//! A link is an optional owned handle to the next node, so the chain is
//! acyclic by construction and owns exactly one path to every node. The
//! list is abstracted as the sequence of its elements from head (most
//! recently pushed) to tail.

use vstd::prelude::*;

verus! {

/// An owned stack; the head is the most recently pushed element.
pub struct List<T> {
    head: Link<T>,
}

type Link<T> = Option<Box<Node<T>>>;

/// One link of the chain. Public only so that contracts can speak of
/// the exclusive reference `IterMut` holds into the chain; its fields
/// stay private, and its contents are reached through the list
/// operations alone.
pub struct Node<T> {
    elem: T,
    next: Link<T>,
}

/// The elements reachable from a node, head first.
pub closed spec fn node_seq<T>(node: Node<T>) -> Seq<T>
    decreases node,
{
    seq![node.elem] + link_seq(node.next)
}

/// The elements reachable through a link, head first.
spec fn link_seq<T>(link: Link<T>) -> Seq<T>
    decreases link,
{
    match link {
        Some(node) => node_seq(*node),
        None => Seq::empty(),
    }
}

impl<T> View for List<T> {
    type V = Seq<T>;

    closed spec fn view(&self) -> Seq<T> {
        link_seq(self.head)
    }
}

impl<T> List<T> {
    /// An empty stack.
    pub fn new() -> (r: List<T>)
        ensures
            r@ == Seq::<T>::empty(),
    {
        List { head: None }
    }

    /// Pushes `elem` on top: the new node takes over the current head.
    pub fn push(&mut self, elem: T)
        ensures
            final(self)@ == seq![elem] + old(self)@,
    {
        let old_head = self.head.take();
        let new_node = Box::new(Node { elem, next: old_head });
        self.head = Some(new_node);
    }

    /// Removes and returns the top element, or `None` on the empty stack,
    /// which it leaves unchanged.
    pub fn pop(&mut self) -> (r: Option<T>)
        ensures
            old(self)@.len() == 0 ==> r is None && final(self)@ == old(self)@,
            old(self)@.len() > 0 ==> r == Some(old(self)@[0]) && final(self)@ == old(self)@.drop_first(),
    {
        match self.head.take() {
            None => None,
            Some(boxed_node) => {
                let node = *boxed_node;
                self.head = node.next;
                Some(node.elem)
            }
        }
    }

    /// A read-only view of the top element, or `None` on the empty stack.
    pub fn peek(&self) -> (r: Option<&T>)
        ensures
            match r {
                Some(e) => self@.len() > 0 && *e == self@[0],
                None => self@.len() == 0,
            },
    {
        match &self.head {
            Some(boxed_node) => Some(&boxed_node.elem),
            None => None,
        }
    }

    /// An exclusive view of the top element, or `None` on the empty
    /// stack. The stack keeps its length, and whatever the caller writes
    /// through the reference is what the stack holds on top afterwards.
    pub fn peek_mut(&mut self) -> (r: Option<&mut T>)
        ensures
            old(self)@.len() == 0 ==> r is None && final(self)@ == old(self)@,
            old(self)@.len() > 0 ==> r is Some && *r.unwrap() == old(self)@[0]
                && final(self)@ == seq![*final(r.unwrap())] + old(self)@.drop_first(),
            final(self)@.len() == old(self)@.len(),
    {
        match &mut self.head {
            Some(boxed_node) => Some(&mut boxed_node.elem),
            None => None,
        }
    }

    /// Transfers the whole list into a consuming iterator over its
    /// elements, head first; the list itself is gone afterwards.
    pub fn into_iter(self) -> (it: IntoIter<T>)
        ensures
            it@ == self@,
    {
        IntoIter(self)
    }

    /// A shared-borrowing iterator over the elements, head first. The
    /// list is untouched and can be borrowed or iterated again later.
    pub fn iter(&self) -> (it: Iter<'_, T>)
        ensures
            it@ == self@,
    {
        match &self.head {
            Some(boxed_node) => Iter { next: Some(&**boxed_node) },
            None => Iter { next: None },
        }
    }

    /// An exclusive-borrowing iterator over the elements, head first.
    /// It excludes all other access to the list for its duration, and
    /// once every reference it handed out has been released, the list
    /// holds exactly what its chain was left holding.
    pub fn iter_mut(&mut self) -> (it: IterMut<'_, T>)
        ensures
            it@ == old(self)@,
            it.chain() is Some <==> it@.len() > 0,
            it.chain() is Some ==> final(self)@ == node_seq(*final(it.chain().unwrap())),
            it.chain() is None ==> final(self)@ == old(self)@,
    {
        match &mut self.head {
            Some(boxed_node) => IterMut { next: Some(&mut **boxed_node) },
            None => IterMut { next: None },
        }
    }

    /// Detaches and destroys every node, one at a time, leaving the
    /// stack empty. Each node's successor is removed before the node
    /// itself goes away, so no destructor recurses down the chain.
    pub fn clear(&mut self)
        ensures
            final(self)@ == Seq::<T>::empty(),
        opens_invariants none
        no_unwind
    {
        let mut cur: Link<T> = None;
        core::mem::swap(&mut self.head, &mut cur);
        loop
            decreases link_seq(cur).len(),
        {
            match cur {
                None => {
                    break;
                }
                Some(boxed_node) => {
                    let node = *boxed_node;
                    cur = node.next;
                }
            }
        }
    }
}

impl<T> Drop for List<T> {
    /// Destruction is iterative: the teardown loop in `clear` never lets
    /// a destructor recurse down the remaining chain, however long it is.
    fn drop(&mut self)
        opens_invariants none
        no_unwind
    {
        self.clear();
    }
}

/// Consuming iteration: owns the list and pops one element per step,
/// destroying the list as it goes.
pub struct IntoIter<T>(List<T>);

impl<T> View for IntoIter<T> {
    type V = Seq<T>;

    closed spec fn view(&self) -> Seq<T> {
        self.0@
    }
}

impl<T> IntoIter<T> {
    /// Removes and returns the next element, or `None` once exhausted.
    pub fn next(&mut self) -> (r: Option<T>)
        ensures
            old(self)@.len() == 0 ==> r is None && final(self)@ == old(self)@,
            old(self)@.len() > 0 ==> r == Some(old(self)@[0]) && final(self)@ == old(self)@.drop_first(),
    {
        self.0.pop()
    }
}

/// Shared-borrowing iteration: walks the chain through read-only
/// references and leaves the list intact.
pub struct Iter<'a, T> {
    next: Option<&'a Node<T>>,
}

impl<'a, T> View for Iter<'a, T> {
    type V = Seq<T>;

    closed spec fn view(&self) -> Seq<T> {
        match self.next {
            Some(node) => node_seq(*node),
            None => Seq::empty(),
        }
    }
}

impl<'a, T> Iter<'a, T> {
    /// Returns a reference to the next element and advances one link,
    /// or `None` once exhausted.
    pub fn next(&mut self) -> (r: Option<&'a T>)
        ensures
            old(self)@.len() == 0 ==> r is None && final(self)@ == old(self)@,
            old(self)@.len() > 0 ==> (r matches Some(e) && *e == old(self)@[0])
                && final(self)@ == old(self)@.drop_first(),
    {
        match self.next {
            Some(node) => {
                self.next = match &node.next {
                    Some(next_boxed) => Some(&**next_boxed),
                    None => None,
                };
                Some(&node.elem)
            }
            None => None,
        }
    }
}

/// Exclusive-borrowing iteration: holds, one node at a time, an
/// exclusive reference into the chain, and relinquishes it before
/// advancing, so no two exclusive references into the structure ever
/// coexist.
pub struct IterMut<'a, T> {
    next: Option<&'a mut Node<T>>,
}

impl<'a, T> View for IterMut<'a, T> {
    type V = Seq<T>;

    closed spec fn view(&self) -> Seq<T> {
        match self.next {
            Some(node) => node_seq(*node),
            None => Seq::empty(),
        }
    }
}

impl<'a, T> IterMut<'a, T> {
    /// The exclusive reference this iterator still holds into the
    /// chain, if any; opaque to callers, but a handle their contracts
    /// can speak about.
    pub closed spec fn chain(&self) -> Option<&'a mut Node<T>> {
        self.next
    }

    /// Returns an exclusive reference to the next element and advances
    /// one link, or `None` once exhausted. The chain the old state
    /// borrowed ends up holding the final value of the element handed
    /// out, followed by whatever the advanced iterator leaves behind.
    pub fn next(&mut self) -> (r: Option<&'a mut T>)
        ensures
            old(self)@.len() == 0 ==> r is None && final(self)@ == old(self)@,
            old(self)@.len() > 0 ==> r is Some && *r.unwrap() == old(self)@[0]
                && final(self)@ == old(self)@.drop_first(),
            final(self).chain() is Some <==> final(self)@.len() > 0,
            old(self).chain() is Some ==> node_seq(*final(old(self).chain().unwrap()))
                == seq![*final(r.unwrap())] + (match final(self).chain() {
                    Some(n) => node_seq(*final(n)),
                    None => Seq::empty(),
                }),
    {
        match self.next.take() {
            Some(node) => {
                self.next = match &mut node.next {
                    Some(next_boxed) => Some(&mut **next_boxed),
                    None => None,
                };
                Some(&mut node.elem)
            }
            None => None,
        }
    }
}

/// The view of a stack after pushing the elements of `s` in order onto
/// a stack whose view is `v`: each push puts its element in front,
/// exactly as the `ensures` of `push` states.
pub open spec fn after_pushes<T>(v: Seq<T>, s: Seq<T>) -> Seq<T>
    decreases s.len(),
{
    if s.len() == 0 {
        v
    } else {
        after_pushes(seq![s[0]] + v, s.drop_first())
    }
}

/// Pushing the elements of `s` in order prepends them in reverse.
pub proof fn lemma_after_pushes<T>(v: Seq<T>, s: Seq<T>)
    ensures
        after_pushes(v, s) == s.reverse() + v,
    decreases s.len(),
{
    if s.len() == 0 {
        assert(s.reverse() + v =~= v);
    } else {
        lemma_after_pushes(seq![s[0]] + v, s.drop_first());
        assert(s.drop_first().reverse() + (seq![s[0]] + v) =~= s.reverse() + v);
    }
}

/// Last in, first out: pushing the elements of `s` in order onto the
/// empty stack leaves the view `s.reverse()`, so by the `ensures` of
/// `pop` the next `s.len()` pops yield the pushed elements newest
/// first, and the pop after those finds the stack empty and yields
/// `None`.
pub proof fn lemma_lifo<T>(s: Seq<T>)
    ensures
        after_pushes(Seq::empty(), s) == s.reverse(),
{
    lemma_after_pushes(Seq::<T>::empty(), s);
    assert(s.reverse() + Seq::<T>::empty() =~= s.reverse());
}

/// Whatever a caller writes through the reference from `peek_mut` is
/// exactly what the next `pop` returns: replacing the head of a stack
/// viewed as `w` by `x` keeps the length, and the `ensures` of `pop`
/// on the written stack yields `x` and leaves `w.drop_first()`.
pub proof fn lemma_peek_mut_write_then_pop<T>(w: Seq<T>, x: T)
    requires
        w.len() > 0,
    ensures
        (seq![x] + w.drop_first()).len() == w.len(),
        (seq![x] + w.drop_first())[0] == x,
        (seq![x] + w.drop_first()).drop_first() == w.drop_first(),
{
    assert((seq![x] + w.drop_first()).drop_first() =~= w.drop_first());
}

} // verus!
