//! A persistent, immutable singly-linked list whose tails are shared
//! between independent owners by reference counting.
//!
//! `append` builds a new list in front of an existing one without
//! touching it, so any number of lists may share a common suffix. Nodes
//! are never mutated after construction, which is what makes the
//! sharing safe; accordingly only shared-borrowing iteration exists.

use std::rc::Rc;
use vstd::prelude::*;

verus! {

/// An immutable list; the head is the most recently appended element.
pub struct List<T> {
    head: Link<T>,
}

type Link<T> = Option<Rc<Node<T>>>;

struct Node<T> {
    elem: T,
    next: Link<T>,
}

/// The elements reachable from a node, head first.
spec fn node_seq<T>(node: Node<T>) -> Seq<T>
    decreases node,
{
    seq![node.elem] + link_seq(node.next)
}

/// The elements reachable through a link, head first.
spec fn link_seq<T>(link: Link<T>) -> Seq<T>
    decreases link,
{
    match link {
        Some(node) => node_seq(*node),
        None => Seq::empty(),
    }
}

impl<T> View for List<T> {
    type V = Seq<T>;

    closed spec fn view(&self) -> Seq<T> {
        link_seq(self.head)
    }
}

/// Relies on `Rc::clone`: the returned handle is a new shared owner of
/// the same allocation, so it carries the very same value; the shared
/// node itself is untouched.
#[verifier::external_body]
fn share_link<T>(link: &Link<T>) -> (r: Link<T>)
    ensures
        r == *link,
{
    match link {
        Some(rc_node) => Some(Rc::clone(rc_node)),
        None => None,
    }
}

/// Relies on `Rc::try_unwrap`: when this handle was the last owner the
/// node comes back by value, otherwise the untouched handle comes back;
/// either way the call neither panics nor unwinds.
#[verifier::external_body]
fn unshare_node<T>(rc_node: Rc<Node<T>>) -> (r: Result<Node<T>, Rc<Node<T>>>)
    ensures
        match r {
            Ok(node) => node == *rc_node,
            Err(handle) => handle == rc_node,
        },
    opens_invariants none
    no_unwind
{
    Rc::try_unwrap(rc_node)
}

impl<T> List<T> {
    /// An empty list.
    pub fn new() -> (r: List<T>)
        ensures
            r@ == Seq::<T>::empty(),
    {
        List { head: None }
    }

    /// A new list holding `elem` in front of this one, which is left
    /// untouched and stays independently usable: the two lists share
    /// this one's nodes.
    pub fn append(&self, elem: T) -> (r: List<T>)
        ensures
            r@ == seq![elem] + self@,
    {
        let next = share_link(&self.head);
        List { head: Some(Rc::new(Node { elem, next })) }
    }

    /// A read-only view of the first element, or `None` on the empty
    /// list.
    pub fn head(&self) -> (r: Option<&T>)
        ensures
            match r {
                Some(e) => self@.len() > 0 && *e == self@[0],
                None => self@.len() == 0,
            },
    {
        match &self.head {
            Some(rc_node) => Some(&rc_node.elem),
            None => None,
        }
    }

    /// Everything after the first element as a list of its own, sharing
    /// this one's nodes, or `None` on the empty list. This list is left
    /// untouched.
    pub fn tail(&self) -> (r: Option<List<T>>)
        ensures
            self@.len() == 0 ==> r is None,
            self@.len() > 0 ==> (match r {
                Some(rest) => rest@ == self@.drop_first(),
                None => false,
            }),
    {
        match &self.head {
            Some(rc_node) => Some(List { head: share_link(&rc_node.next) }),
            None => None,
        }
    }

    /// A shared-borrowing iterator over the elements, head first. The
    /// list is untouched and can be iterated again later.
    pub fn iter(&self) -> (it: Iter<'_, T>)
        ensures
            it@ == self@,
    {
        match &self.head {
            Some(rc_node) => Iter { next: Some(&**rc_node) },
            None => Iter { next: None },
        }
    }
}

impl<T> Drop for List<T> {
    /// Dropping a list gives up its hold on the head node. The loop
    /// walks down the chain destroying each node that just lost its
    /// last owner, and stops at the first node some other list still
    /// shares; each node's successor is detached before the node itself
    /// goes away, so no destructor ever recurses down the chain.
    fn drop(&mut self)
        opens_invariants none
        no_unwind
    {
        let mut cur: Link<T> = None;
        core::mem::swap(&mut self.head, &mut cur);
        loop
            decreases link_seq(cur).len(),
        {
            match cur {
                None => {
                    break;
                }
                Some(rc_node) => {
                    match unshare_node(rc_node) {
                        Ok(node) => {
                            cur = node.next;
                        }
                        Err(_) => {
                            break;
                        }
                    }
                }
            }
        }
    }
}

/// Shared-borrowing iteration: walks the chain through read-only
/// references and leaves every list that shares it intact.
pub struct Iter<'a, T> {
    next: Option<&'a Node<T>>,
}

impl<'a, T> View for Iter<'a, T> {
    type V = Seq<T>;

    closed spec fn view(&self) -> Seq<T> {
        match self.next {
            Some(node) => node_seq(*node),
            None => Seq::empty(),
        }
    }
}

impl<'a, T> Iter<'a, T> {
    /// Returns a reference to the next element and advances one link,
    /// or `None` once exhausted.
    pub fn next(&mut self) -> (r: Option<&'a T>)
        ensures
            old(self)@.len() == 0 ==> r is None && final(self)@ == old(self)@,
            old(self)@.len() > 0 ==> (r matches Some(e) && *e == old(self)@[0])
                && final(self)@ == old(self)@.drop_first(),
    {
        match self.next {
            Some(node) => {
                self.next = match &node.next {
                    Some(next_rc) => Some(&**next_rc),
                    None => None,
                };
                Some(&node.elem)
            }
            None => None,
        }
    }
}

/// Structural sharing: appending `x` and appending `y` to the same
/// base list give two lists that are each valid on their own; by the
/// `ensures` of `append`, `head` and `tail`, each carries its own
/// element in front while both share the base as their tail.
pub proof fn lemma_shared_base<T>(base: Seq<T>, x: T, y: T)
    ensures
        (seq![x] + base)[0] == x,
        (seq![y] + base)[0] == y,
        (seq![x] + base).drop_first() == base,
        (seq![y] + base).drop_first() == base,
{
    assert((seq![x] + base).drop_first() =~= base);
    assert((seq![y] + base).drop_first() =~= base);
}

} // verus!
