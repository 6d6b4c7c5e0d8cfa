//! A minimal LIFO stack of machine integers over an explicit link enum.
//!
//! Each node owns its successor, so the chain has exactly one owning path
//! to every node. The list is abstracted as the sequence of its elements
//! from head (most recently pushed) to tail.

use vstd::prelude::*;

verus! {

/// A stack of `i32` values; the head is the most recently pushed element.
pub struct List {
    head: Link,
}

enum Link {
    Empty,
    More(Box<Node>),
}

struct Node {
    elem: i32,
    next: Link,
}

/// The elements reachable from a node, head first.
spec fn node_seq(node: Node) -> Seq<i32>
    decreases node,
{
    seq![node.elem] + link_seq(node.next)
}

/// The elements reachable through a link, head first.
spec fn link_seq(link: Link) -> Seq<i32>
    decreases link,
{
    match link {
        Link::Empty => Seq::empty(),
        Link::More(node) => node_seq(*node),
    }
}

impl View for List {
    type V = Seq<i32>;

    closed spec fn view(&self) -> Seq<i32> {
        link_seq(self.head)
    }
}

impl List {
    /// An empty stack.
    pub fn new() -> (r: List)
        ensures
            r@ == Seq::<i32>::empty(),
    {
        List { head: Link::Empty }
    }

    /// Pushes `elem` on top: the new node takes over the current head.
    pub fn push(&mut self, elem: i32)
        ensures
            final(self)@ == seq![elem] + old(self)@,
    {
        let mut old_head = Link::Empty;
        core::mem::swap(&mut self.head, &mut old_head);
        let new_node = Box::new(Node { elem, next: old_head });
        self.head = Link::More(new_node);
    }

    /// Removes and returns the top element, or `None` on the empty stack,
    /// which it leaves unchanged.
    pub fn pop(&mut self) -> (r: Option<i32>)
        ensures
            old(self)@.len() == 0 ==> r is None && final(self)@ == old(self)@,
            old(self)@.len() > 0 ==> r == Some(old(self)@[0]) && final(self)@ == old(self)@.drop_first(),
    {
        let mut taken = Link::Empty;
        core::mem::swap(&mut self.head, &mut taken);
        match taken {
            Link::Empty => None,
            Link::More(boxed_node) => {
                let node = *boxed_node;
                self.head = node.next;
                Some(node.elem)
            }
        }
    }
}

impl Drop for List {
    /// Tears the chain down one node at a time: each node's successor is
    /// detached before the node itself goes away, so no destructor ever
    /// recurses down the remaining chain.
    fn drop(&mut self)
        opens_invariants none
        no_unwind
    {
        let mut cur = Link::Empty;
        core::mem::swap(&mut self.head, &mut cur);
        loop
            decreases link_seq(cur).len(),
        {
            match cur {
                Link::Empty => {
                    break;
                }
                Link::More(boxed_node) => {
                    let node = *boxed_node;
                    cur = node.next;
                }
            }
        }
    }
}

} // verus!
