//! A stack of `i32` whose chain of nodes has exactly one owner.

use vstd::prelude::*;
use crate::lifo::{pushed, rest, top};

verus! {

struct Node {
    elem: i32,
    next: Link,
}

/// What a node, or the list itself, holds of the chain below it.
enum Link {
    /// The chain ends here.
    Empty,
    /// The next node, owned by whoever holds this link.
    More(Box<Node>),
}

/// A last-in, first-out stack of `i32`.
pub struct List {
    head: Link,
}

impl Link {
    /// The elements of the chain that starts at this link, nearest first.
    spec fn elems(self) -> Seq<i32>
        decreases self,
    {
        match self {
            Link::Empty => Seq::empty(),
            Link::More(node) => pushed(node.next.elems(), node.elem),
        }
    }

    /// Moves the chain out of the slot and leaves the slot empty.
    fn take(&mut self) -> (out: Link)
        ensures
            out == *old(self),
            *final(self) == Link::Empty,
        opens_invariants none
        no_unwind
    {
        let mut out = Link::Empty;
        core::mem::swap(self, &mut out);
        out
    }
}

impl View for List {
    type V = Seq<i32>;

    /// The elements of the stack, top first.
    closed spec fn view(&self) -> Seq<i32> {
        self.head.elems()
    }
}

impl List {
    /// An empty stack.
    pub fn new() -> (list: Self)
        ensures
            list@ == Seq::<i32>::empty(),
    {
        List { head: Link::Empty }
    }

    /// Puts `elem` on top of the stack.
    pub fn push(&mut self, elem: i32)
        ensures
            final(self)@ == pushed(old(self)@, elem),
    {
        let new_node: Box<Node> = Box::new(Node { elem: elem, next: self.head.take() });
        self.head = Link::More(new_node);
    }

    /// Takes the top element off the stack and returns it; `None`, and no
    /// change, where the stack is empty.
    pub fn pop(&mut self) -> (out: Option<i32>)
        ensures
            out == top(old(self)@),
            final(self)@ == rest(old(self)@),
    {
        match self.head.take() {
            Link::Empty => None,
            Link::More(node) => {
                let node = *node;
                self.head = node.next;
                Some(node.elem)
            },
        }
    }
}

impl Drop for List {
    /// Frees the chain node by node: each node is cut off from the chain
    /// below it before it is released, so that releasing it frees one node
    /// and the depth of the call stack does not grow with the chain.
    fn drop(&mut self)
        ensures
            final(self)@ == Seq::<i32>::empty(),
        opens_invariants none
        no_unwind
    {
        let mut cur_link: Link = self.head.take();
        loop
            decreases cur_link,
        {
            match cur_link {
                Link::Empty => {
                    break ;
                },
                Link::More(mut node_box) => {
                    cur_link = node_box.next.take();
                },
            }
        }
    }
}

} // verus!
