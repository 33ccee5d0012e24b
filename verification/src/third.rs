//! A persistent list: its nodes are reference counted and never change, so
//! that several lists can share a common suffix.

use vstd::prelude::*;
use std::rc::Rc;
use crate::lifo::{pushed, rest, top};

verus! {

type Link<T> = Option<Rc<Node<T>>>;

struct Node<T> {
    elem: T,
    next: Link<T>,
}

/// An immutable list. `prepend` and `tail` give new lists that share nodes
/// with the list they were made from.
pub struct List<T> {
    head: Link<T>,
}

/// The elements of the chain that starts at `link`, nearest first.
spec fn chain<T>(link: Link<T>) -> Seq<T>
    decreases link,
{
    match link {
        None => Seq::empty(),
        Some(node) => pushed(chain(node.next), node.elem),
    }
}

/// `Rc::clone` on a link of a chain: one more owner of the same node. The
/// contract claims that the new handle stands for the node that `node`
/// stands for, so the two are equal as values.
#[verifier::external_body]
fn share<T>(node: &Rc<Node<T>>) -> (out: Rc<Node<T>>)
    ensures
        out == *node,
{
    Rc::clone(node)
}

/// `Rc::try_unwrap` on a link of a chain. The contract claims what the
/// documentation of `Rc` says: the node itself comes back where this handle
/// was its only owner, else the same handle, and the call does not panic.
#[verifier::external_body]
fn into_sole_owner<T>(node: Rc<Node<T>>) -> (out: Result<Node<T>, Rc<Node<T>>>)
    ensures
        match out {
            Ok(inner) => inner == *node,
            Err(shared) => shared == node,
        },
    opens_invariants none
    no_unwind
{
    Rc::try_unwrap(node)
}

/// Moves the chain out of the slot and leaves the slot empty.
fn detach<T>(link: &mut Link<T>) -> (out: Link<T>)
    ensures
        out == *old(link),
        *final(link) == None::<Rc<Node<T>>>,
    opens_invariants none
    no_unwind
{
    let mut out: Link<T> = None;
    core::mem::swap(link, &mut out);
    out
}

impl<T> View for List<T> {
    type V = Seq<T>;

    /// The elements of the list, first element first.
    closed spec fn view(&self) -> Seq<T> {
        chain(self.head)
    }
}

impl<T> List<T> {
    /// An empty list.
    pub fn new() -> (list: Self)
        ensures
            list@ == Seq::<T>::empty(),
    {
        List { head: None }
    }

    /// The list with `elem` in front of the elements of this one. This list
    /// is left as it is; the new one shares all of its nodes.
    pub fn prepend(&self, elem: T) -> (list: List<T>)
        ensures
            list@ == pushed(self@, elem),
    {
        let next: Link<T> = match &self.head {
            None => None,
            Some(node) => Some(share(node)),
        };
        List { head: Some(Rc::new(Node { elem: elem, next: next })) }
    }

    /// A reference to the first element; `None` where the list is empty.
    pub fn head(&self) -> (out: Option<&T>)
        ensures
            out is Some <==> self@.len() > 0,
            out is Some ==> top(self@) == Some(*out->0),
    {
        match &self.head {
            None => None,
            Some(node) => Some(&node.elem),
        }
    }

    /// The list of the elements after the first, sharing their nodes; an
    /// empty list where this one is empty.
    pub fn tail(&self) -> (list: List<T>)
        ensures
            list@ == rest(self@),
    {
        let head: Link<T> = match &self.head {
            None => None,
            Some(node) => match &node.next {
                None => None,
                Some(below) => Some(share(below)),
            },
        };
        List { head: head }
    }
}

impl<T> Drop for List<T> {
    /// Gives up this list's share of the chain node by node. A node that
    /// this list alone owned is cut off from the chain below it before it
    /// is released, so that the depth of the call stack does not grow with
    /// the chain; at the first node that another list still owns, the
    /// node and all below it stay.
    fn drop(&mut self)
        ensures
            final(self)@ == Seq::<T>::empty(),
        opens_invariants none
        no_unwind
    {
        let mut cur_link: Link<T> = detach(&mut self.head);
        loop
            decreases cur_link,
        {
            match cur_link {
                None => {
                    break ;
                },
                Some(node_rc) => match into_sole_owner(node_rc) {
                    Ok(mut node) => {
                        cur_link = detach(&mut node.next);
                    },
                    Err(_) => {
                        break ;
                    },
                },
            }
        }
    }
}

} // verus!
