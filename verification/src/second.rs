//! A stack over any element type, with `peek`, `peek_mut` and three
//! traversals: by value, by shared reference and by mutable reference.

use vstd::prelude::*;
use crate::lifo::{pushed, rest, top};

verus! {

type Link<T> = Option<Box<Node<T>>>;

/// One node of a chain. Its fields are private: outside this module a node
/// is known only by the elements of the chain that starts at it.
pub struct Node<T> {
    elem: T,
    next: Link<T>,
}

/// A last-in, first-out stack.
pub struct List<T> {
    head: Link<T>,
}

/// The traversal that owns the stack and hands its elements out by value.
pub struct IntoIter<T>(List<T>);

/// The traversal that hands out shared references to the elements.
pub struct Iter<'a, T> {
    next: Option<&'a Node<T>>,
}

/// The traversal that hands out one mutable reference to each element.
pub struct IterMut<'a, T> {
    next: Option<&'a mut Node<T>>,
}

/// The elements of the chain that starts at `link`, nearest first.
spec fn chain<T>(link: Link<T>) -> Seq<T>
    decreases link,
{
    match link {
        None => Seq::empty(),
        Some(node) => pushed(chain(node.next), node.elem),
    }
}

/// Moves the chain out of the slot and leaves the slot empty.
fn detach<T>(link: &mut Link<T>) -> (out: Link<T>)
    ensures
        out == *old(link),
        *final(link) == None::<Box<Node<T>>>,
    opens_invariants none
    no_unwind
{
    let mut out: Link<T> = None;
    core::mem::swap(link, &mut out);
    out
}

impl<T> View for Node<T> {
    type V = Seq<T>;

    /// The element of this node, then those of the nodes below it.
    closed spec fn view(&self) -> Seq<T> {
        pushed(chain(self.next), self.elem)
    }
}

impl<T> View for List<T> {
    type V = Seq<T>;

    /// The elements of the stack, top first.
    closed spec fn view(&self) -> Seq<T> {
        chain(self.head)
    }
}

impl<T> View for IntoIter<T> {
    type V = Seq<T>;

    /// The elements still to be handed out, next first.
    closed spec fn view(&self) -> Seq<T> {
        self.0@
    }
}

impl<'a, T> View for Iter<'a, T> {
    type V = Seq<T>;

    /// The elements still to be visited, next first.
    closed spec fn view(&self) -> Seq<T> {
        match self.next {
            None => Seq::empty(),
            Some(node) => node@,
        }
    }
}

impl<'a, T> View for IterMut<'a, T> {
    type V = Seq<T>;

    /// The elements still to be visited, next first, as they are now.
    closed spec fn view(&self) -> Seq<T> {
        match self.next {
            None => Seq::empty(),
            Some(node) => node@,
        }
    }
}

impl<T> List<T> {
    /// An empty stack.
    pub fn new() -> (list: Self)
        ensures
            list@ == Seq::<T>::empty(),
    {
        List { head: None }
    }

    /// Puts `elem` on top of the stack.
    pub fn push(&mut self, elem: T)
        ensures
            final(self)@ == pushed(old(self)@, elem),
    {
        let new_node: Box<Node<T>> = Box::new(Node { elem: elem, next: detach(&mut self.head) });
        self.head = Some(new_node);
    }

    /// Takes the top element off the stack and returns it; `None`, and no
    /// change, where the stack is empty.
    pub fn pop(&mut self) -> (out: Option<T>)
        ensures
            out == top(old(self)@),
            final(self)@ == rest(old(self)@),
    {
        match detach(&mut self.head) {
            None => None,
            Some(node) => {
                let node = *node;
                self.head = node.next;
                Some(node.elem)
            },
        }
    }

    /// A shared reference to the top element; `None` where the stack is empty.
    pub fn peek(&self) -> (out: Option<&T>)
        ensures
            out is Some <==> self@.len() > 0,
            out is Some ==> top(self@) == Some(*out->0),
    {
        match &self.head {
            None => None,
            Some(node) => Some(&node.elem),
        }
    }

    /// A mutable reference to the top element; `None` where the stack is
    /// empty. What is written through the reference is the top element once
    /// the borrow ends; the elements below stay as they are.
    pub fn peek_mut(&mut self) -> (out: Option<&mut T>)
        ensures
            out is Some <==> old(self)@.len() > 0,
            out is None ==> final(self)@ == old(self)@,
            out is Some ==> top(old(self)@) == Some(*out->0),
            out is Some ==> final(self)@ == old(self)@.update(0, *final(out->0)),
    {
        match &mut self.head {
            None => None,
            Some(node) => {
                Some(&mut node.elem)
            },
        }
    }

    /// Turns the stack into the traversal that hands its elements out by value.
    pub fn into_iter(self) -> (it: IntoIter<T>)
        ensures
            it@ == self@,
    {
        IntoIter(self)
    }

    /// A traversal of the elements by shared reference, top first.
    pub fn iter(&self) -> (it: Iter<'_, T>)
        ensures
            it@ == self@,
    {
        match &self.head {
            None => Iter { next: None },
            Some(node) => Iter { next: Some(&**node) },
        }
    }

    /// A traversal of the elements by mutable reference, top first. When
    /// the borrow ends the stack holds what the chain under the traversal's
    /// cursor then holds.
    pub fn iter_mut(&mut self) -> (it: IterMut<'_, T>)
        ensures
            it@ == old(self)@,
            final(self)@ == (match it.cursor() {
                Some(node) => final(node)@,
                None => Seq::empty(),
            }),
    {
        match &mut self.head {
            None => IterMut { next: None },
            Some(node) => IterMut { next: Some(&mut **node) },
        }
    }
}

impl<T> Drop for List<T> {
    /// Frees the chain node by node: each node is cut off from the chain
    /// below it before it is released, so that releasing it frees one node
    /// and the depth of the call stack does not grow with the chain.
    fn drop(&mut self)
        ensures
            final(self)@ == Seq::<T>::empty(),
        opens_invariants none
        no_unwind
    {
        let mut cur_link: Link<T> = detach(&mut self.head);
        loop
            decreases cur_link,
        {
            match cur_link {
                None => {
                    break ;
                },
                Some(mut node_box) => {
                    cur_link = detach(&mut node_box.next);
                },
            }
        }
    }
}

impl<T> IntoIter<T> {
    /// The next element by value, which leaves the traversal; `None` once
    /// nothing is left, and from then on.
    pub fn next(&mut self) -> (out: Option<T>)
        ensures
            out == top(old(self)@),
            final(self)@ == rest(old(self)@),
    {
        self.0.pop()
    }
}

impl<'a, T> Iter<'a, T> {
    /// A reference to the next element; `None` once nothing is left, and
    /// from then on.
    pub fn next(&mut self) -> (out: Option<&'a T>)
        ensures
            out is Some <==> old(self)@.len() > 0,
            out is Some ==> top(old(self)@) == Some(*out->0),
            final(self)@ == rest(old(self)@),
    {
        match self.next {
            None => None,
            Some(node) => {
                self.next = match &node.next {
                    None => None,
                    Some(below) => Some(&**below),
                };
                Some(&node.elem)
            },
        }
    }
}

impl<'a, T> IterMut<'a, T> {
    /// The reference that the traversal holds to the node it will visit
    /// next, if any is left. The contracts speak of its final value: the
    /// chain from that node on as it is when the traversal's borrow ends.
    pub closed spec fn cursor(&self) -> Option<&'a mut Node<T>> {
        self.next
    }

    /// A mutable reference to the next element; `None` once nothing is
    /// left, and from then on. The chain that was under the cursor ends up
    /// as what is written through the returned reference, followed by
    /// what the chain under the new cursor ends up as.
    pub fn next(&mut self) -> (out: Option<&'a mut T>)
        ensures
            out is Some <==> old(self)@.len() > 0,
            out is Some ==> top(old(self)@) == Some(*out->0),
            final(self)@ == rest(old(self)@),
            final(self).cursor() is Some <==> final(self)@.len() > 0,
            out is Some ==> old(self).cursor() is Some && final(old(self).cursor()->0)@ == pushed(
                match final(self).cursor() {
                    Some(node) => final(node)@,
                    None => Seq::empty(),
                },
                *final(out->0),
            ),
    {
        match self.next.take() {
            None => None,
            Some(node) => {
                self.next = match &mut node.next {
                    None => None,
                    Some(below) => Some(&mut **below),
                };
                Some(&mut node.elem)
            },
        }
    }

    /// A traversal that is not advanced any more leaves the chain under its
    /// cursor as it is: the final value of that chain is its present value.
    pub proof fn lemma_resolved(self)
        requires
            has_resolved(self),
        ensures
            self.cursor() is Some <==> self@.len() > 0,
            self.cursor() is Some ==> final(self.cursor()->0)@ == self@,
    {
    }
}

} // verus!
