//! A singly-linked list used as a stack.

use crate::Stack;
use vstd::prelude::*;

verus! {

/// One element of a list, with exclusive ownership of the rest of the chain.
pub struct Node<T> {
    pub(crate) elem: T,
    pub(crate) next: Option<Box<Node<T>>>,
}

/// The elements reachable from `link`, head first.
spec fn chain<T>(link: Option<Box<Node<T>>>) -> Seq<T>
    decreases link,
{
    match link {
        None => Seq::empty(),
        Some(node) => seq![node.elem] + chain(node.next),
    }
}

/// The elements of the chain that starts at `node`, head first.
pub closed spec fn node_items<T>(node: Node<T>) -> Seq<T> {
    seq![node.elem] + chain(node.next)
}

/// A simple singly-linked list.
pub struct List<T> {
    head: Option<Box<Node<T>>>,
    len: usize,
}

impl<T> View for List<T> {
    type V = Seq<T>;

    /// The elements, from the head (the most recently pushed) to the tail.
    closed spec fn view(&self) -> Seq<T> {
        chain(self.head)
    }
}

impl<T> List<T> {
    /// The cached length agrees with the chain.
    pub closed spec fn wf(&self) -> bool {
        self.len == chain(self.head).len()
    }

    /// Returns an empty list.
    pub fn new() -> (r: Self)
        ensures
            r.wf(),
            r@ == Seq::<T>::empty(),
    {
        List { head: None, len: 0 }
    }

    /// Returns the length of the list, in constant time.
    pub fn len(&self) -> (r: usize)
        requires
            self.wf(),
        ensures
            r == self@.len(),
    {
        self.len
    }

    /// Whether the list holds no element.
    pub fn is_empty(&self) -> (r: bool)
        requires
            self.wf(),
        ensures
            r == (self@.len() == 0),
    {
        self.head.is_none()
    }

    /// Installs `node` as the new head, with the old chain as its tail.
    pub(crate) fn cons(&mut self, mut node: Box<Node<T>>) -> (r: &mut Self)
        requires
            old(self).wf(),
            old(self)@.len() < usize::MAX,
        ensures
            r.wf(),
            r@ == seq![node.elem] + old(self)@,
            *final(self) == *final(r),
    {
        node.next = self.head.take();
        self.head = Some(node);
        self.len = self.len + 1;
        self
    }

    /// Detaches the head node, whole, and makes its tail the new head.
    pub(crate) fn uncons(&mut self) -> (r: Option<Box<Node<T>>>)
        requires
            old(self).wf(),
        ensures
            final(self).wf(),
            old(self)@.len() == 0 ==> r is None && final(self)@ == old(self)@,
            old(self)@.len() > 0 ==> r is Some && r.unwrap().elem == old(self)@[0]
                && r.unwrap().next is None && final(self)@ == old(self)@.drop_first(),
    {
        match self.head.take() {
            None => None,
            Some(mut node) => {
                self.head = node.next.take();
                self.len = self.len - 1;
                Some(node)
            },
        }
    }
}

impl<T> Drop for List<T> {
    /// Tears the chain down one node at a time, so that a long list does not
    /// recurse once per node.
    fn drop(&mut self)
        opens_invariants none
        no_unwind
    {
        let mut cur: Option<Box<Node<T>>> = None;
        std::mem::swap(&mut cur, &mut self.head);
        self.len = 0;
        loop
            invariant
                self.wf(),
            decreases chain(cur).len(),
        {
            match cur {
                None => break,
                Some(mut node) => {
                    let mut rest: Option<Box<Node<T>>> = None;
                    std::mem::swap(&mut rest, &mut node.next);
                    cur = rest;
                },
            }
        }
    }
}

impl<T> Stack<T> for List<T> {
    open spec fn items(&self) -> Seq<T> {
        self@
    }

    open spec fn well_formed(&self) -> bool {
        self.wf()
    }

    fn push(&mut self, elem: T) -> (r: &mut Self) {
        self.cons(Box::new(Node { elem, next: None }))
    }

    fn pop(&mut self) -> (r: Option<T>) {
        match self.uncons() {
            None => None,
            Some(node) => Some(node.elem),
        }
    }

    fn peek(&self) -> (r: Option<&T>) {
        match &self.head {
            None => None,
            Some(node) => Some(&node.elem),
        }
    }

    fn peek_mut(&mut self) -> (r: Option<&mut T>) {
        match self.head.as_mut() {
            None => None,
            Some(node) => Some(&mut node.elem),
        }
    }
}


/// The elements reachable from a borrowed node, head first.
spec fn chain_from<T>(link: Option<&Node<T>>) -> Seq<T> {
    match link {
        None => Seq::empty(),
        Some(node) => seq![node.elem] + chain(node.next),
    }
}

impl<T> List<T> {
    /// Returns an iterator over borrows of the elements, head first.
    pub fn iter(&self) -> (r: Iter<'_, T>)
        requires
            self.wf(),
        ensures
            r.wf(),
            r@ == self@,
    {
        let next = match &self.head {
            None => None,
            Some(head) => Some(&**head),
        };
        Iter { next, len: self.len }
    }

    /// Returns an iterator over mutable borrows of the elements, head first.
    ///
    /// Once the borrow ends the list holds what the iterator's nodes hold
    /// then: each element as written through its borrow, in the same order.
    /// `IterMut::next` ties each of those final values to the borrow it hands
    /// out, and `IterMut::lemma_resolved` covers an iterator left before its
    /// end. A list whose length comes back unchanged is well formed again.
    pub fn iter_mut(&mut self) -> (r: IterMut<'_, T>)
        requires
            old(self).wf(),
        ensures
            r.wf(),
            r@ == old(self)@,
            r.cursor() is None ==> final(self)@ == old(self)@,
            r.cursor() is Some ==> final(self)@ == node_items(*final(r.cursor().unwrap())),
            r.cursor() is Some <==> r@.len() > 0,
            final(self)@.len() == old(self)@.len() ==> final(self).wf(),
    {
        let len = self.len;
        let next = match self.head.as_mut() {
            None => None,
            Some(head) => Some(&mut **head),
        };
        IterMut { next, len }
    }

    /// Turns the list into an iterator that hands out its elements, head
    /// first.
    pub fn into_iter(self) -> (r: IntoIter<T>)
        requires
            self.wf(),
        ensures
            r.wf(),
            r@ == self@,
    {
        IntoIter(self)
    }
}

/// An iterator over borrows of a list's elements, head first.
pub struct Iter<'a, T> {
    next: Option<&'a Node<T>>,
    len: usize,
}

impl<'a, T> View for Iter<'a, T> {
    type V = Seq<T>;

    /// The elements that are still to come.
    closed spec fn view(&self) -> Seq<T> {
        chain_from(self.next)
    }
}

impl<'a, T> Iter<'a, T> {
    /// The count of what is left agrees with the chain.
    pub closed spec fn wf(&self) -> bool {
        self.len == chain_from(self.next).len()
    }

    /// Returns the next element, or `None` once every element was handed out.
    pub fn next(&mut self) -> (r: Option<&'a T>)
        requires
            old(self).wf(),
        ensures
            final(self).wf(),
            old(self)@.len() == 0 ==> r is None && final(self)@ == old(self)@,
            old(self)@.len() > 0 ==> r == Some(&old(self)@[0]) && final(self)@
                == old(self)@.drop_first(),
    {
        match self.next {
            None => None,
            Some(node) => {
                self.next = match &node.next {
                    None => None,
                    Some(b) => Some(&**b),
                };
                self.len = self.len - 1;
                Some(&node.elem)
            },
        }
    }

    /// The exact count of elements left: both bounds are the same.
    pub fn size_hint(&self) -> (r: (usize, Option<usize>))
        requires
            self.wf(),
        ensures
            r == (self@.len() as usize, Some(self@.len() as usize)),
    {
        (self.len, Some(self.len))
    }

    /// The count of elements left.
    pub fn len(&self) -> (r: usize)
        requires
            self.wf(),
        ensures
            r == self@.len(),
    {
        self.len
    }
}

/// An iterator over mutable borrows of a list's elements, head first.
pub struct IterMut<'a, T> {
    next: Option<&'a mut Node<T>>,
    len: usize,
}

impl<'a, T> View for IterMut<'a, T> {
    type V = Seq<T>;

    /// The elements that are still to come, as they stand now.
    closed spec fn view(&self) -> Seq<T> {
        match self.next {
            None => Seq::empty(),
            Some(node) => seq![node.elem] + chain(node.next),
        }
    }
}

impl<'a, T> IterMut<'a, T> {
    /// The count of what is left agrees with the chain.
    pub closed spec fn wf(&self) -> bool {
        self.len == self@.len()
    }

    /// The node whose element the next call hands out, if any.
    pub closed spec fn cursor(&self) -> Option<&'a mut Node<T>> {
        self.next
    }

    /// An iterator that is done with, however far it went, leaves the
    /// elements it did not hand out as they stand.
    pub proof fn lemma_resolved(self)
        requires
            has_resolved(self),
        ensures
            self.cursor() is Some ==> node_items(*self.cursor().unwrap()) == self@,
            self.cursor() is Some ==> *final(self.cursor().unwrap()) == *self.cursor().unwrap(),
    {
    }

    /// Returns a mutable borrow of the next element, or `None` once every
    /// element was handed out. The node it came from ends up holding what is
    /// finally written through that borrow, followed by what the rest of the
    /// iteration leaves.
    pub fn next(&mut self) -> (r: Option<&'a mut T>)
        requires
            old(self).wf(),
        ensures
            final(self).wf(),
            old(self)@.len() == 0 ==> r is None && final(self)@ == old(self)@,
            old(self)@.len() > 0 ==> r is Some && *r.unwrap() == old(self)@[0] && final(self)@
                == old(self)@.drop_first(),
            old(self).cursor() is Some <==> old(self)@.len() > 0,
            final(self).cursor() is Some <==> final(self)@.len() > 0,
            old(self).cursor() is Some ==> node_items(*final(old(self).cursor().unwrap())) == seq![
                *final(r.unwrap()),
            ] + if final(self).cursor() is Some {
                node_items(*final(final(self).cursor().unwrap()))
            } else {
                Seq::empty()
            },
    {
        match self.next.take() {
            None => None,
            Some(node) => {
                let Node { elem, next } = node;
                self.next = match next.as_mut() {
                    None => None,
                    Some(b) => Some(&mut **b),
                };
                self.len = self.len - 1;
                Some(elem)
            },
        }
    }

    /// The exact count of elements left: both bounds are the same.
    pub fn size_hint(&self) -> (r: (usize, Option<usize>))
        requires
            self.wf(),
        ensures
            r == (self@.len() as usize, Some(self@.len() as usize)),
    {
        (self.len, Some(self.len))
    }

    /// The count of elements left.
    pub fn len(&self) -> (r: usize)
        requires
            self.wf(),
        ensures
            r == self@.len(),
    {
        self.len
    }
}

/// An iterator that takes a list's elements out, head first.
pub struct IntoIter<T>(List<T>);

impl<T> View for IntoIter<T> {
    type V = Seq<T>;

    /// The elements that are still to come.
    closed spec fn view(&self) -> Seq<T> {
        self.0@
    }
}

impl<T> IntoIter<T> {
    /// The list that is being drained is well formed.
    pub closed spec fn wf(&self) -> bool {
        self.0.wf()
    }

    /// Takes the next element out, or returns `None` once the list is empty.
    pub fn next(&mut self) -> (r: Option<T>)
        requires
            old(self).wf(),
        ensures
            final(self).wf(),
            old(self)@.len() == 0 ==> r is None && final(self)@ == old(self)@,
            old(self)@.len() > 0 ==> r == Some(old(self)@[0]) && final(self)@
                == old(self)@.drop_first(),
    {
        self.0.pop()
    }

    /// The exact count of elements left: both bounds are the same.
    pub fn size_hint(&self) -> (r: (usize, Option<usize>))
        requires
            self.wf(),
        ensures
            r == (self@.len() as usize, Some(self@.len() as usize)),
    {
        (self.0.len, Some(self.0.len))
    }

    /// The count of elements left.
    pub fn len(&self) -> (r: usize)
        requires
            self.wf(),
        ensures
            r == self@.len(),
    {
        self.0.len
    }
}

} // verus!
