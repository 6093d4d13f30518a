//! A list with a zipper.
//!
//! A zipper list is a sequence with a moving cursor. It gives constant-time
//! access to the elements on either side of the cursor, and access to any
//! other element in time proportional to its distance from the cursor.
//!
//! The zipper list is built from a pair of singly-linked stacks, so this
//! crate also holds a singly-linked list.

pub mod list;
pub mod render;
pub mod zipper;

pub use list::List;
pub use zipper::ZipList;

use vstd::prelude::*;

verus! {

/// Stack behaviour: last in, first out.
///
/// A stack is seen as the sequence of its items, top first.
pub trait Stack<T>: Sized {
    /// The items of the stack, top first.
    spec fn items(&self) -> Seq<T>;

    /// The representation invariant of the stack.
    spec fn well_formed(&self) -> bool;

    /// Pushes `elem` onto the stack and returns the stack, so that pushes can
    /// be chained.
    fn push(&mut self, elem: T) -> (r: &mut Self)
        requires
            old(self).well_formed(),
            old(self).items().len() < usize::MAX,
        ensures
            r.well_formed(),
            r.items() == seq![elem] + old(self).items(),
            *final(self) == *final(r),
    ;

    /// Removes the top item of the stack and returns it, or `None` if the
    /// stack is empty.
    fn pop(&mut self) -> (r: Option<T>)
        requires
            old(self).well_formed(),
        ensures
            final(self).well_formed(),
            old(self).items().len() == 0 ==> r is None && final(self).items() == old(self).items(),
            old(self).items().len() > 0 ==> r == Some(old(self).items()[0]) && final(self).items()
                == old(self).items().drop_first(),
    ;

    /// Borrows the top item of the stack, or returns `None` if the stack is
    /// empty.
    fn peek(&self) -> (r: Option<&T>)
        requires
            self.well_formed(),
        ensures
            self.items().len() == 0 ==> r is None,
            self.items().len() > 0 ==> r == Some(&self.items()[0]),
    ;

    /// Mutably borrows the top item of the stack, or returns `None` if the
    /// stack is empty. Whatever is written through the borrow becomes the new
    /// top item.
    fn peek_mut(&mut self) -> (r: Option<&mut T>)
        requires
            old(self).well_formed(),
        ensures
            final(self).well_formed(),
            old(self).items().len() == 0 ==> r is None && final(self).items() == old(self).items(),
            old(self).items().len() > 0 ==> r is Some && *r.unwrap() == old(self).items()[0]
                && final(self).items() == old(self).items().update(0, *final(r.unwrap())),
    ;
}

/// The items of a stack whose items were `s`, after each of `xs` is pushed,
/// first to last.
pub open spec fn push_each<T>(s: Seq<T>, xs: Seq<T>) -> Seq<T>
    decreases xs.len(),
{
    if xs.len() == 0 {
        s
    } else {
        push_each(seq![xs[0]] + s, xs.drop_first())
    }
}

/// What `n` pops hand out, in order, from a stack whose items are `s`: one
/// item for each pop that finds the stack non-empty.
pub open spec fn pops<T>(s: Seq<T>, n: nat) -> Seq<T>
    decreases n,
{
    if n == 0 || s.len() == 0 {
        Seq::empty()
    } else {
        seq![s[0]] + pops(s.drop_first(), (n - 1) as nat)
    }
}

/// The items that `n` pops leave on a stack whose items are `s`.
pub open spec fn after_pops<T>(s: Seq<T>, n: nat) -> Seq<T>
    decreases n,
{
    if n == 0 || s.len() == 0 {
        s
    } else {
        after_pops(s.drop_first(), (n - 1) as nat)
    }
}

/// Pushing `xs` puts them on top of the stack in reverse order, so that the
/// last pushed comes first, as iteration shows.
pub proof fn lemma_push_each<T>(s: Seq<T>, xs: Seq<T>)
    ensures
        push_each(s, xs) == xs.reverse() + s,
    decreases xs.len(),
{
    if xs.len() > 0 {
        lemma_push_each(seq![xs[0]] + s, xs.drop_first());
        assert(xs.reverse() =~= xs.drop_first().reverse() + seq![xs[0]]);
        assert(xs.drop_first().reverse() + (seq![xs[0]] + s) =~= xs.reverse() + s);
    }
}

/// Popping the first `t.len()` items of a stack whose items are `t + s` hands
/// out `t` and leaves `s`.
proof fn lemma_pops_prefix<T>(t: Seq<T>, s: Seq<T>)
    ensures
        pops(t + s, t.len()) == t,
        after_pops(t + s, t.len()) == s,
    decreases t.len(),
{
    if t.len() > 0 {
        lemma_pops_prefix(t.drop_first(), s);
        assert((t + s).drop_first() =~= t.drop_first() + s);
        assert(t =~= seq![t[0]] + t.drop_first());
    }
}

/// Pushing a sequence of items, then popping as many times, hands them back in
/// exact reverse order (last pushed, first popped) and leaves the stack as it
/// was.
pub proof fn lemma_push_then_pop<T>(s: Seq<T>, xs: Seq<T>)
    ensures
        pops(push_each(s, xs), xs.len()) == xs.reverse(),
        after_pops(push_each(s, xs), xs.len()) == s,
{
    lemma_push_each(s, xs);
    lemma_pops_prefix(xs.reverse(), s);
}

/// After pushes of a non-empty sequence, the top item, which `peek` borrows
/// as often as it is called, is the last one pushed, and it is the one that a
/// following `pop` takes.
pub proof fn lemma_peek_then_pop<T>(s: Seq<T>, xs: Seq<T>)
    requires
        xs.len() > 0,
    ensures
        push_each(s, xs).len() > 0,
        push_each(s, xs)[0] == xs.last(),
        pops(push_each(s, xs), 1) == seq![xs.last()],
{
    lemma_push_each(s, xs);
    let p = push_each(s, xs);
    assert(p[0] == xs.reverse()[0]);
    assert(pops(p.drop_first(), 0) == Seq::<T>::empty());
    assert(pops(p, 1) =~= seq![p[0]]);
}

} // verus!
