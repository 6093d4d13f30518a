//! A sequence with a cursor, held as two stacks that meet at the cursor.

use crate::list::{node_items, Iter, IterMut, List};
use crate::Stack;
use vstd::math::min;
use vstd::prelude::*;

verus! {

/// The sequence that two sides stand for, left end first: the left side
/// reversed, then the right side.
pub open spec fn joined<T>(sides: (Seq<T>, Seq<T>)) -> Seq<T> {
    sides.0.reverse() + sides.1
}

/// The sides after the cursor passes one element of the left side.
pub open spec fn step_left<T>(sides: (Seq<T>, Seq<T>)) -> (Seq<T>, Seq<T>) {
    (sides.0.drop_first(), seq![sides.0[0]] + sides.1)
}

/// The sides after the cursor passes one element of the right side.
pub open spec fn step_right<T>(sides: (Seq<T>, Seq<T>)) -> (Seq<T>, Seq<T>) {
    (seq![sides.1[0]] + sides.0, sides.1.drop_first())
}

/// The sides after the cursor passes the `k` nearest elements of the left
/// side, one at a time.
pub open spec fn shift_left<T>(sides: (Seq<T>, Seq<T>), k: int) -> (Seq<T>, Seq<T>) {
    (sides.0.skip(k), sides.0.take(k).reverse() + sides.1)
}

/// The sides after the cursor passes the `k` nearest elements of the right
/// side, one at a time.
pub open spec fn shift_right<T>(sides: (Seq<T>, Seq<T>), k: int) -> (Seq<T>, Seq<T>) {
    (sides.1.take(k).reverse() + sides.0, sides.1.skip(k))
}

/// A linked list with a zipper.
///
/// The elements left of the cursor are held in `left`, nearest to the cursor
/// first; those right of it in `right`, nearest to the cursor first.
pub struct ZipList<T> {
    left: List<T>,
    right: List<T>,
}

impl<T> View for ZipList<T> {
    /// The two sides, each nearest to the cursor first.
    type V = (Seq<T>, Seq<T>);

    closed spec fn view(&self) -> (Seq<T>, Seq<T>) {
        (self.left@, self.right@)
    }
}

impl<T> ZipList<T> {
    /// Both sides are well formed, and the whole length fits in a `usize`.
    pub closed spec fn wf(&self) -> bool {
        &&& self.left.wf()
        &&& self.right.wf()
        &&& self.left@.len() + self.right@.len() <= usize::MAX
    }

    /// Create a new empty `ZipList`.
    pub fn new() -> (r: Self)
        ensures
            r.wf(),
            r@ == (Seq::<T>::empty(), Seq::<T>::empty()),
    {
        ZipList { left: List::new(), right: List::new() }
    }

    /// Returns an iterator over the elements to the left of the cursor, the
    /// nearest first. It is empty when the cursor is at the left end.
    pub fn left_iter(&self) -> (r: Iter<'_, T>)
        requires
            self.wf(),
        ensures
            r.wf(),
            r@ == self@.0,
    {
        self.left.iter()
    }

    /// Returns an iterator over the elements to the right of the cursor, the
    /// nearest first. It is empty when the cursor is at the right end.
    pub fn right_iter(&self) -> (r: Iter<'_, T>)
        requires
            self.wf(),
        ensures
            r.wf(),
            r@ == self@.1,
    {
        self.right.iter()
    }

    /// Returns a mutable iterator over the elements to the left of the
    /// cursor, the nearest first. Once the borrow ends that side holds what
    /// the iteration wrote, as for `List::iter_mut`; the other side is as it
    /// was.
    pub fn left_iter_mut(&mut self) -> (r: IterMut<'_, T>)
        requires
            old(self).wf(),
        ensures
            r.wf(),
            r@ == old(self)@.0,
            r.cursor() is Some <==> r@.len() > 0,
            r.cursor() is None ==> final(self)@.0 == old(self)@.0,
            r.cursor() is Some ==> final(self)@.0 == node_items(*final(r.cursor().unwrap())),
            final(self)@.0.len() == old(self)@.0.len() ==> final(self).wf(),
            final(self)@.1 == old(self)@.1,
    {
        self.left.iter_mut()
    }

    /// Returns a mutable iterator over the elements to the right of the
    /// cursor, the nearest first. Once the borrow ends that side holds what
    /// the iteration wrote, as for `List::iter_mut`; the other side is as it
    /// was.
    pub fn right_iter_mut(&mut self) -> (r: IterMut<'_, T>)
        requires
            old(self).wf(),
        ensures
            r.wf(),
            r@ == old(self)@.1,
            r.cursor() is Some <==> r@.len() > 0,
            r.cursor() is None ==> final(self)@.1 == old(self)@.1,
            r.cursor() is Some ==> final(self)@.1 == node_items(*final(r.cursor().unwrap())),
            final(self)@.1.len() == old(self)@.1.len() ==> final(self).wf(),
            final(self)@.0 == old(self)@.0,
    {
        self.right.iter_mut()
    }

    /// Removes the element to the left of the cursor and returns it, or
    /// returns `None` if there is none.
    pub fn pop_left(&mut self) -> (r: Option<T>)
        requires
            old(self).wf(),
        ensures
            final(self).wf(),
            final(self)@.1 == old(self)@.1,
            old(self)@.0.len() == 0 ==> r is None && final(self)@.0 == old(self)@.0,
            old(self)@.0.len() > 0 ==> r == Some(old(self)@.0[0]) && final(self)@.0
                == old(self)@.0.drop_first(),
    {
        self.left.pop()
    }

    /// Removes the element to the right of the cursor and returns it, or
    /// returns `None` if there is none.
    pub fn pop_right(&mut self) -> (r: Option<T>)
        requires
            old(self).wf(),
        ensures
            final(self).wf(),
            final(self)@.0 == old(self)@.0,
            old(self)@.1.len() == 0 ==> r is None && final(self)@.1 == old(self)@.1,
            old(self)@.1.len() > 0 ==> r == Some(old(self)@.1[0]) && final(self)@.1
                == old(self)@.1.drop_first(),
    {
        self.right.pop()
    }

    /// Borrows the element to the left of the cursor, or returns `None` if
    /// there is none.
    pub fn peek_left(&self) -> (r: Option<&T>)
        requires
            self.wf(),
        ensures
            self@.0.len() == 0 ==> r is None,
            self@.0.len() > 0 ==> r == Some(&self@.0[0]),
    {
        self.left.peek()
    }

    /// Borrows the element to the right of the cursor, or returns `None` if
    /// there is none.
    pub fn peek_right(&self) -> (r: Option<&T>)
        requires
            self.wf(),
        ensures
            self@.1.len() == 0 ==> r is None,
            self@.1.len() > 0 ==> r == Some(&self@.1[0]),
    {
        self.right.peek()
    }

    /// Mutably borrows the element to the left of the cursor, or returns
    /// `None` if there is none.
    pub fn peek_left_mut(&mut self) -> (r: Option<&mut T>)
        requires
            old(self).wf(),
        ensures
            final(self).wf(),
            final(self)@.1 == old(self)@.1,
            old(self)@.0.len() == 0 ==> r is None && final(self)@.0 == old(self)@.0,
            old(self)@.0.len() > 0 ==> r is Some && *r.unwrap() == old(self)@.0[0]
                && final(self)@.0 == old(self)@.0.update(0, *final(r.unwrap())),
    {
        self.left.peek_mut()
    }

    /// Mutably borrows the element to the right of the cursor, or returns
    /// `None` if there is none.
    pub fn peek_right_mut(&mut self) -> (r: Option<&mut T>)
        requires
            old(self).wf(),
        ensures
            final(self).wf(),
            final(self)@.0 == old(self)@.0,
            old(self)@.1.len() == 0 ==> r is None && final(self)@.1 == old(self)@.1,
            old(self)@.1.len() > 0 ==> r is Some && *r.unwrap() == old(self)@.1[0]
                && final(self)@.1 == old(self)@.1.update(0, *final(r.unwrap())),
    {
        self.right.peek_mut()
    }

    /// Pushes `elem` to the left of the cursor.
    pub fn push_left(&mut self, elem: T) -> (r: &mut Self)
        requires
            old(self).wf(),
            old(self)@.0.len() + old(self)@.1.len() < usize::MAX,
        ensures
            r.wf(),
            r@ == (seq![elem] + old(self)@.0, old(self)@.1),
            *final(self) == *final(r),
    {
        self.left.push(elem);
        self
    }

    /// Pushes `elem` to the right of the cursor.
    pub fn push_right(&mut self, elem: T) -> (r: &mut Self)
        requires
            old(self).wf(),
            old(self)@.0.len() + old(self)@.1.len() < usize::MAX,
        ensures
            r.wf(),
            r@ == (old(self)@.0, seq![elem] + old(self)@.1),
            *final(self) == *final(r),
    {
        self.right.push(elem);
        self
    }

    /// Returns the length of the `ZipList`: the elements on both sides.
    pub fn len(&self) -> (r: usize)
        requires
            self.wf(),
        ensures
            r == self@.0.len() + self@.1.len(),
    {
        self.left.len() + self.right.len()
    }

    /// Whether there are no elements on either side of the cursor.
    pub fn is_empty(&self) -> (r: bool)
        requires
            self.wf(),
        ensures
            r == (self@.0.len() == 0 && self@.1.len() == 0),
    {
        self.left.is_empty() && self.right.is_empty()
    }

    /// Moves the cursor one position to the left: the element left of it
    /// crosses to its right. Returns `false`, and changes nothing, when the
    /// cursor is already at the left end.
    pub fn move_left(&mut self) -> (r: bool)
        requires
            old(self).wf(),
        ensures
            final(self).wf(),
            r == (old(self)@.0.len() > 0),
            r ==> final(self)@ == step_left(old(self)@),
            !r ==> final(self)@ == old(self)@,
    {
        match self.left.uncons() {
            None => false,
            Some(node) => {
                self.right.cons(node);
                true
            },
        }
    }

    /// Moves the cursor one position to the right: the element right of it
    /// crosses to its left. Returns `false`, and changes nothing, when the
    /// cursor is already at the right end.
    pub fn move_right(&mut self) -> (r: bool)
        requires
            old(self).wf(),
        ensures
            final(self).wf(),
            r == (old(self)@.1.len() > 0),
            r ==> final(self)@ == step_right(old(self)@),
            !r ==> final(self)@ == old(self)@,
    {
        match self.right.uncons() {
            None => false,
            Some(node) => {
                self.left.cons(node);
                true
            },
        }
    }

    /// Moves the cursor `n` positions to the left, or to the left end if that
    /// is nearer. Returns the count of positions moved, `min(n, L)` where `L`
    /// is the count of elements left of the cursor. The elements passed over
    /// end on the right side, the first passed the farthest from the cursor.
    pub fn seek_left(&mut self, n: usize) -> (r: usize)
        requires
            old(self).wf(),
        ensures
            final(self).wf(),
            r == min(n as int, old(self)@.0.len() as int),
            final(self)@ == shift_left(old(self)@, r as int),
    {
        let ghost start = self@;
        let mut amount: usize = 0;
        loop
            invariant
                self.wf(),
                amount <= n,
                amount <= start.0.len(),
                self@ == shift_left(start, amount as int),
            ensures
                self.wf(),
                amount == min(n as int, start.0.len() as int),
                self@ == shift_left(start, amount as int),
            decreases n - amount,
        {
            if amount >= n {
                break;
            }
            if !self.move_left() {
                break;
            }
            proof {
                lemma_shift_left_is_steps(start, amount as int);
            }
            amount = amount + 1;
        }
        amount
    }

    /// Moves the cursor `n` positions to the right, or to the right end if
    /// that is nearer. Returns the count of positions moved, `min(n, R)` where
    /// `R` is the count of elements right of the cursor. The elements passed
    /// over end on the left side, the first passed the farthest from the
    /// cursor.
    pub fn seek_right(&mut self, n: usize) -> (r: usize)
        requires
            old(self).wf(),
        ensures
            final(self).wf(),
            r == min(n as int, old(self)@.1.len() as int),
            final(self)@ == shift_right(old(self)@, r as int),
    {
        let ghost start = self@;
        let mut amount: usize = 0;
        loop
            invariant
                self.wf(),
                amount <= n,
                amount <= start.1.len(),
                self@ == shift_right(start, amount as int),
            ensures
                self.wf(),
                amount == min(n as int, start.1.len() as int),
                self@ == shift_right(start, amount as int),
            decreases n - amount,
        {
            if amount >= n {
                break;
            }
            if !self.move_right() {
                break;
            }
            proof {
                lemma_shift_right_is_steps(start, amount as int);
            }
            amount = amount + 1;
        }
        amount
    }
}

/// Passing `k + 1` elements of the left side is passing `k` of them, then one
/// more step: a seek is a run of single moves.
pub proof fn lemma_shift_left_is_steps<T>(sides: (Seq<T>, Seq<T>), k: int)
    requires
        0 <= k < sides.0.len(),
    ensures
        shift_left(sides, k).0.len() > 0,
        shift_left(sides, k + 1) == step_left(shift_left(sides, k)),
{
    assert(sides.0.skip(k).drop_first() =~= sides.0.skip(k + 1));
    assert(sides.0.take(k + 1).reverse() =~= seq![sides.0[k]] + sides.0.take(k).reverse());
    assert(seq![sides.0[k]] + (sides.0.take(k).reverse() + sides.1) =~= sides.0.take(k + 1).reverse()
        + sides.1);
}

/// Passing `k + 1` elements of the right side is passing `k` of them, then
/// one more step: a seek is a run of single moves.
pub proof fn lemma_shift_right_is_steps<T>(sides: (Seq<T>, Seq<T>), k: int)
    requires
        0 <= k < sides.1.len(),
    ensures
        shift_right(sides, k).1.len() > 0,
        shift_right(sides, k + 1) == step_right(shift_right(sides, k)),
{
    assert(sides.1.skip(k).drop_first() =~= sides.1.skip(k + 1));
    assert(sides.1.take(k + 1).reverse() =~= seq![sides.1[k]] + sides.1.take(k).reverse());
    assert(seq![sides.1[k]] + (sides.1.take(k).reverse() + sides.0) =~= sides.1.take(k + 1).reverse()
        + sides.0);
}

/// A move that succeeds keeps what the zipper stands for: the sequence is the
/// same, the cursor is one position over, and the two sides together hold as
/// many elements as before.
pub proof fn lemma_move_keeps_sequence<T>(sides: (Seq<T>, Seq<T>))
    ensures
        sides.0.len() > 0 ==> {
            &&& joined(step_left(sides)) == joined(sides)
            &&& step_left(sides).0.len() == sides.0.len() - 1
            &&& step_left(sides).0.len() + step_left(sides).1.len() == sides.0.len()
                + sides.1.len()
        },
        sides.1.len() > 0 ==> {
            &&& joined(step_right(sides)) == joined(sides)
            &&& step_right(sides).0.len() == sides.0.len() + 1
            &&& step_right(sides).0.len() + step_right(sides).1.len() == sides.0.len()
                + sides.1.len()
        },
{
    if sides.0.len() > 0 {
        let l = sides.0;
        assert(l.reverse() =~= l.drop_first().reverse() + seq![l[0]]);
        assert(joined(step_left(sides)) =~= joined(sides));
    }
    if sides.1.len() > 0 {
        let r = sides.1;
        let after = step_right(sides);
        assert(after.0.reverse() =~= sides.0.reverse() + seq![r[0]]);
        assert(r =~= seq![r[0]] + r.drop_first());
        assert(joined(after) =~= joined(sides));
    }
}

/// A move left that succeeds, then a move right, gives back the sides as they
/// were; and the same the other way round.
pub proof fn lemma_move_round_trip<T>(sides: (Seq<T>, Seq<T>))
    ensures
        sides.0.len() > 0 ==> step_left(sides).1.len() > 0 && step_right(step_left(sides))
            == sides,
        sides.1.len() > 0 ==> step_right(sides).0.len() > 0 && step_left(step_right(sides))
            == sides,
{
    if sides.0.len() > 0 {
        assert(step_right(step_left(sides)).0 =~= sides.0);
        assert(step_right(step_left(sides)).1 =~= sides.1);
    }
    if sides.1.len() > 0 {
        assert(step_left(step_right(sides)).0 =~= sides.0);
        assert(step_left(step_right(sides)).1 =~= sides.1);
    }
}

/// A seek of `n` positions moves `min(n, L)` elements across the cursor, `L`
/// being the count on the side it moves towards: that side shrinks by exactly
/// that count and the other grows by it.
pub proof fn lemma_seek_clamps<T>(sides: (Seq<T>, Seq<T>), n: nat)
    ensures
        ({
            let k = min(n as int, sides.0.len() as int);
            &&& 0 <= k <= n
            &&& k <= sides.0.len()
            &&& shift_left(sides, k).0.len() == sides.0.len() - k
            &&& shift_left(sides, k).1.len() == sides.1.len() + k
        }),
        ({
            let k = min(n as int, sides.1.len() as int);
            &&& 0 <= k <= n
            &&& k <= sides.1.len()
            &&& shift_right(sides, k).1.len() == sides.1.len() - k
            &&& shift_right(sides, k).0.len() == sides.0.len() + k
        }),
{
}

} // verus!
