use quickcheck::quickcheck;
use ziplist::list::Iter;
use ziplist::ZipList;

fn items(it: Iter<'_, i32>) -> Vec<i32> {
    let mut it = it;
    let mut out = Vec::new();
    while let Some(x) = it.next() {
        out.push(*x);
    }
    out
}

fn left(z: &ZipList<i32>) -> Vec<i32> {
    items(z.left_iter())
}

fn right(z: &ZipList<i32>) -> Vec<i32> {
    items(z.right_iter())
}

fn zip_of(l: &[i32], r: &[i32]) -> ZipList<i32> {
    let mut z = ZipList::new();
    for &x in l {
        z.push_left(x);
    }
    for &x in r {
        z.push_right(x);
    }
    z
}

#[test]
fn new_ziplist_is_empty() {
    let z: ZipList<i32> = ZipList::new();
    assert_eq!(z.len(), 0);
    assert!(z.is_empty());
    assert_eq!(z.peek_left(), None);
    assert_eq!(z.peek_right(), None);
}

#[test]
fn end_to_end_scenario() {
    let mut z = ZipList::new();
    z.push_left(1);
    z.push_left(2);
    z.push_right(3);
    assert_eq!(left(&z), vec![2, 1]);
    assert_eq!(right(&z), vec![3]);
    assert!(z.move_left());
    assert_eq!(left(&z), vec![1]);
    assert_eq!(right(&z), vec![2, 3]);
    assert_eq!(z.peek_right(), Some(&2));
    assert_eq!(z.seek_right(5), 2);
    assert_eq!(left(&z), vec![3, 2, 1]);
    assert_eq!(right(&z), Vec::<i32>::new());
    assert_eq!(z.len(), 3);
}

#[test]
fn iteration_order_of_both_sides() {
    let z = zip_of(&[1, 2], &[3, 4]);
    assert_eq!(left(&z), vec![2, 1]);
    assert_eq!(right(&z), vec![4, 3]);
    assert_eq!(z.left_iter().len(), 2);
    assert_eq!(z.right_iter().size_hint(), (2, Some(2)));
}

#[test]
fn push_right_goes_to_the_right_side() {
    let mut z = ZipList::new();
    z.push_right(5).push_right(6);
    assert_eq!(left(&z), Vec::<i32>::new());
    assert_eq!(right(&z), vec![6, 5]);
    assert_eq!(z.peek_right(), Some(&6));
    assert_eq!(z.peek_left(), None);
}

#[test]
fn push_left_chains() {
    let mut z = ZipList::new();
    z.push_left(1).push_left(2).push_right(3);
    assert_eq!(left(&z), vec![2, 1]);
    assert_eq!(right(&z), vec![3]);
}

#[test]
fn pop_takes_the_cursor_neighbours() {
    let mut z = zip_of(&[1, 2], &[3, 4]);
    assert_eq!(z.pop_left(), Some(2));
    assert_eq!(z.pop_right(), Some(4));
    assert_eq!(z.len(), 2);
    assert_eq!(z.pop_left(), Some(1));
    assert_eq!(z.pop_left(), None);
    assert_eq!(z.pop_right(), Some(3));
    assert_eq!(z.pop_right(), None);
    assert!(z.is_empty());
}

#[test]
fn peek_mut_writes_through() {
    let mut z = zip_of(&[1], &[2]);
    *z.peek_left_mut().unwrap() = 10;
    *z.peek_right_mut().unwrap() = 20;
    assert_eq!(left(&z), vec![10]);
    assert_eq!(right(&z), vec![20]);
    let mut e: ZipList<i32> = ZipList::new();
    assert!(e.peek_left_mut().is_none());
    assert!(e.peek_right_mut().is_none());
}

#[test]
fn iter_mut_on_both_sides() {
    let mut z = zip_of(&[1, 2], &[3, 4]);
    {
        let mut it = z.left_iter_mut();
        while let Some(x) = it.next() {
            *x *= 10;
        }
    }
    {
        let mut it = z.right_iter_mut();
        assert_eq!(it.len(), 2);
        while let Some(x) = it.next() {
            *x += 1;
        }
    }
    assert_eq!(left(&z), vec![20, 10]);
    assert_eq!(right(&z), vec![5, 4]);
}

#[test]
fn moves_at_the_ends_change_nothing() {
    let mut z: ZipList<i32> = ZipList::new();
    assert!(!z.move_left());
    assert!(!z.move_right());
    z.push_left(1);
    assert!(!z.move_right());
    assert_eq!(left(&z), vec![1]);
    assert!(z.move_left());
    assert!(!z.move_left());
    assert_eq!(left(&z), Vec::<i32>::new());
    assert_eq!(right(&z), vec![1]);
    assert_eq!(z.pop_left(), None);
}

#[test]
fn move_left_then_right_restores() {
    let mut z = zip_of(&[1, 2, 3], &[4]);
    assert!(z.move_left());
    assert_eq!(left(&z), vec![2, 1]);
    assert_eq!(right(&z), vec![3, 4]);
    assert!(z.move_right());
    assert_eq!(left(&z), vec![3, 2, 1]);
    assert_eq!(right(&z), vec![4]);
}

#[test]
fn seek_left_clamps_to_what_is_there() {
    let mut z = zip_of(&[1, 2, 3], &[9]);
    assert_eq!(z.seek_left(2), 2);
    assert_eq!(left(&z), vec![1]);
    assert_eq!(right(&z), vec![2, 3, 9]);
    assert_eq!(z.seek_left(10), 1);
    assert_eq!(left(&z), Vec::<i32>::new());
    assert_eq!(right(&z), vec![1, 2, 3, 9]);
    assert_eq!(z.seek_left(1), 0);
    assert_eq!(z.seek_left(0), 0);
    assert_eq!(z.len(), 4);
}

#[test]
fn seek_right_clamps_to_what_is_there() {
    let mut z = zip_of(&[1], &[4, 3, 2]);
    assert_eq!(z.seek_right(0), 0);
    assert_eq!(z.seek_right(usize::MAX), 3);
    assert_eq!(left(&z), vec![4, 3, 2, 1]);
    assert_eq!(right(&z), Vec::<i32>::new());
    assert_eq!(z.seek_right(1), 0);
}

fn zip_len_is_sum(l: Vec<i32>, r: Vec<i32>, moves: Vec<bool>) -> bool {
    let mut z = zip_of(&l, &r);
    let total = l.len() + r.len();
    for m in moves {
        if m {
            z.move_left();
        } else {
            z.move_right();
        }
        if z.len() != total || left(&z).len() + right(&z).len() != total {
            return false;
        }
    }
    true
}

fn zip_round_trip(l: Vec<i32>, r: Vec<i32>) -> bool {
    let mut z = zip_of(&l, &r);
    let (l0, r0) = (left(&z), right(&z));
    if z.move_left() {
        z.move_right() && left(&z) == l0 && right(&z) == r0
    } else {
        l.is_empty() && left(&z) == l0 && right(&z) == r0
    }
}

fn zip_seek_left_count(l: Vec<i32>, r: Vec<i32>, n: u8) -> bool {
    let mut z = zip_of(&l, &r);
    let n = n as usize;
    let k = n.min(l.len());
    z.seek_left(n) == k && left(&z).len() == l.len() - k && right(&z).len() == r.len() + k
}

#[test]
fn quickcheck_zip_len_is_sum() {
    quickcheck(zip_len_is_sum as fn(Vec<i32>, Vec<i32>, Vec<bool>) -> bool);
}

#[test]
fn quickcheck_zip_round_trip() {
    quickcheck(zip_round_trip as fn(Vec<i32>, Vec<i32>) -> bool);
}

#[test]
fn quickcheck_zip_seek_left_count() {
    quickcheck(zip_seek_left_count as fn(Vec<i32>, Vec<i32>, u8) -> bool);
}
