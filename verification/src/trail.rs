//! The bounded history of positions that is kept for every body.

use std::collections::VecDeque;
use vstd::prelude::*;
use crate::body::Point;

verus! {

/// The last `cap` entries of `s`, in their order; all of `s` if it has no
/// more than `cap` entries.
pub open spec fn latest<T>(s: Seq<T>, cap: nat) -> Seq<T> {
    if s.len() <= cap {
        s
    } else {
        s.skip(s.len() - cap)
    }
}

/// What a buffer of capacity `cap` holds after `added` has been pushed onto
/// the contents `held`, one entry after the other.
pub open spec fn pushed_all<T>(held: Seq<T>, cap: nat, added: Seq<T>) -> Seq<T>
    decreases added.len(),
{
    if added.len() == 0 {
        held
    } else {
        latest(pushed_all(held, cap, added.drop_last()).push(added.last()), cap)
    }
}

/// Keeping the last `cap` entries, adding one and keeping the last `cap`
/// again gives the same as adding it to the whole history first.
pub proof fn latest_absorbs_push<T>(s: Seq<T>, cap: nat, x: T)
    ensures
        latest(latest(s, cap).push(x), cap) == latest(s.push(x), cap),
{
    if s.len() <= cap {
    } else if cap == 0 {
        assert(latest(s, cap).push(x).skip(1) =~= Seq::<T>::empty());
        assert(s.push(x).skip(s.len() + 1 - cap) =~= Seq::<T>::empty());
    } else {
        let kept = s.skip(s.len() - cap);
        assert(kept.push(x).skip(1) =~= s.push(x).skip(s.len() + 1 - cap));
    }
}

/// A buffer of capacity `cap` that held `held` and was then given the
/// positions `added`, one push each, holds the last `cap` entries of `held`
/// followed by `added`.
pub proof fn pushes_keep_latest<T>(held: Seq<T>, cap: nat, added: Seq<T>)
    requires
        held.len() <= cap,
    ensures
        pushed_all(held, cap, added) == latest(held + added, cap),
        pushed_all(held, cap, added).len() <= cap,
    decreases added.len(),
{
    if added.len() == 0 {
        assert(held + added =~= held);
    } else {
        let front = added.drop_last();
        pushes_keep_latest(held, cap, front);
        latest_absorbs_push(held + front, cap, added.last());
        assert((held + front).push(added.last()) =~= held + added);
    }
}

/// An empty buffer of capacity `cap` that is given `cap` positions or more
/// is full afterwards and holds exactly the last `cap` of them, in the order
/// in which they came.
pub proof fn overfilled_buffer_holds_last<T>(cap: nat, added: Seq<T>)
    requires
        added.len() >= cap,
    ensures
        pushed_all(Seq::<T>::empty(), cap, added).len() == cap,
        pushed_all(Seq::<T>::empty(), cap, added) == added.skip(added.len() - cap),
{
    pushes_keep_latest(Seq::<T>::empty(), cap, added);
    assert(Seq::<T>::empty() + added =~= added);
    if added.len() == cap {
        assert(added.skip(0) =~= added);
    }
}

/// The error of reading a position that the buffer does not hold.
#[derive(Debug, Clone, Copy, PartialEq, Eq, Structural)]
pub struct IndexOutOfRange {
    pub index: usize,
    pub len: usize,
}

/// A ring of positions with a capacity that is fixed when it is made.
///
/// The view is the sequence of positions held, oldest first.  It never has
/// more entries than the capacity: pushing onto a full buffer drops the
/// oldest entry.
#[derive(Debug)]
pub struct CapVecDeque {
    capacity: usize,
    inner: VecDeque<Point>,
}

impl View for CapVecDeque {
    type V = Seq<Point>;

    closed spec fn view(&self) -> Seq<Point> {
        self.inner@
    }
}

impl CapVecDeque {
    #[verifier::type_invariant]
    spec fn within_capacity(&self) -> bool {
        self.inner@.len() <= self.capacity
    }

    /// The capacity the buffer was made with.
    pub closed spec fn spec_capacity(&self) -> usize {
        self.capacity
    }

    /// The number of positions held.
    pub open spec fn spec_len(&self) -> usize {
        self@.len() as usize
    }

    /// An empty buffer that keeps a single position.
    pub fn new() -> (buffer: CapVecDeque)
        ensures
            buffer@ == Seq::<Point>::empty(),
            buffer.capacity() == 1,
    {
        CapVecDeque { capacity: 1, inner: VecDeque::new() }
    }

    /// An empty buffer that keeps the `cap` most recent positions.  Storage
    /// is taken as positions arrive, not ahead of time.
    pub fn with_capacity(cap: usize) -> (buffer: CapVecDeque)
        ensures
            buffer@ == Seq::<Point>::empty(),
            buffer.capacity() == cap,
    {
        CapVecDeque { capacity: cap, inner: VecDeque::new() }
    }

    #[verifier::when_used_as_spec(spec_len)]
    pub fn len(&self) -> (len: usize)
        ensures
            len == self@.len(),
            len <= self.capacity(),
    {
        proof {
            use_type_invariant(self);
        }
        self.inner.len()
    }

    #[verifier::when_used_as_spec(spec_capacity)]
    pub fn capacity(&self) -> (capacity: usize)
        ensures
            capacity == self.spec_capacity(),
            self@.len() <= capacity,
    {
        proof {
            use_type_invariant(self);
        }
        self.capacity
    }

    /// Takes the oldest position out, if there is one.
    pub fn pop_front(&mut self) -> (oldest: Option<Point>)
        ensures
            final(self).capacity() == old(self).capacity(),
            old(self)@.len() == 0 ==> oldest.is_none() && final(self)@ == old(self)@,
            old(self)@.len() > 0 ==> oldest == Some(old(self)@[0]) && final(self)@ == old(
                self,
            )@.skip(1),
    {
        proof {
            use_type_invariant(&*self);
        }
        let mut inner: VecDeque<Point> = VecDeque::new();
        std::mem::swap(&mut self.inner, &mut inner);
        let oldest = inner.pop_front();
        self.inner = inner;
        oldest
    }

    /// Appends `elem` as the newest position.  A full buffer first drops its
    /// oldest position, and a buffer of capacity zero stays empty.
    pub fn push_back(&mut self, elem: Point)
        ensures
            final(self).capacity() == old(self).capacity(),
            final(self)@ == latest(old(self)@.push(elem), old(self).capacity() as nat),
    {
        proof {
            use_type_invariant(&*self);
        }
        if self.capacity == 0 {
            return ;
        }
        let mut inner: VecDeque<Point> = VecDeque::new();
        std::mem::swap(&mut self.inner, &mut inner);
        if inner.len() == self.capacity {
            inner.pop_front();
        }
        inner.push_back(elem);
        self.inner = inner;
    }

    /// Records `element` as the newest position of the ring, overwriting the
    /// oldest one once the ring is full.
    pub fn add_element(&mut self, element: Point)
        ensures
            final(self).capacity() == old(self).capacity(),
            final(self)@ == latest(old(self)@.push(element), old(self).capacity() as nat),
    {
        if self.len() == self.capacity() {
            self.pop_front();
            self.push_back(element);
        } else {
            self.push_back(element);
        }
    }

    /// The position at `index`, counted from the oldest.
    pub fn index(&self, index: usize) -> (point: &Point)
        requires
            index < self@.len(),
        ensures
            *point == self@[index as int],
    {
        &self.inner[index]
    }

    /// The position at `index`, counted from the oldest, or the error that
    /// says how many positions there are.
    pub fn get(&self, index: usize) -> (found: Result<Point, IndexOutOfRange>)
        ensures
            index < self@.len() ==> found == Ok::<Point, IndexOutOfRange>(self@[index as int]),
            index >= self@.len() ==> found == Err::<Point, IndexOutOfRange>(
                IndexOutOfRange { index, len: self@.len() as usize },
            ),
    {
        let len = self.inner.len();
        if index < len {
            Ok(self.inner[index])
        } else {
            Err(IndexOutOfRange { index, len })
        }
    }
}

impl Clone for CapVecDeque {
    /// A buffer of the same capacity that holds the same positions.
    fn clone(&self) -> (copy: CapVecDeque)
        ensures
            copy@ == self@,
            copy.capacity() == self.capacity(),
    {
        proof {
            use_type_invariant(self);
        }
        let mut inner: VecDeque<Point> = VecDeque::new();
        let len = self.inner.len();
        let mut i: usize = 0;
        while i < len
            invariant
                len == self.inner@.len(),
                i <= len,
                inner@ == self.inner@.take(i as int),
            decreases len - i,
        {
            inner.push_back(self.inner[i]);
            i += 1;
        }
        CapVecDeque { capacity: self.capacity, inner }
    }
}

} // verus!
