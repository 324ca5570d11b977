//! Fixed-capacity, insertion-ordered ring buffer.
//!
//! A `RingBuffer<T, N>` holds at most `N` entries in insertion order.
//! Inserting beyond capacity evicts the oldest entry (FIFO eviction). The
//! capacity is fixed by the type and never changes.
//!
//! The representation is a statically-sized arena: the backing vector is
//! allocated once with room for `N` entries and filled at most once; from
//! then on insertion overwrites the oldest slot in place and advances a
//! wrapping head index, so the buffer never grows and never shifts its
//! entries.

use vstd::prelude::*;

verus! {

/// What one insertion does to a buffer's contents: appends, and when the
/// buffer is full first drops the oldest entry. A capacity of zero retains
/// nothing.
pub open spec fn ring_push<T>(s: Seq<T>, x: T, cap: nat) -> Seq<T> {
    if s.len() < cap {
        s.push(x)
    } else if cap == 0 {
        s
    } else {
        s.skip(1).push(x)
    }
}

/// Fixed-capacity FIFO buffer of at most `N` entries, viewed as the sequence
/// of its entries from oldest to newest.
///
/// While the arena is still filling, `head` is zero and the arena is the
/// view itself; once the arena holds `N` entries, `head` is the slot of the
/// oldest entry, and the view wraps around the arena's end.
pub struct RingBuffer<T, const N: usize> {
    entries: Vec<T>,
    head: usize,
}

impl<T, const N: usize> View for RingBuffer<T, N> {
    type V = Seq<T>;

    closed spec fn view(&self) -> Seq<T> {
        self.entries@.skip(self.head as int) + self.entries@.take(self.head as int)
    }
}

impl<T, const N: usize> RingBuffer<T, N> {
    /// Well-formedness: the arena never exceeds the capacity, the head
    /// index stays inside it, and the head sits at the start until the
    /// arena has filled.
    pub closed spec fn wf(&self) -> bool {
        &&& self.entries@.len() <= N
        &&& (self.entries@.len() < N ==> self.head == 0)
        &&& (N > 0 ==> self.head < N)
        &&& (N == 0 ==> self.head == 0)
    }

    /// An empty buffer, with its arena allocated once up front.
    pub fn new() -> (r: Self)
        ensures
            r.wf(),
            r@ == Seq::<T>::empty(),
    {
        let r = RingBuffer { entries: Vec::with_capacity(N), head: 0 };
        proof {
            assert(r@ =~= Seq::<T>::empty());
        }
        r
    }

    /// Appends one entry, evicting the oldest if the buffer is full: the
    /// arena grows until it reaches capacity, then the oldest slot is
    /// overwritten in place and the head wraps forward.
    pub fn push(&mut self, x: T)
        requires
            old(self).wf(),
        ensures
            final(self).wf(),
            final(self)@ == ring_push(old(self)@, x, N as nat),
    {
        if self.entries.len() < N {
            self.entries.push(x);
            proof {
                assert(self@ =~= ring_push(old(self)@, x, N as nat));
            }
        } else if N > 0 {
            self.entries.set(self.head, x);
            if self.head + 1 == N {
                self.head = 0;
            } else {
                self.head = self.head + 1;
            }
            proof {
                assert(self@ =~= ring_push(old(self)@, x, N as nat));
            }
        }
    }

    /// How many entries the buffer currently holds.
    pub fn len(&self) -> (n: usize)
        requires
            self.wf(),
        ensures
            n == self@.len(),
    {
        self.entries.len()
    }

    /// The entry at position `i`, counted from the oldest.
    pub fn get(&self, i: usize) -> (r: &T)
        requires
            self.wf(),
            i < self@.len(),
        ensures
            *r == self@[i as int],
    {
        if self.entries.len() < N {
            &self.entries[i]
        } else {
            let oldest_run = N - self.head;
            if i < oldest_run {
                &self.entries[self.head + i]
            } else {
                &self.entries[i - oldest_run]
            }
        }
    }
}

impl<T: Copy, const N: usize> RingBuffer<T, N> {
    /// The current entries, oldest first, as a fresh vector.
    pub fn to_vec(&self) -> (out: Vec<T>)
        requires
            self.wf(),
        ensures
            out@ == self@,
    {
        let n = self.len();
        let mut out: Vec<T> = Vec::new();
        let mut i: usize = 0;
        while i < n
            invariant
                self.wf(),
                i <= n,
                n == self@.len(),
                out@ == self@.subrange(0, i as int),
            decreases n - i,
        {
            out.push(*self.get(i));
            i = i + 1;
        }
        proof {
            assert(out@ =~= self@);
        }
        out
    }
}

} // verus!
