//! The submission/completion ring protocol.
//!
//! [`IoUring`] owns two circular buffers of equal capacity: the submission
//! queue, filled by the caller and drained towards the kernel, and the
//! completion queue, filled from the kernel and drained by the caller. Each
//! queue is a fixed block of slots with a head index and a length; the slot
//! written or read next is `(head + length) mod capacity` or `head`, and
//! full/empty detection is a comparison of the length against the capacity —
//! the head/tail relationship is checked before every slot access, never
//! after.
//!
//! The kernel side of the protocol (the blocking enter call, the shared
//! memory mappings) cannot be verified, so it stays outside: an unverified
//! shim takes the pending records ([`IoUring::pending_records`]), performs
//! the system call, reports how many the kernel accepted
//! ([`IoUring::mark_submitted`]) and hands back each completion it finds
//! ([`IoUring::push_completion`]). Everything the ring itself decides —
//! when a queue is full or empty, which slot is touched, that records pass
//! through unchanged and in first-in-first-out order — is verified here.
//!
//! Completions correlate to submissions only through the caller-chosen tag:
//! the kernel may complete requests in any order, and the ring neither
//! reorders nor deduplicates.

use vstd::prelude::*;

use crate::entry::Sqe;

verus! {

/// One completion record: the echoed opaque tag, a signed result (negative
/// is an OS error code magnitude, non-negative a success value such as bytes
/// transferred), and completion flags.
#[derive(Clone, Copy, Debug, PartialEq, Eq, Structural)]
pub struct Cqe {
    pub user_data: u64,
    pub res: i32,
    pub flags: u32,
}

/// The recoverable queue conditions. A full submission queue asks the caller
/// to submit before enqueueing more; an empty completion queue says no work
/// is ready. Neither is a failure, and the ring signals nothing else.
#[derive(Clone, Copy, Debug, PartialEq, Eq, Structural)]
pub enum RingError {
    /// The submission queue already holds `capacity` records.
    SqFull,
    /// The completion queue holds no record.
    CqEmpty,
    /// The completion queue already holds `capacity` records.
    CqFull,
}

/// What appending to a bounded queue does: refused exactly when the queue
/// already holds `capacity` items, otherwise the item goes on the back.
pub open spec fn ring_push<T>(q: Seq<T>, capacity: int, x: T) -> Option<Seq<T>> {
    if q.len() < capacity {
        Some(q.push(x))
    } else {
        None
    }
}

/// What taking from the front of a queue does: refused exactly when the
/// queue is empty, otherwise the front item leaves and the rest shift up.
pub open spec fn ring_pop<T>(q: Seq<T>) -> Option<(T, Seq<T>)> {
    if q.len() == 0 {
        None
    } else {
        Some((q[0], q.drop_first()))
    }
}

/// `ring_push` iterated over a sequence of items, left to right; `None` as
/// soon as one push is refused.
pub open spec fn ring_push_all<T>(q: Seq<T>, capacity: int, xs: Seq<T>) -> Option<Seq<T>>
    decreases xs.len(),
{
    if xs.len() == 0 {
        Some(q)
    } else {
        match ring_push(q, capacity, xs[0]) {
            Some(q1) => ring_push_all(q1, capacity, xs.drop_first()),
            None => None,
        }
    }
}

/// `ring_pop` iterated `n` times; `None` as soon as one pop is refused.
pub open spec fn ring_pop_n<T>(q: Seq<T>, n: nat) -> Option<Seq<T>>
    decreases n,
{
    if n == 0 {
        Some(q)
    } else {
        match ring_pop(q) {
            Some(p) => ring_pop_n(p.1, (n - 1) as nat),
            None => None,
        }
    }
}

/// The submission/completion ring: both queues, their indices, and the
/// requested capacity. Construction of the kernel's counterpart (the sizing
/// call and the mappings) is the unverified shim's job; it hands the
/// kernel-granted capacity in here.
pub struct IoUring {
    sq: Vec<Sqe>,
    sq_head: usize,
    sq_len: usize,
    cq: Vec<Cqe>,
    cq_head: usize,
    cq_len: usize,
    capacity: usize,
}

impl IoUring {
    /// The capacity both queues were built with.
    pub closed spec fn capacity_spec(&self) -> int {
        self.capacity as int
    }

    /// The slot index `i` places past a queue head, wrapped once around a
    /// buffer of `capacity` slots.
    spec fn wrap(head: int, i: int, capacity: int) -> int {
        if head + i < capacity {
            head + i
        } else {
            head + i - capacity
        }
    }

    /// The submission queue's contents, oldest first: the records enqueued
    /// and not yet handed to the kernel.
    pub closed spec fn sq_view(&self) -> Seq<Sqe> {
        Seq::new(self.sq_len as nat, |i: int| self.sq@[Self::wrap(self.sq_head as int, i, self.capacity as int)])
    }

    /// The completion queue's contents, oldest first: the completions handed
    /// in from the kernel and not yet reaped.
    pub closed spec fn cq_view(&self) -> Seq<Cqe> {
        Seq::new(self.cq_len as nat, |i: int| self.cq@[Self::wrap(self.cq_head as int, i, self.capacity as int)])
    }

    /// Well-formedness: both buffers span exactly `capacity` slots, each head
    /// points inside its buffer, and each queue holds at most `capacity`
    /// records. The capacity bound keeps every index computation inside
    /// `usize`.
    pub closed spec fn wf(&self) -> bool {
        &&& 1 <= self.capacity
        &&& self.capacity <= usize::MAX / 2
        &&& self.sq@.len() == self.capacity
        &&& self.cq@.len() == self.capacity
        &&& self.sq_head < self.capacity
        &&& self.cq_head < self.capacity
        &&& self.sq_len <= self.capacity
        &&& self.cq_len <= self.capacity
    }

    /// A fresh ring of `entries` slots per queue, both queues empty: nothing
    /// pending, nothing to reap.
    pub fn new(entries: usize) -> (r: IoUring)
        requires
            1 <= entries <= usize::MAX / 2,
        ensures
            r.wf(),
            r.capacity_spec() == entries,
            r.sq_view() == Seq::<Sqe>::empty(),
            r.cq_view() == Seq::<Cqe>::empty(),
    {
        let mut sq: Vec<Sqe> = Vec::new();
        let mut cq: Vec<Cqe> = Vec::new();
        let mut i: usize = 0;
        while i < entries
            invariant
                i <= entries,
                sq@.len() == i,
                cq@.len() == i,
            decreases entries - i,
        {
            sq.push(Sqe::zeroed());
            cq.push(Cqe { user_data: 0, res: 0, flags: 0 });
            i = i + 1;
        }
        let r = IoUring { sq, sq_head: 0, sq_len: 0, cq, cq_head: 0, cq_len: 0, capacity: entries };
        proof {
            assert(r.sq_view() =~= Seq::<Sqe>::empty());
            assert(r.cq_view() =~= Seq::<Cqe>::empty());
        }
        r
    }

    /// The capacity both queues were built with.
    pub fn capacity(&self) -> (r: usize)
        ensures
            r == self.capacity_spec(),
    {
        self.capacity
    }

    /// How many records are enqueued and not yet handed to the kernel.
    pub fn sq_pending(&self) -> (r: usize)
        requires
            self.wf(),
        ensures
            r == self.sq_view().len(),
    {
        self.sq_len
    }

    /// How many completions are waiting to be reaped.
    pub fn cq_ready(&self) -> (r: usize)
        requires
            self.wf(),
        ensures
            r == self.cq_view().len(),
    {
        self.cq_len
    }

    /// Places a record in the next free submission slot, or refuses with
    /// `SqFull` — leaving the ring untouched — exactly when the queue
    /// already holds `capacity` records. The record enters the queue behind
    /// every earlier one, unchanged; the completion queue is not touched.
    pub fn enqueue(&mut self, rec: Sqe) -> (r: Result<(), RingError>)
        requires
            old(self).wf(),
        ensures
            final(self).wf(),
            final(self).capacity_spec() == old(self).capacity_spec(),
            final(self).cq_view() == old(self).cq_view(),
            match ring_push(old(self).sq_view(), old(self).capacity_spec(), rec) {
                Some(q) => r == Ok::<(), RingError>(()) && final(self).sq_view() == q,
                None => r == Err::<(), RingError>(RingError::SqFull) && *final(self) == *old(self),
            },
    {
        if self.sq_len == self.capacity {
            return Err(RingError::SqFull);
        }
        let pos = if self.sq_head + self.sq_len >= self.capacity {
            self.sq_head + self.sq_len - self.capacity
        } else {
            self.sq_head + self.sq_len
        };
        self.sq[pos] = rec;
        self.sq_len = self.sq_len + 1;
        proof {
            assert(self.sq_view() =~= old(self).sq_view().push(rec));
            assert(self.cq_view() =~= old(self).cq_view());
        }
        Ok(())
    }

    /// The records currently pending, oldest first: what the next submission
    /// hands to the kernel. Copies; the queue is not changed.
    pub fn pending_records(&self) -> (r: Vec<Sqe>)
        requires
            self.wf(),
        ensures
            r@ == self.sq_view(),
    {
        let mut out: Vec<Sqe> = Vec::new();
        let mut i: usize = 0;
        while i < self.sq_len
            invariant
                self.wf(),
                i <= self.sq_len,
                out@ == self.sq_view().subrange(0, i as int),
            decreases self.sq_len - i,
        {
            let pos = if self.sq_head + i >= self.capacity {
                self.sq_head + i - self.capacity
            } else {
                self.sq_head + i
            };
            out.push(self.sq[pos]);
            proof {
                assert(out@ =~= self.sq_view().subrange(0, i + 1));
            }
            i = i + 1;
        }
        proof {
            assert(out@ =~= self.sq_view());
        }
        out
    }

    /// Records that the kernel accepted the `accepted` oldest pending
    /// records: they leave the submission queue (ownership of their slots
    /// passes back to this side), the rest stay, in order. The completion
    /// queue is not touched.
    pub fn mark_submitted(&mut self, accepted: usize)
        requires
            old(self).wf(),
            accepted <= old(self).sq_view().len(),
        ensures
            final(self).wf(),
            final(self).capacity_spec() == old(self).capacity_spec(),
            final(self).cq_view() == old(self).cq_view(),
            final(self).sq_view() == old(self).sq_view().subrange(
                accepted as int,
                old(self).sq_view().len() as int,
            ),
    {
        self.sq_head = if self.sq_head + accepted >= self.capacity {
            self.sq_head + accepted - self.capacity
        } else {
            self.sq_head + accepted
        };
        self.sq_len = self.sq_len - accepted;
        proof {
            assert(self.sq_view() =~= old(self).sq_view().subrange(
                accepted as int,
                old(self).sq_view().len() as int,
            ));
            assert(self.cq_view() =~= old(self).cq_view());
        }
    }

    /// Hands in one completion found on the kernel side. It joins the
    /// completion queue behind every earlier one, unchanged — or the call
    /// refuses with `CqFull`, leaving the ring untouched, exactly when the
    /// queue already holds `capacity` records. The submission queue is not
    /// touched.
    pub fn push_completion(&mut self, c: Cqe) -> (r: Result<(), RingError>)
        requires
            old(self).wf(),
        ensures
            final(self).wf(),
            final(self).capacity_spec() == old(self).capacity_spec(),
            final(self).sq_view() == old(self).sq_view(),
            match ring_push(old(self).cq_view(), old(self).capacity_spec(), c) {
                Some(q) => r == Ok::<(), RingError>(()) && final(self).cq_view() == q,
                None => r == Err::<(), RingError>(RingError::CqFull) && *final(self) == *old(self),
            },
    {
        if self.cq_len == self.capacity {
            return Err(RingError::CqFull);
        }
        let pos = if self.cq_head + self.cq_len >= self.capacity {
            self.cq_head + self.cq_len - self.capacity
        } else {
            self.cq_head + self.cq_len
        };
        self.cq[pos] = c;
        self.cq_len = self.cq_len + 1;
        proof {
            assert(self.cq_view() =~= old(self).cq_view().push(c));
            assert(self.sq_view() =~= old(self).sq_view());
        }
        Ok(())
    }

    /// Reaps one completion: snapshots the record at the completion queue's
    /// head, frees the slot, and returns the snapshot by value — or refuses
    /// with `CqEmpty`, leaving the ring untouched, exactly when no
    /// completion is waiting. The record returned is the oldest one handed
    /// in and still unreaped, unchanged; the submission queue is not
    /// touched.
    pub fn copy_cqe(&mut self) -> (r: Result<Cqe, RingError>)
        requires
            old(self).wf(),
        ensures
            final(self).wf(),
            final(self).capacity_spec() == old(self).capacity_spec(),
            final(self).sq_view() == old(self).sq_view(),
            match ring_pop(old(self).cq_view()) {
                Some(p) => r == Ok::<Cqe, RingError>(p.0) && final(self).cq_view() == p.1,
                None => r == Err::<Cqe, RingError>(RingError::CqEmpty) && *final(self) == *old(self),
            },
    {
        if self.cq_len == 0 {
            return Err(RingError::CqEmpty);
        }
        let c = self.cq[self.cq_head];
        self.cq_head = if self.cq_head + 1 >= self.capacity {
            0
        } else {
            self.cq_head + 1
        };
        self.cq_len = self.cq_len - 1;
        proof {
            assert(self.cq_view() =~= old(self).cq_view().drop_first());
            assert(self.sq_view() =~= old(self).sq_view());
        }
        Ok(c)
    }
}

/// Capacity law: from a queue holding `q`, pushing the records `xs` one
/// after another succeeds exactly when the total fits the capacity — so from
/// an empty queue, `capacity` pushes succeed and the next one is refused —
/// and a fitting batch lands whole, in order, behind what was there.
pub proof fn lemma_ring_capacity<T>(q: Seq<T>, capacity: int, xs: Seq<T>)
    requires
        q.len() <= capacity,
    ensures
        ring_push_all(q, capacity, xs) is Some <==> q.len() + xs.len() <= capacity,
        q.len() + xs.len() <= capacity ==> ring_push_all(q, capacity, xs) == Some(q + xs),
    decreases xs.len(),
{
    if xs.len() == 0 {
        assert(q + xs =~= q);
    } else {
        if q.len() < capacity {
            lemma_ring_capacity(q.push(xs[0]), capacity, xs.drop_first());
            if q.len() + xs.len() <= capacity {
                assert(q.push(xs[0]) + xs.drop_first() =~= q + xs);
            }
        }
    }
}

/// First-in-first-out: reaping `n` completions from a queue holding at least
/// `n` removes exactly the `n` oldest and keeps the rest, in order.
pub proof fn lemma_fifo_order<T>(q: Seq<T>, n: nat)
    requires
        n <= q.len(),
    ensures
        ring_pop_n(q, n) == Some(q.subrange(n as int, q.len() as int)),
    decreases n,
{
    if n == 0 {
        assert(q.subrange(0, q.len() as int) =~= q);
    } else {
        lemma_fifo_order(q.drop_first(), (n - 1) as nat);
        assert(q.drop_first().subrange(n - 1, q.drop_first().len() as int) =~= q.subrange(
            n as int,
            q.len() as int,
        ));
    }
}

/// Tag round trip: deliver a completion `c` behind `earlier` others, reap
/// the earlier ones in order, and the next reap returns exactly `c` — the
/// whole record, its tag included, unchanged — after which the queue is
/// empty.
pub proof fn lemma_tag_round_trip(earlier: Seq<Cqe>, capacity: int, c: Cqe)
    requires
        earlier.len() < capacity,
    ensures
        ring_push(earlier, capacity, c) == Some(earlier.push(c)),
        ring_pop_n(earlier.push(c), earlier.len()) == Some(seq![c]),
        ring_pop(seq![c]) == Some((c, Seq::<Cqe>::empty())),
{
    let q = earlier.push(c);
    lemma_fifo_order(q, earlier.len());
    assert(q.subrange(earlier.len() as int, q.len() as int) =~= seq![c]);
    assert(seq![c].drop_first() =~= Seq::<Cqe>::empty());
}

/// Empty law: a queue that has received nothing has nothing to reap — so on
/// a freshly constructed ring, whose completion queue is empty, the first
/// reap is refused.
pub proof fn lemma_reap_fresh_ring_empty()
    ensures
        ring_pop(Seq::<Cqe>::empty()) is None,
{
}

} // verus!
