//! Host/GPU mirrored staging buffers with transactional appends.
//!
//! A [`CpuBuffer`] owns the host-side record sequence that is the
//! buffer's logical content, together with a model of the device
//! allocation that mirrors it: its capacity in record slots, and the
//! prefix of records the device has received so far. Records enter
//! only through a [`Batch`] transaction; when the transaction
//! closes it reports the single [`Transfer`] the device side must
//! perform, and the model is advanced accordingly. The caller that
//! owns the real device allocation applies the transfer verbatim.
//!
//! Growth is demand driven: a close that finds the host sequence
//! larger than the allocation reallocates to exactly fit, in one full
//! copy; otherwise only the records appended since the transaction
//! opened are sent, so steady-state updates cost the appended records,
//! not the whole buffer.

use vstd::prelude::*;

verus! {

/// The one device operation a closing transaction requires.
#[derive(Debug, PartialEq, Eq, Clone, Copy)]
pub enum Transfer {
    /// Nothing was appended: no device work at all.
    Skip,
    /// Copy host records `[start, start + count)` over the existing
    /// allocation, which is large enough to hold them.
    Write { start: usize, count: usize },
    /// Discard the allocation and create one holding exactly `count`
    /// records, filled with the whole host sequence in one copy.
    Realloc { count: usize },
}

/// The transfer a close performs, given the host length, the
/// allocation capacity, and the record count at which the transaction
/// opened.
pub open spec fn close_transfer(host_len: nat, capacity: nat, start: nat) -> Transfer {
    if host_len == start {
        Transfer::Skip
    } else if host_len > capacity {
        Transfer::Realloc { count: host_len as usize }
    } else {
        Transfer::Write { start: start as usize, count: (host_len - start) as usize }
    }
}

/// The allocation capacity after a close: grown to exactly the host
/// length on reallocation, untouched otherwise.
pub open spec fn close_capacity(host_len: nat, capacity: nat, start: nat) -> nat {
    if host_len == start {
        capacity
    } else if host_len > capacity {
        host_len
    } else {
        capacity
    }
}

/// Device records after copying `host[start..]` over `device`,
/// extending the written prefix where the copy runs past it.
pub open spec fn overlay<T>(device: Seq<T>, host: Seq<T>, start: int) -> Seq<T> {
    Seq::new(
        if device.len() >= host.len() { device.len() } else { host.len() },
        |i: int| if start <= i < host.len() { host[i] } else { device[i] },
    )
}

/// The device-visible records after a close.
pub open spec fn close_device<T>(
    device: Seq<T>,
    host: Seq<T>,
    capacity: nat,
    start: nat,
) -> Seq<T> {
    if host.len() == start {
        device
    } else if host.len() > capacity {
        host
    } else {
        overlay(device, host, start as int)
    }
}

/// A growable device buffer mirrored by host records.
pub struct CpuBuffer<T> {
    data: Vec<T>,
    gpu_capacity: usize,
    gpu: Ghost<Seq<T>>,
}

impl<T> CpuBuffer<T> {
    /// The host record sequence: the buffer's logical content.
    pub closed spec fn host(self) -> Seq<T> {
        self.data@
    }

    /// The records the device side has received, in order.
    pub closed spec fn device(self) -> Seq<T> {
        self.gpu@
    }

    /// Record slots in the device allocation.
    pub closed spec fn cap(self) -> nat {
        self.gpu_capacity as nat
    }

    /// The device never holds more records than it has slots for.
    pub open spec fn wf(self) -> bool {
        self.device().len() <= self.cap()
    }

    /// Between transactions the device mirrors the host: every host
    /// record has reached the device, at its own position.
    pub open spec fn synced(self) -> bool {
        &&& self.wf()
        &&& self.host().len() <= self.device().len()
        &&& self.device().subrange(0, self.host().len() as int) == self.host()
    }

    /// Creates a buffer whose device allocation holds `capacity`
    /// record slots, with no records staged yet.
    pub fn with_capacity(capacity: usize) -> (r: Self)
        ensures
            r.host() == Seq::<T>::empty(),
            r.device() == Seq::<T>::empty(),
            r.cap() == capacity as nat,
            r.synced(),
    {
        let r = CpuBuffer { data: Vec::new(), gpu_capacity: capacity, gpu: Ghost(Seq::empty()) };
        proof {
            assert(r.device().subrange(0, 0) =~= r.host());
        }
        r
    }

    /// Empties the host sequence; the device allocation keeps its
    /// size and its stale records are simply never referenced again.
    pub fn clear(&mut self)
        requires
            old(self).synced(),
        ensures
            final(self).host() == Seq::<T>::empty(),
            final(self).device() == old(self).device(),
            final(self).cap() == old(self).cap(),
            final(self).synced(),
    {
        self.data.clear();
        proof {
            assert(self.device().subrange(0, 0) =~= self.host());
        }
    }

    /// Number of records currently staged on the host side.
    pub fn len(&self) -> (r: usize)
        ensures
            r == self.host().len(),
    {
        self.data.len()
    }

    /// Record slots in the device allocation.
    pub fn capacity(&self) -> (r: usize)
        ensures
            r == self.cap(),
    {
        self.gpu_capacity
    }

    /// The staged records, for the owner of the device allocation to
    /// serialize when applying a transfer.
    pub fn records(&self) -> (r: &Vec<T>)
        ensures
            r@ == self.host(),
    {
        &self.data
    }

    /// Opens a write transaction. The buffer moves into the batch, so
    /// no second transaction can exist until this one closes.
    pub fn batch(self) -> (b: Batch<T>)
        requires
            self.synced(),
        ensures
            b.wf(),
            b.host() == self.host(),
            b.device() == self.device(),
            b.cap() == self.cap(),
            b.opened_at() == self.host().len(),
    {
        Batch::new(self)
    }
}

/// A write transaction bound to one buffer: appends stage host
/// records, and the close reports the one transfer the device needs.
pub struct Batch<T> {
    start: usize,
    buf: CpuBuffer<T>,
}

impl<T> Batch<T> {
    /// Opens a transaction on `buffer`; the record count at opening
    /// becomes the transaction's start offset.
    pub fn new(buffer: CpuBuffer<T>) -> (b: Batch<T>)
        requires
            buffer.synced(),
        ensures
            b.wf(),
            b.host() == buffer.host(),
            b.device() == buffer.device(),
            b.cap() == buffer.cap(),
            b.opened_at() == buffer.host().len(),
    {
        let start = buffer.data.len();
        proof {
            assert(buffer.device().subrange(0, start as int)
                =~= buffer.host().subrange(0, start as int));
        }
        Batch { start, buf: buffer }
    }

    /// Host records staged so far, those from before the transaction
    /// included.
    pub closed spec fn host(self) -> Seq<T> {
        self.buf.host()
    }

    /// The device-side model, unchanged while the transaction is open.
    pub closed spec fn device(self) -> Seq<T> {
        self.buf.device()
    }

    /// Record slots in the device allocation.
    pub closed spec fn cap(self) -> nat {
        self.buf.cap()
    }

    /// The host record count when the transaction opened; records
    /// before it are already on the device and stay untouched.
    pub closed spec fn opened_at(self) -> nat {
        self.start as nat
    }

    /// The records from before the transaction have reached the
    /// device, so a close may send the appended suffix alone.
    pub open spec fn wf(self) -> bool {
        &&& self.device().len() <= self.cap()
        &&& self.opened_at() <= self.host().len()
        &&& self.opened_at() <= self.device().len()
        &&& self.device().subrange(0, self.opened_at() as int)
            == self.host().subrange(0, self.opened_at() as int)
    }

    /// Appends one record to the host sequence. The device sees
    /// nothing until the transaction closes.
    pub fn push(&mut self, value: T)
        requires
            old(self).wf(),
        ensures
            final(self).wf(),
            final(self).host() == old(self).host().push(value),
            final(self).device() == old(self).device(),
            final(self).cap() == old(self).cap(),
            final(self).opened_at() == old(self).opened_at(),
    {
        self.buf.data.push(value);
        proof {
            assert(self.device().subrange(0, self.opened_at() as int)
                =~= self.host().subrange(0, self.opened_at() as int));
        }
    }

    /// Closes the transaction: hands the buffer back together with
    /// the single transfer the device side must perform, and advances
    /// the device model by exactly that transfer.
    pub fn close(self) -> (r: (CpuBuffer<T>, Transfer))
        requires
            self.wf(),
        ensures
            r.0.host() == self.host(),
            r.0.device() == close_device(self.device(), self.host(), self.cap(), self.opened_at()),
            r.0.cap() == close_capacity(self.host().len(), self.cap(), self.opened_at()),
            r.1 == close_transfer(self.host().len(), self.cap(), self.opened_at()),
            r.0.synced(),
    {
        let Batch { start, buf } = self;
        let mut buf = buf;
        if buf.data.len() == start {
            proof {
                assert(buf.device().subrange(0, buf.host().len() as int) =~= buf.host());
            }
            (buf, Transfer::Skip)
        } else if buf.data.len() > buf.gpu_capacity {
            let count = buf.data.len();
            buf.gpu = Ghost(buf.data@);
            buf.gpu_capacity = count;
            proof {
                assert(buf.device().subrange(0, buf.host().len() as int) =~= buf.host());
            }
            (buf, Transfer::Realloc { count })
        } else {
            let count = buf.data.len() - start;
            let ghost old_device = buf.gpu@;
            buf.gpu = Ghost(overlay(old_device, buf.data@, start as int));
            proof {
                assert forall|i: int| 0 <= i < buf.host().len() implies
                    buf.device()[i] == buf.host()[i] by {
                    if i < start {
                        assert(old_device.subrange(0, start as int)[i]
                            == buf.host().subrange(0, start as int)[i]);
                    }
                }
                assert(buf.device().subrange(0, buf.host().len() as int) =~= buf.host());
            }
            (buf, Transfer::Write { start, count })
        }
    }
}

/// Law: one transaction on a fresh buffer of capacity `capacity`
/// that stages the records `recs`. If they fit, the close sends them
/// all in one write starting at zero and the allocation is untouched;
/// if they do not, the close performs exactly one reallocation sized
/// to exactly their count. Either way the device then holds precisely
/// `recs`.
pub proof fn lemma_single_batch_growth<T>(capacity: nat, recs: Seq<T>)
    requires
        0 < recs.len() <= usize::MAX,
    ensures
        recs.len() <= capacity ==> close_transfer(recs.len(), capacity, 0)
            == (Transfer::Write { start: 0, count: recs.len() as usize }),
        recs.len() <= capacity ==> close_capacity(recs.len(), capacity, 0) == capacity,
        recs.len() > capacity ==> close_transfer(recs.len(), capacity, 0)
            == (Transfer::Realloc { count: recs.len() as usize }),
        recs.len() > capacity ==> close_capacity(recs.len(), capacity, 0) == recs.len(),
        close_device(Seq::<T>::empty(), recs, capacity, 0) == recs,
{
    if recs.len() <= capacity {
        assert(overlay(Seq::<T>::empty(), recs, 0) =~= recs);
    }
}

/// Law: a second transaction that appends `second` after an earlier
/// one left the device mirroring `first`, with everything still inside
/// the allocation, transfers only the appended records `[first.len(),
/// first.len() + second.len())` and leaves the records before that
/// boundary exactly as they were.
pub proof fn lemma_partial_update<T>(device: Seq<T>, first: Seq<T>, second: Seq<T>, capacity: nat)
    requires
        0 < second.len(),
        first.len() + second.len() <= capacity,
        first.len() <= device.len() <= capacity,
        device.subrange(0, first.len() as int) == first,
    ensures
        close_transfer(first.len() + second.len(), capacity, first.len())
            == (Transfer::Write { start: first.len() as usize, count: second.len() as usize }),
        close_capacity(first.len() + second.len(), capacity, first.len()) == capacity,
        close_device(device, first + second, capacity, first.len())
            .subrange(0, first.len() as int) == first,
        close_device(device, first + second, capacity, first.len())
            .subrange(first.len() as int, (first.len() + second.len()) as int) == second,
{
    let host = first + second;
    let out = close_device(device, host, capacity, first.len());
    assert(out.subrange(0, first.len() as int) =~= first);
    assert(out.subrange(first.len() as int, (first.len() + second.len()) as int) =~= second);
}

/// Law: a transaction that stages nothing closes with no transfer at
/// all — no device write and no reallocation — and the device model
/// and allocation are exactly as before.
pub proof fn lemma_empty_transaction<T>(device: Seq<T>, host: Seq<T>, capacity: nat)
    ensures
        close_transfer(host.len(), capacity, host.len()) == Transfer::Skip,
        close_capacity(host.len(), capacity, host.len()) == capacity,
        close_device(device, host, capacity, host.len()) == device,
{
}

} // verus!
