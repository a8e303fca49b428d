//! Per-direction buffering of a TCP relay. Bytes read from one side are held
//! in a bounded buffer until a write to the other side confirms them; a
//! partial write keeps the unwritten residue at the front, in order, so a
//! slow destination loses nothing and nothing is reordered or duplicated.

use vstd::prelude::*;
use vstd::pervasive::VecAdditionalExecFns;

verus! {

/// Capacity of one relay buffer, in bytes.
pub const RELAY_CAPACITY: usize = 8192;

/// One direction's bounded buffer: the bytes read from the source and not
/// yet confirmed written to the destination, oldest first.
pub struct RelayBuffer {
    buf: Vec<u8>,
}

impl RelayBuffer {
    /// The buffer never holds more than its fixed capacity.
    pub closed spec fn wf(&self) -> bool {
        self.buf@.len() <= RELAY_CAPACITY
    }

    /// The bytes still owed to the destination, oldest first.
    pub closed spec fn pending(&self) -> Seq<u8> {
        self.buf@
    }

    /// An empty buffer.
    pub fn new() -> (b: RelayBuffer)
        ensures
            b.wf(),
            b.pending() == Seq::<u8>::empty(),
    {
        RelayBuffer { buf: Vec::new() }
    }

    /// Number of pending bytes.
    pub fn len(&self) -> (n: usize)
        ensures
            n == self.pending().len(),
    {
        self.buf.len()
    }

    /// Free space: the most the next read may deliver without overwriting
    /// unacknowledged bytes.
    pub fn space(&self) -> (n: usize)
        requires
            self.wf(),
        ensures
            n == RELAY_CAPACITY - self.pending().len(),
    {
        RELAY_CAPACITY - self.buf.len()
    }

    /// The pending bytes as a fresh vector: the extent handed to the next
    /// destination write.
    pub fn contents(&self) -> (v: Vec<u8>)
        ensures
            v@ == self.pending(),
    {
        let mut v: Vec<u8> = Vec::new();
        let mut i: usize = 0;
        while i < self.buf.len()
            invariant
                i <= self.buf@.len(),
                v@ == self.buf@.take(i as int),
            decreases self.buf@.len() - i,
        {
            let byte = self.buf[i];
            v.push(byte);
            assert(v@ =~= self.buf@.take(i + 1));
            i += 1;
        }
        assert(v@ =~= self.buf@);
        v
    }

    /// Append bytes just read from the source. The caller reads at most
    /// `space()` bytes, so the capacity bound holds.
    pub fn fill(&mut self, data: &[u8])
        requires
            old(self).wf(),
            old(self).pending().len() + data@.len() <= RELAY_CAPACITY,
        ensures
            final(self).wf(),
            final(self).pending() == old(self).pending() + data@,
    {
        let mut i: usize = 0;
        while i < data.len()
            invariant
                i <= data@.len(),
                old(self).buf@.len() + data@.len() <= RELAY_CAPACITY,
                self.buf@ == old(self).buf@ + data@.take(i as int),
            decreases data@.len() - i,
        {
            let byte = data[i];
            self.buf.push(byte);
            assert(self.buf@ =~= old(self).buf@ + data@.take(i + 1));
            i += 1;
        }
        assert(self.buf@ =~= old(self).buf@ + data@);
    }

    /// Confirm that the destination accepted the first `written` pending
    /// bytes. The unwritten residue is shifted to the front, preserving its
    /// order, so the next read appends after it.
    pub fn ack(&mut self, written: usize)
        requires
            old(self).wf(),
            written <= old(self).pending().len(),
        ensures
            final(self).wf(),
            final(self).pending() == old(self).pending().skip(written as int),
    {
        let n = self.buf.len();
        let mut i: usize = 0;
        while i < n - written
            invariant
                self.buf@.len() == n,
                n == old(self).buf@.len(),
                written <= n,
                i <= n - written,
                forall|j: int| 0 <= j < i ==> self.buf@[j] == old(self).buf@[written + j],
                forall|j: int| i <= j < n ==> self.buf@[j] == old(self).buf@[j],
            decreases n - written - i,
        {
            let byte = self.buf[written + i];
            self.buf.set(i, byte);
            i += 1;
        }
        self.buf.truncate(n - written);
        assert(self.buf@ =~= old(self).buf@.skip(written as int));
    }
}

/// One relay direction together with the history of its transfers: all bytes
/// read from the source and all bytes confirmed written to the destination.
pub struct RelayDirection {
    /// The bounded buffer between source reads and destination writes.
    pub buffer: RelayBuffer,
    /// All bytes read from the source so far, in order.
    pub received: Ghost<Seq<u8>>,
    /// All bytes confirmed written to the destination so far, in order.
    pub delivered: Ghost<Seq<u8>>,
}

impl RelayDirection {
    /// The delivered bytes followed by the pending bytes are exactly the
    /// received bytes: the buffer loses nothing and reorders nothing.
    pub open spec fn wf(&self) -> bool {
        &&& self.buffer.wf()
        &&& self.delivered@ + self.buffer.pending() == self.received@
    }

    /// A fresh direction with no history.
    pub fn new() -> (d: RelayDirection)
        ensures
            d.wf(),
            d.received@ == Seq::<u8>::empty(),
            d.delivered@ == Seq::<u8>::empty(),
    {
        let d = RelayDirection {
            buffer: RelayBuffer::new(),
            received: Ghost(Seq::empty()),
            delivered: Ghost(Seq::empty()),
        };
        proof {
            assert(d.delivered@ + d.buffer.pending() =~= d.received@);
        }
        d
    }

    /// Record a source read: `data` is appended to the pending bytes and to
    /// the received history.
    pub fn on_read(&mut self, data: &[u8])
        requires
            old(self).wf(),
            old(self).buffer.pending().len() + data@.len() <= RELAY_CAPACITY,
        ensures
            final(self).wf(),
            final(self).received@ == old(self).received@ + data@,
            final(self).delivered@ == old(self).delivered@,
            final(self).buffer.pending() == old(self).buffer.pending() + data@,
    {
        self.buffer.fill(data);
        self.received = Ghost(self.received@ + data@);
        proof {
            assert(self.delivered@ + self.buffer.pending() =~= self.received@);
        }
    }

    /// Record a destination write that confirmed `written` bytes, possibly
    /// fewer than were offered: exactly those leading bytes move from the
    /// pending buffer to the delivered history.
    pub fn on_written(&mut self, written: usize)
        requires
            old(self).wf(),
            written <= old(self).buffer.pending().len(),
        ensures
            final(self).wf(),
            final(self).delivered@ == old(self).delivered@ + old(self).buffer.pending().take(
                written as int,
            ),
            final(self).received@ == old(self).received@,
            final(self).buffer.pending() == old(self).buffer.pending().skip(written as int),
    {
        self.delivered = Ghost(self.delivered@ + self.buffer.pending().take(written as int));
        self.buffer.ack(written);
        proof {
            assert(old(self).buffer.pending().take(written as int) + old(self).buffer.pending().skip(
                written as int,
            ) =~= old(self).buffer.pending());
            assert(self.delivered@ + self.buffer.pending() =~= self.received@);
        }
    }
}

/// However source reads and possibly-partial destination writes interleave,
/// the bytes delivered to the destination are, in order, exactly the leading
/// bytes read from the source, and once the buffer is drained the two
/// coincide: no loss, no reordering, no duplication.
pub proof fn lemma_relay_preserves_byte_order(d: RelayDirection)
    requires
        d.wf(),
    ensures
        d.delivered@ == d.received@.take(d.delivered@.len() as int),
        d.buffer.pending().len() == 0 ==> d.delivered@ == d.received@,
{
    assert(d.delivered@ =~= d.received@.take(d.delivered@.len() as int));
    if d.buffer.pending().len() == 0 {
        assert(d.delivered@ =~= d.received@);
    }
}

} // verus!
