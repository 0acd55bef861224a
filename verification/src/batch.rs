//! Accumulation of serialized payloads into a bounded batch.
//!
//! A batch holds an ordered sequence of pre-serialized message payloads and
//! a running byte total, bounded by a maximum envelope size. Payloads are
//! appended while the running total plus the candidate's size stays within
//! the ceiling; an append that would exceed it is refused without touching
//! the batch. A batch targets one destination path, fixed when it is
//! created, and is submitted as a single envelope.

use vstd::prelude::*;

verus! {

/// Options for creating a batch.
#[derive(Clone, Debug, PartialEq, Eq, Default)]
pub struct EventDataBatchOptions {
    /// A caller-specified ceiling on the envelope size, in bytes. When
    /// absent, the ceiling negotiated with the service is used.
    pub max_size_in_bytes: Option<u64>,
    /// The partition the batch targets; when absent, the service picks.
    pub partition_id: Option<String>,
}

/// An ordered collection of serialized message payloads under a byte-size
/// ceiling. Single use: it is created empty, filled, then submitted once.
#[derive(Debug)]
pub struct EventDataBatch {
    payloads: Vec<Vec<u8>>,
    size_in_bytes: u64,
    max_size_in_bytes: u64,
    partition_id: Option<String>,
}

/// The total size, in bytes, of a sequence of payloads.
pub open spec fn spec_total_size(ps: Seq<Seq<u8>>) -> int
    decreases ps.len(),
{
    if ps.len() == 0 {
        0
    } else {
        spec_total_size(ps.drop_last()) + ps.last().len()
    }
}

/// Appending one payload grows the total by exactly that payload's size.
pub proof fn lemma_total_size_push(ps: Seq<Seq<u8>>, p: Seq<u8>)
    ensures
        spec_total_size(ps.push(p)) == spec_total_size(ps) + p.len(),
{
    assert(ps.push(p).drop_last() =~= ps);
}

impl EventDataBatch {
    /// The payloads held, in insertion order.
    pub closed spec fn view(&self) -> Seq<Seq<u8>> {
        self.payloads@.map_values(|p: Vec<u8>| p@)
    }

    /// The running byte total matches the payloads held and never exceeds
    /// the ceiling.
    pub closed spec fn wf(&self) -> bool {
        &&& self.size_in_bytes as int == spec_total_size(self.view())
        &&& self.size_in_bytes <= self.max_size_in_bytes
    }

    /// The ceiling the batch was created with.
    pub closed spec fn spec_max_size(&self) -> u64 {
        self.max_size_in_bytes
    }

    /// The partition the batch targets.
    pub closed spec fn spec_partition_id(&self) -> Option<String> {
        self.partition_id
    }

    /// Creates an empty batch with the given ceiling. `negotiated_max` is
    /// the envelope size the service allows; the options may narrow it.
    pub fn new(options: EventDataBatchOptions, negotiated_max: u64) -> (b: Self)
        ensures
            b.wf(),
            b.view() == Seq::<Seq<u8>>::empty(),
            b.spec_max_size() == match options.max_size_in_bytes {
                Option::Some(m) => m,
                Option::None => negotiated_max,
            },
            b.spec_partition_id() == options.partition_id,
    {
        let max = match options.max_size_in_bytes {
            Option::Some(m) => m,
            Option::None => negotiated_max,
        };
        let b = EventDataBatch {
            payloads: Vec::new(),
            size_in_bytes: 0,
            max_size_in_bytes: max,
            partition_id: options.partition_id,
        };
        proof {
            assert(b.view() =~= Seq::<Seq<u8>>::empty());
        }
        b
    }

    /// The number of payloads held.
    pub fn len(&self) -> (n: usize)
        ensures
            n == self.view().len(),
    {
        self.payloads.len()
    }

    /// Whether the batch holds no payload yet.
    pub fn is_empty(&self) -> (r: bool)
        ensures
            r == (self.view().len() == 0),
    {
        self.payloads.len() == 0
    }

    /// The running byte total.
    pub fn size_in_bytes(&self) -> (s: u64)
        requires
            self.wf(),
        ensures
            s == spec_total_size(self.view()),
            s <= self.spec_max_size(),
    {
        self.size_in_bytes
    }

    /// The ceiling, in bytes.
    pub fn max_size_in_bytes(&self) -> (m: u64)
        ensures
            m == self.spec_max_size(),
    {
        self.max_size_in_bytes
    }

    /// The partition the batch targets, when one was pinned.
    pub fn partition_id(&self) -> (p: &Option<String>)
        ensures
            *p == self.spec_partition_id(),
    {
        &self.partition_id
    }

    /// Appends one serialized payload when it fits under the ceiling.
    ///
    /// Holding messages of total size `S` under a ceiling `C`, the batch
    /// accepts a payload of size `n` exactly when `S + n <= C`; otherwise
    /// it refuses and is left unchanged.
    pub fn try_add_payload(&mut self, payload: Vec<u8>) -> (added: bool)
        requires
            old(self).wf(),
        ensures
            final(self).wf(),
            added == (spec_total_size(old(self).view()) + payload@.len()
                <= old(self).spec_max_size()),
            added ==> final(self).view() == old(self).view().push(payload@),
            added ==> spec_total_size(final(self).view()) == spec_total_size(old(self).view())
                + payload@.len(),
            !added ==> *final(self) == *old(self),
            final(self).spec_max_size() == old(self).spec_max_size(),
            final(self).spec_partition_id() == old(self).spec_partition_id(),
    {
        let n = payload.len() as u64;
        if n <= self.max_size_in_bytes - self.size_in_bytes {
            proof {
                lemma_total_size_push(self.view(), payload@);
            }
            self.size_in_bytes = self.size_in_bytes + n;
            self.payloads.push(payload);
            proof {
                assert(final(self).view() =~= old(self).view().push(payload@));
            }
            true
        } else {
            false
        }
    }

    /// The payloads held, in insertion order, for submission as one
    /// envelope.
    pub fn payloads(&self) -> (ps: &Vec<Vec<u8>>)
        ensures
            ps@.map_values(|p: Vec<u8>| p@) == self.view(),
    {
        &self.payloads
    }
}

} // verus!
