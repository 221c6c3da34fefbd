//! The live-state cache bridging asynchronous message arrival with the
//! synchronous control loop.
//!
//! The cache maps every declared measurement kind to its most recently
//! observed `(integral, decimal)` pair, stored in a fixed table indexed by
//! the kind's ordinal. It is fully populated at construction with the
//! neutral default, so a read never has to ask whether a kind is present —
//! only how fresh it is. The aggregator is its sole writer; the control
//! loop reads one full snapshot per cycle.

use crate::types::{
    deserialize, lemma_pub_type_index_bijective, pub_type_index, spec_deserialize,
    spec_pub_type_index, PubMessage, PubType, PUB_TYPE_COUNT,
};
use vstd::prelude::*;

verus! {

/// Latest `(integral, decimal-bit-pattern)` pair per measurement kind.
pub struct WrappedMessageCache {
    entries: Vec<(i16, u32)>,
}

impl WrappedMessageCache {
    /// Well-formed: exactly one slot per declared kind.
    pub closed spec fn wf(&self) -> bool {
        self.entries@.len() == PUB_TYPE_COUNT
    }

    /// The pair stored for a kind.
    pub closed spec fn entry(&self, k: PubType) -> (i16, u32)
        recommends
            self.wf(),
    {
        self.entries@[spec_pub_type_index(k)]
    }

    /// A fresh cache holds the neutral default for every declared kind, so
    /// no later read needs a presence check.
    pub fn new() -> (c: Self)
        ensures
            c.wf(),
            forall|k: PubType| c.entry(k) == (0i16, 0u32),
    {
        let mut entries: Vec<(i16, u32)> = Vec::new();
        let mut i: usize = 0;
        while i < PUB_TYPE_COUNT
            invariant
                i <= PUB_TYPE_COUNT,
                entries@.len() == i,
                forall|j: int| 0 <= j < i ==> entries@[j] == (0i16, 0u32),
            decreases PUB_TYPE_COUNT - i,
        {
            entries.push((0i16, 0u32));
            i = i + 1;
        }
        WrappedMessageCache { entries }
    }

    /// Overwrite the entry for one kind, leaving every other kind's entry
    /// untouched.
    pub fn update(&mut self, k: PubType, integral: i16, decimal: u32)
        requires
            old(self).wf(),
        ensures
            final(self).wf(),
            final(self).entry(k) == (integral, decimal),
            forall|k2: PubType|
                k2 != k ==> final(self).entry(k2) == old(self).entry(k2),
    {
        let i = pub_type_index(k);
        self.entries[i] = (integral, decimal);
        proof {
            lemma_pub_type_index_bijective();
        }
    }

    /// Read the entry for one kind.
    pub fn get(&self, k: PubType) -> (r: (i16, u32))
        requires
            self.wf(),
        ensures
            r == self.entry(k),
    {
        let i = pub_type_index(k);
        self.entries[i]
    }

    /// Copy the whole mapping, giving the control loop one consistent
    /// snapshot to work from after the lock is released.
    pub fn clone_inner(&self) -> (c: Self)
        requires
            self.wf(),
        ensures
            c.wf(),
            forall|k: PubType| c.entry(k) == self.entry(k),
    {
        let mut entries: Vec<(i16, u32)> = Vec::new();
        let mut i: usize = 0;
        while i < self.entries.len()
            invariant
                self.wf(),
                i <= self.entries@.len(),
                entries@.len() == i,
                forall|j: int| 0 <= j < i ==> entries@[j] == self.entries@[j],
            decreases self.entries@.len() - i,
        {
            entries.push(self.entries[i]);
            i = i + 1;
        }
        WrappedMessageCache { entries }
    }
}

/// One aggregator step: decode a frame and fold it into the cache. On a
/// well-formed frame the decoded message comes back (for best-effort
/// forwarding of the original bytes) and only its kind's entry changes; on
/// a malformed frame nothing comes back and the cache is untouched — the
/// caller treats that as a protocol violation and dies loudly.
pub fn consume_frame(cache: &mut WrappedMessageCache, raw: &[u8]) -> (r: Option<PubMessage>)
    requires
        old(cache).wf(),
    ensures
        final(cache).wf(),
        r == spec_deserialize(raw@),
        match spec_deserialize(raw@) {
            Some(m) => final(cache).entry(m.pub_type) == (m.integral, m.decimal)
                && forall|k2: PubType|
                k2 != m.pub_type ==> final(cache).entry(k2) == old(cache).entry(k2),
            None => *final(cache) == *old(cache),
        },
{
    match deserialize(raw) {
        Some(m) => {
            cache.update(m.pub_type, m.integral, m.decimal);
            Some(m)
        },
        None => None,
    }
}

} // verus!
