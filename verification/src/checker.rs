use vstd::prelude::*;

use crate::entry::KeyEntry;
use crate::region::ObserverContext;

verus! {

/// Abstract state of a size checker: the two thresholds it was configured
/// with, the bytes accumulated so far, and the latched split key, if any.
pub ghost struct CheckerView {
    /// The ceiling past which the region is deemed split-worthy.
    pub max_size: u64,
    /// The first-half target at which the split key is latched.
    pub split_size: u64,
    /// Bytes accumulated over the entries seen so far.
    pub current_size: u64,
    /// The latched split key, if one has been chosen.
    pub split_key: Option<Seq<u8>>,
}

/// The value of an optional owned key, for contracts.
pub open spec fn view_opt(o: Option<Vec<u8>>) -> Option<Seq<u8>> {
    match o {
        Some(k) => Some(k@),
        None => None,
    }
}

/// Total logical size of the first `n` entries.
pub open spec fn entries_size(entries: Seq<KeyEntry>, n: int) -> int
    decreases n,
{
    if n <= 0 {
        0
    } else {
        entries_size(entries, n - 1) + entries[n - 1].size
    }
}

/// After the first `n` entries have been fed to a fresh checker with the
/// given `split_size`: the index of the entry that latched the split key,
/// i.e. the first entry whose cumulative size strictly exceeds `split_size`,
/// if the scan has reached it.
pub open spec fn latch_index(split_size: int, entries: Seq<KeyEntry>, n: int) -> Option<int>
    decreases n,
{
    if n <= 0 {
        None
    } else if latch_index(split_size, entries, n - 1) is Some {
        latch_index(split_size, entries, n - 1)
    } else if entries_size(entries, n) > split_size {
        Some(n - 1)
    } else {
        None
    }
}

/// The split key latched after the first `n` entries, as the checker holds it.
pub open spec fn latched_key(split_size: int, entries: Seq<KeyEntry>, n: int) -> Option<Seq<u8>> {
    match latch_index(split_size, entries, n) {
        Some(i) => Some(entries[i].key@),
        None => None,
    }
}

/// The accumulator never decreases: over a longer prefix of the same key
/// stream it has taken in at least as many bytes.
pub proof fn lemma_entries_size_monotone(entries: Seq<KeyEntry>, n: int, m: int)
    requires
        0 <= n <= m,
    ensures
        entries_size(entries, n) <= entries_size(entries, m),
    decreases m,
{
    if n < m {
        lemma_entries_size_monotone(entries, n, m - 1);
    }
}

/// The split key latches at most once: once latched at some prefix of the
/// stream, every longer prefix latches the same entry.
pub proof fn lemma_latch_stable(split_size: int, entries: Seq<KeyEntry>, n: int, m: int)
    requires
        0 <= n <= m,
        latch_index(split_size, entries, n) is Some,
    ensures
        latch_index(split_size, entries, m) == latch_index(split_size, entries, n),
    decreases m,
{
    if n < m {
        lemma_latch_stable(split_size, entries, n, m - 1);
    }
}

/// Latch position: when a split key is latched after `n` entries, it belongs
/// to the first entry whose cumulative contribution made the accumulator
/// strictly exceed `split_size`; when none is latched, no prefix of the `n`
/// entries got the accumulator past `split_size`.
pub proof fn lemma_latch_position(split_size: int, entries: Seq<KeyEntry>, n: int)
    requires
        0 <= n,
        0 <= split_size,
    ensures
        match latch_index(split_size, entries, n) {
            Some(i) => {
                &&& 0 <= i < n
                &&& entries_size(entries, i + 1) > split_size
                &&& forall|m: int| 0 <= m <= i ==> entries_size(entries, m) <= split_size
                &&& latched_key(split_size, entries, n) == Some(entries[i].key@)
            },
            None => forall|m: int| 0 <= m <= n ==> entries_size(entries, m) <= split_size,
        },
    decreases n,
{
    if n > 0 {
        lemma_latch_position(split_size, entries, n - 1);
        match latch_index(split_size, entries, n - 1) {
            Some(i) => {
                assert(latch_index(split_size, entries, n) == Some(i));
            },
            None => {
                if entries_size(entries, n) > split_size {
                    assert(latch_index(split_size, entries, n) == Some(n - 1));
                    assert(forall|m: int| 0 <= m <= n - 1
                        ==> entries_size(entries, m) <= split_size);
                } else {
                    assert(latch_index(split_size, entries, n) is None);
                    assert(forall|m: int| 0 <= m <= n
                        ==> entries_size(entries, m) <= split_size);
                }
            },
        }
    }
}

/// Whenever the accumulator ends strictly past `split_size`, a split key has
/// been latched; in particular a scan can never end over `max_size` without a
/// key when the two thresholds are ordered.
pub proof fn lemma_latched_when_over(split_size: int, entries: Seq<KeyEntry>, n: int)
    requires
        0 <= n,
        entries_size(entries, n) > split_size,
        split_size >= 0,
    ensures
        latch_index(split_size, entries, n) is Some,
{
    if n == 0 {
        assert(entries_size(entries, 0) == 0);
    }
}

/// The size-based split checker: a per-scan accumulator that latches a split
/// key once the bytes seen strictly exceed `split_size`, and asks the scan
/// driver to stop once they strictly exceed `max_size`.
pub struct Checker {
    max_size: u64,
    split_size: u64,
    current_size: u64,
    split_key: Option<Vec<u8>>,
}

impl View for Checker {
    type V = CheckerView;

    closed spec fn view(&self) -> CheckerView {
        CheckerView {
            max_size: self.max_size,
            split_size: self.split_size,
            current_size: self.current_size,
            split_key: match self.split_key {
                Some(k) => Some(k@),
                None => None,
            },
        }
    }
}

/// A checker as `Checker::new` hands it out for the given thresholds.
pub open spec fn fresh_checker(v: CheckerView, max_size: u64, split_size: u64) -> bool {
    &&& v.max_size == max_size
    &&& v.split_size == split_size
    &&& v.current_size == 0
    &&& v.split_key is None
}

impl Checker {
    /// A fresh checker for one scan. `split_size` must not exceed `max_size`;
    /// configurations violating that are rejected at load time.
    pub fn new(max_size: u64, split_size: u64) -> (c: Checker)
        requires
            split_size <= max_size,
        ensures
            fresh_checker(c@, max_size, split_size),
    {
        Checker { max_size, split_size, current_size: 0, split_key: None }
    }

    /// Bytes accumulated over the entries seen so far.
    pub fn current_size(&self) -> (s: u64)
        ensures
            s == self@.current_size,
    {
        self.current_size
    }

    /// A copy of the latched split key, if one has been chosen, without
    /// consuming it.
    pub fn latched_split_key(&self) -> (r: Option<Vec<u8>>)
        ensures
            view_opt(r) == self@.split_key,
    {
        match &self.split_key {
            Some(k) => Some(k.clone()),
            None => None,
        }
    }

    /// Consume one scanned entry, in ascending key order. Adds the entry's
    /// size to the accumulator; latches the entry's key as the split key if
    /// none is latched yet and the accumulator has just strictly exceeded
    /// `split_size`. Returns true iff the accumulator now strictly exceeds
    /// `max_size`, which tells the driver to stop scanning.
    pub fn on_kv(&mut self, _ctx: &mut ObserverContext<'_>, entry: &KeyEntry) -> (stop: bool)
        requires
            old(self)@.current_size + entry.size <= u64::MAX,
        ensures
            final(self)@.max_size == old(self)@.max_size,
            final(self)@.split_size == old(self)@.split_size,
            final(self)@.current_size == old(self)@.current_size + entry.size,
            final(self)@.split_key == (if old(self)@.split_key is None
                && old(self)@.current_size + entry.size > old(self)@.split_size {
                Some(entry.key@)
            } else {
                old(self)@.split_key
            }),
            stop == (final(self)@.current_size > final(self)@.max_size),
    {
        self.current_size = self.current_size + entry.entry_size();
        if self.current_size > self.split_size && self.split_key.is_none() {
            self.split_key = Some(entry.key.clone());
        }
        self.current_size > self.max_size
    }

    /// Terminal readout, once per scan: the latched split key if and only if
    /// the final accumulator strictly exceeds `max_size`; otherwise no key,
    /// even when one was latched, because the region turned out smaller than
    /// the estimate that triggered the scan.
    pub fn split_key(&mut self) -> (r: Option<Vec<u8>>)
        ensures
            final(self)@.max_size == old(self)@.max_size,
            final(self)@.split_size == old(self)@.split_size,
            final(self)@.current_size == old(self)@.current_size,
            view_opt(r) == (if old(self)@.current_size > old(self)@.max_size {
                old(self)@.split_key
            } else {
                None::<Seq<u8>>
            }),
            (r is Some) <==> (old(self)@.current_size > old(self)@.max_size
                && old(self)@.split_key is Some),
    {
        if self.current_size > self.max_size {
            self.split_key.take()
        } else {
            None
        }
    }
}

} // verus!
