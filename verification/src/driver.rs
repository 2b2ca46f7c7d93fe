use vstd::prelude::*;

use std::sync::mpsc::SyncSender;

use crate::checker::Checker;
use crate::checker::entries_size;
use crate::checker::fresh_checker;
use crate::checker::latched_key;
use crate::checker::lemma_entries_size_monotone;
use crate::checker::lemma_latch_position;
use crate::checker::lemma_latched_when_over;
use crate::checker::view_opt;
use crate::entry::KeyEntry;
use crate::keys::is_data_key;
use crate::keys::origin_key;
use crate::observer::Host;
use crate::observer::Msg;
use crate::observer::ProbeError;
use crate::observer::SizeCheckObserver;
use crate::observer::try_send_msg;
use crate::region::ObserverContext;
use crate::region::Region;

verus! {

/// How many of the first `n` entries one scan consumes: the driver feeds
/// entries in order and stops right after the first one that pushes the
/// accumulator strictly past `max_size`.
pub open spec fn stop_len(max_size: int, entries: Seq<KeyEntry>, n: int) -> int
    decreases n,
{
    if n <= 0 {
        0
    } else {
        let p = stop_len(max_size, entries, n - 1);
        if entries_size(entries, p) > max_size {
            p
        } else {
            n
        }
    }
}

/// The consumed prefix is the shortest one that gets the accumulator past
/// `max_size`, or the whole stream when none does.
pub proof fn lemma_stop_len(max_size: int, entries: Seq<KeyEntry>, n: int)
    requires
        0 <= n,
    ensures
        ({
            let s = stop_len(max_size, entries, n);
            &&& 0 <= s <= n
            &&& (s < n ==> entries_size(entries, s) > max_size)
            &&& forall|m: int| 0 <= m < s ==> entries_size(entries, m) <= max_size
        }),
    decreases n,
{
    if n > 0 {
        lemma_stop_len(max_size, entries, n - 1);
    }
}

/// What one full scan of `entries` yields from a fresh checker: the driver
/// stops early once the checker reports the ceiling crossed, then reads the
/// split key, which comes out only when the accumulator ended past the
/// ceiling.
pub open spec fn scan_result(max_size: u64, split_size: u64, entries: Seq<KeyEntry>) -> Option<
    Seq<u8>,
> {
    let n = stop_len(max_size as int, entries, entries.len() as int);
    if entries_size(entries, n) > max_size {
        latched_key(split_size as int, entries, n)
    } else {
        None
    }
}

/// With equal thresholds, a scan whose accumulator ends strictly past the
/// shared threshold always yields a split key: the entry that first crossed
/// it both latched the key and stopped the scan.
pub proof fn lemma_equal_thresholds(max_size: u64, entries: Seq<KeyEntry>)
    requires
        entries_size(entries, stop_len(max_size as int, entries, entries.len() as int))
            > max_size,
    ensures
        scan_result(max_size, max_size, entries) is Some,
{
    let n = stop_len(max_size as int, entries, entries.len() as int);
    lemma_stop_len(max_size as int, entries, entries.len() as int);
    lemma_latched_when_over(max_size as int, entries, n);
}

/// Feed a region's entries, in ascending key order, to a fresh checker and
/// read out the chosen split key. The driver stops scanning as soon as the
/// checker asks it to.
pub fn run_scan(
    checker: &mut Checker,
    ctx: &mut ObserverContext<'_>,
    entries: &Vec<KeyEntry>,
) -> (r: Option<Vec<u8>>)
    requires
        fresh_checker(old(checker)@, old(checker)@.max_size, old(checker)@.split_size),
        entries_size(entries@, entries@.len() as int) <= u64::MAX,
    ensures
        view_opt(r) == scan_result(old(checker)@.max_size, old(checker)@.split_size, entries@),
{
    let ghost max = checker@.max_size;
    let ghost split = checker@.split_size;
    let mut i: usize = 0;
    let mut stop = false;
    while i < entries.len() && !stop
        invariant
            0 <= i <= entries@.len(),
            entries_size(entries@, entries@.len() as int) <= u64::MAX,
            checker@.max_size == max,
            checker@.split_size == split,
            checker@.current_size == entries_size(entries@, i as int),
            checker@.split_key == latched_key(split as int, entries@, i as int),
            forall|m: int| 0 <= m < i ==> entries_size(entries@, m) <= max,
            stop == (entries_size(entries@, i as int) > max),
        decreases entries@.len() - i,
    {
        proof {
            lemma_entries_size_monotone(entries@, i + 1, entries@.len() as int);
            assert(entries_size(entries@, i + 1)
                == entries_size(entries@, i as int) + entries@[i as int].size);
        }
        let entry = &entries[i];
        stop = checker.on_kv(ctx, entry);
        i = i + 1;
    }
    proof {
        lemma_stop_len(max as int, entries@, entries@.len() as int);
        let s = stop_len(max as int, entries@, entries@.len() as int);
        if stop {
            // The scan stopped right after crossing the ceiling, which is
            // exactly where `stop_len` says it does.
            if s < i {
                assert(entries_size(entries@, s) <= max);
            }
            if s > i {
                assert(entries_size(entries@, i as int) <= max);
            }
            assert(s == i);
        } else {
            // The stream ran out without crossing the ceiling.
            assert(i == entries@.len());
            if s < i {
                assert(entries_size(entries@, s) <= max);
            }
            assert(s == i);
        }
    }
    checker.split_key()
}

/// What one whole check cycle yields: a split key only when the scan was
/// warranted at all (failed probe, or estimate at or past the ceiling) and
/// the scanned bytes then ended strictly past the ceiling.
pub open spec fn cycle_result(
    max_size: u64,
    split_size: u64,
    probe: Result<u64, ProbeError>,
    entries: Seq<KeyEntry>,
) -> Option<Seq<u8>> {
    if probe is Err || probe->Ok_0 >= max_size {
        scan_result(max_size, split_size, entries)
    } else {
        None
    }
}

/// One full split check of a region: let the observer publish the probe's
/// estimate and decide whether to register a checker; when one was
/// registered, scan the entries through it, and propose the resulting split
/// (as a user key, with the region's epoch) to the controller. Channel
/// failures are swallowed: a slow or closed receiver never fails the cycle.
pub fn run_check_cycle(
    observer: &SizeCheckObserver,
    region: &Region,
    probe: Result<u64, ProbeError>,
    entries: &Vec<KeyEntry>,
    ch: &SyncSender<Msg>,
) -> (r: Option<Vec<u8>>)
    requires
        observer.split_size() <= observer.region_max_size(),
        entries_size(entries@, entries@.len() as int) <= u64::MAX,
        forall|j: int| 0 <= j < entries@.len() ==> is_data_key(#[trigger] entries@[j].key@),
    ensures
        view_opt(r) == cycle_result(observer.region_max_size(), observer.split_size(), probe,
            entries@),
{
    let mut ctx = ObserverContext::new(region);
    let mut host = Host::new();
    observer.add_checker(&mut ctx, &mut host, probe);
    let mut checker = match host.pop_checker() {
        Some(c) => c,
        None => {
            return None;
        },
    };
    let r = run_scan(&mut checker, &mut ctx, entries);
    match &r {
        Some(key) => {
            proof {
                let n = stop_len(observer.region_max_size() as int, entries@,
                    entries@.len() as int);
                lemma_stop_len(observer.region_max_size() as int, entries@,
                    entries@.len() as int);
                lemma_latch_position(observer.split_size() as int, entries@, n);
            }
            let split_key = origin_key(key.as_slice());
            let _ = try_send_msg(ch, Msg::SplitRegion {
                region_id: region.get_id(),
                region_epoch: *region.get_region_epoch(),
                split_key,
            });
        },
        None => {},
    }
    r
}

} // verus!
