use vstd::prelude::*;

use std::sync::mpsc::SyncSender;
use std::sync::mpsc::TrySendError;

use crate::checker::Checker;
use crate::checker::fresh_checker;
use crate::region::ObserverContext;
use crate::region::RegionEpoch;

verus! {

/// A message to the region's controller, sent over the shared channel.
#[derive(Debug)]
pub enum Msg {
    /// The engine-side size estimate for a region, published once per check.
    RegionApproximateSize {
        /// The region the estimate is for.
        region_id: u64,
        /// The estimated stored bytes.
        size: u64,
    },
    /// A split proposal, emitted by the scan driver when a checker yields a
    /// split key.
    SplitRegion {
        /// The region to split.
        region_id: u64,
        /// The region's epoch at check start; consumers reject stale proposals.
        region_epoch: RegionEpoch,
        /// The chosen split key, as a user key.
        split_key: Vec<u8>,
    },
}

/// The approximate-size probe could not compute an estimate for the range.
#[derive(Debug)]
pub struct ProbeError;

/// Outcome of one non-blocking send on the controller channel.
pub enum SendOutcome {
    /// The message was handed to the channel.
    Delivered,
    /// The channel's buffer was full; the message was dropped.
    Full,
    /// The receiver is gone; the message was dropped.
    Closed,
}

#[verifier::external_type_specification]
#[verifier::external_body]
#[verifier::reject_recursive_types(T)]
pub struct ExSyncSender<T>(SyncSender<T>);

/// Relies on std::sync::mpsc::SyncSender::try_send: it delivers the message
/// when the receiver is alive and buffer space remains, and otherwise reports
/// a full buffer or a disconnected receiver, without blocking or panicking.
/// Nothing is promised of the outcome: sends are lossy by design.
#[verifier::external_body]
pub(crate) fn try_send_msg(ch: &SyncSender<Msg>, msg: Msg) -> (r: SendOutcome) {
    match ch.try_send(msg) {
        Ok(()) => SendOutcome::Delivered,
        Err(TrySendError::Full(_)) => SendOutcome::Full,
        Err(TrySendError::Disconnected(_)) => SendOutcome::Closed,
    }
}

/// The scan driver's registry of checkers for one check cycle.
pub struct Host {
    checkers: Vec<Checker>,
}

impl Host {
    /// The registered checkers, in registration order.
    pub closed spec fn checkers(&self) -> Seq<Checker> {
        self.checkers@
    }

    /// An empty registry.
    pub fn new() -> (h: Host)
        ensures
            h.checkers() == Seq::<Checker>::empty(),
    {
        Host { checkers: Vec::new() }
    }

    /// Register a checker to run during the coming scan.
    pub fn add_checker(&mut self, checker: Checker)
        ensures
            final(self).checkers() == old(self).checkers().push(checker),
    {
        self.checkers.push(checker);
    }

    /// How many checkers are registered.
    pub fn len(&self) -> (n: usize)
        ensures
            n == self.checkers().len(),
    {
        self.checkers.len()
    }

    /// Remove and return the most recently registered checker.
    pub fn pop_checker(&mut self) -> (r: Option<Checker>)
        ensures
            old(self).checkers().len() == 0 ==> r is None
                && final(self).checkers() == old(self).checkers(),
            old(self).checkers().len() > 0 ==> r == Some(old(self).checkers().last())
                && final(self).checkers() == old(self).checkers().drop_last(),
    {
        self.checkers.pop()
    }
}

/// The per-region integration point: reads the size estimate, publishes it to
/// the region's controller, and registers a size checker when the estimate
/// crosses the ceiling or could not be read at all.
pub struct SizeCheckObserver {
    region_max_size: u64,
    split_size: u64,
    ch: SyncSender<Msg>,
}

impl SizeCheckObserver {
    /// The configured ceiling past which a region is deemed split-worthy.
    pub closed spec fn region_max_size(&self) -> u64 {
        self.region_max_size
    }

    /// The configured first-half target for the split key.
    pub closed spec fn split_size(&self) -> u64 {
        self.split_size
    }

    /// An observer over the given configuration snapshot and outbound
    /// channel. `split_size` must not exceed `region_max_size`.
    pub fn new(region_max_size: u64, split_size: u64, ch: SyncSender<Msg>) -> (o: SizeCheckObserver)
        requires
            split_size <= region_max_size,
        ensures
            o.region_max_size() == region_max_size,
            o.split_size() == split_size,
    {
        SizeCheckObserver { region_max_size, split_size, ch }
    }

    /// One per-region check: publish the size estimate, then register a fresh
    /// checker with the host exactly when the estimate reached the ceiling or
    /// the probe failed (a region that cannot be measured might be large, and
    /// missing a split is worse than a useless scan). A failed channel send
    /// is dropped: the check must not fail because a receiver is slow or gone.
    pub fn add_checker(
        &self,
        ctx: &mut ObserverContext<'_>,
        host: &mut Host,
        approximate_size: Result<u64, ProbeError>,
    )
        requires
            self.split_size() <= self.region_max_size(),
        ensures
            (approximate_size is Err || approximate_size->Ok_0 >= self.region_max_size()) ==> {
                &&& final(host).checkers().len() == old(host).checkers().len() + 1
                &&& fresh_checker(final(host).checkers().last()@, self.region_max_size(),
                    self.split_size())
                &&& forall|j: int| 0 <= j < old(host).checkers().len()
                    ==> final(host).checkers()[j] == old(host).checkers()[j]
            },
            (approximate_size is Ok && approximate_size->Ok_0 < self.region_max_size())
                ==> final(host).checkers() == old(host).checkers(),
    {
        let region_id = ctx.region().get_id();
        let region_size = match approximate_size {
            Ok(size) => size,
            Err(_) => {
                // The region might be large; check its size for real.
                host.add_checker(Checker::new(self.region_max_size, self.split_size));
                return;
            },
        };
        let _ = try_send_msg(&self.ch, Msg::RegionApproximateSize { region_id, size: region_size });
        if region_size >= self.region_max_size {
            // The estimate says the region is split-worthy; confirm by scan.
            host.add_checker(Checker::new(self.region_max_size, self.split_size));
        }
    }
}

} // verus!
