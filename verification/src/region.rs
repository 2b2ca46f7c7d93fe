use vstd::prelude::*;

verus! {

/// A region's metadata generation: downstream consumers reject split
/// proposals whose epoch no longer matches the region's.
#[derive(Clone, Copy, Debug, PartialEq, Eq, Structural)]
pub struct RegionEpoch {
    /// Bumped when the region's key range changes (e.g. by a split).
    pub version: u64,
    /// Bumped when the region's replica set changes.
    pub conf_ver: u64,
}

impl Default for RegionEpoch {
    /// The zero epoch.
    fn default() -> (e: RegionEpoch)
        ensures
            e.version == 0,
            e.conf_ver == 0,
    {
        RegionEpoch { version: 0, conf_ver: 0 }
    }
}

/// One replica of a region.
#[derive(Clone, Copy, Debug, PartialEq, Eq, Structural)]
pub struct Peer {
    /// The replica's own identifier.
    pub id: u64,
    /// The store that hosts the replica.
    pub store_id: u64,
}

impl Default for Peer {
    /// A placeholder replica with zero identifiers.
    fn default() -> (p: Peer)
        ensures
            p.id == 0,
            p.store_id == 0,
    {
        Peer { id: 0, store_id: 0 }
    }
}

/// A region descriptor: a contiguous shard of the key space. Read-only to
/// this subsystem and never retained beyond one check.
#[derive(Debug)]
pub struct Region {
    /// The region's stable identifier.
    pub id: u64,
    /// Inclusive start key; empty means unbounded below.
    pub start_key: Vec<u8>,
    /// Exclusive end key; empty means unbounded above.
    pub end_key: Vec<u8>,
    /// The region's metadata generation.
    pub region_epoch: RegionEpoch,
    /// The region's replicas.
    pub peers: Vec<Peer>,
}

impl Default for Region {
    /// An empty descriptor: zero id, unbounded range, zero epoch, no peers.
    fn default() -> (r: Region)
        ensures
            r.id == 0,
            r.start_key@ == Seq::<u8>::empty(),
            r.end_key@ == Seq::<u8>::empty(),
            r.region_epoch == (RegionEpoch { version: 0, conf_ver: 0 }),
            r.peers@ == Seq::<Peer>::empty(),
    {
        Region {
            id: 0,
            start_key: Vec::new(),
            end_key: Vec::new(),
            region_epoch: RegionEpoch { version: 0, conf_ver: 0 },
            peers: Vec::new(),
        }
    }
}

impl Region {
    /// The region's identifier.
    pub fn get_id(&self) -> (id: u64)
        ensures
            id == self.id,
    {
        self.id
    }

    /// The region's metadata generation.
    pub fn get_region_epoch(&self) -> (e: &RegionEpoch)
        ensures
            *e == self.region_epoch,
    {
        &self.region_epoch
    }
}

/// Per-check context handed through observer hooks; it carries the region
/// descriptor for the check's duration and nothing else.
pub struct ObserverContext<'a> {
    region: &'a Region,
}

impl<'a> ObserverContext<'a> {
    /// The region under check.
    pub closed spec fn region_spec(&self) -> Region {
        *self.region
    }

    /// Open a context for one check of `region`.
    pub fn new(region: &'a Region) -> (ctx: ObserverContext<'a>)
        ensures
            ctx.region_spec() == *region,
    {
        ObserverContext { region }
    }

    /// The region under check.
    pub fn region(&self) -> (r: &'a Region)
        ensures
            *r == self.region_spec(),
    {
        self.region
    }
}

} // verus!
