use vstd::prelude::*;

verus! {

/// Name of a column family: an independently stored key namespace within the
/// engine. The size checker treats it as an opaque tag.
#[derive(Clone, Copy, Debug, PartialEq, Eq, Structural)]
pub enum CfName {
    Default,
    Lock,
    Write,
    Raft,
}

/// The column family that holds user data values.
pub const CF_DEFAULT: CfName = CfName::Default;

/// The column family that holds transaction locks.
pub const CF_LOCK: CfName = CfName::Lock;

/// The column family that holds commit records.
pub const CF_WRITE: CfName = CfName::Write;

/// The column family that holds replication-internal state.
pub const CF_RAFT: CfName = CfName::Raft;

/// One record handed to a split checker by the scan driver: the raw key, the
/// entry's logical size in bytes (key length plus value length), the scan
/// position it was read at, and the column family it came from. The size
/// checker consults only the key and the size.
pub struct KeyEntry {
    /// The raw on-disk key bytes.
    pub key: Vec<u8>,
    /// The iterator position this entry was read at.
    pub pos: usize,
    /// The entry's logical size: key length plus value length.
    pub size: u64,
    /// The column family the entry was read from.
    pub cf: CfName,
}

impl KeyEntry {
    /// Build an entry from a scanned key and the length of its value.
    pub fn new(key: Vec<u8>, pos: usize, value_size: u64, cf: CfName) -> (e: KeyEntry)
        requires
            key@.len() + value_size <= u64::MAX,
        ensures
            e.key@ == key@,
            e.pos == pos,
            e.size == key@.len() + value_size,
            e.cf == cf,
    {
        let size = key.len() as u64 + value_size;
        KeyEntry { key, pos, size, cf }
    }

    /// The raw key bytes.
    pub fn key(&self) -> (k: &[u8])
        ensures
            k@ == self.key@,
    {
        self.key.as_slice()
    }

    /// The entry's logical size in bytes.
    pub fn entry_size(&self) -> (s: u64)
        ensures
            s == self.size,
    {
        self.size
    }
}

} // verus!
