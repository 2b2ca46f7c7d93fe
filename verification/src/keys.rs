use vstd::prelude::*;

verus! {

/// Every user key is stored in the engine under this prefix byte (ASCII 'z'),
/// so that data keys sort after all metadata keys.
pub const DATA_PREFIX: u8 = 122;

/// Whether `k` has the shape of an on-disk data key.
pub open spec fn is_data_key(k: Seq<u8>) -> bool {
    k.len() >= 1 && k[0] == DATA_PREFIX
}

/// The user key that an on-disk data key stores.
pub open spec fn origin_of(k: Seq<u8>) -> Seq<u8> {
    k.subrange(1, k.len() as int)
}

/// The on-disk form of a user key: the data prefix followed by the key bytes.
pub fn data_key(key: &[u8]) -> (r: Vec<u8>)
    ensures
        r@ == seq![DATA_PREFIX] + key@,
        is_data_key(r@),
{
    let mut r: Vec<u8> = Vec::new();
    r.push(DATA_PREFIX);
    let mut i: usize = 0;
    while i < key.len()
        invariant
            0 <= i <= key@.len(),
            r@ == seq![DATA_PREFIX] + key@.subrange(0, i as int),
        decreases key@.len() - i,
    {
        r.push(key[i]);
        proof {
            assert(key@.subrange(0, i + 1) == key@.subrange(0, i as int).push(key@[i as int]));
        }
        i = i + 1;
    }
    proof {
        assert(key@.subrange(0, key@.len() as int) == key@);
    }
    r
}

/// The user key stored by an on-disk data key: the bytes after the prefix.
pub fn origin_key(key: &[u8]) -> (r: Vec<u8>)
    requires
        is_data_key(key@),
    ensures
        r@ == origin_of(key@),
{
    let mut r: Vec<u8> = Vec::new();
    let mut i: usize = 1;
    while i < key.len()
        invariant
            1 <= i <= key@.len(),
            r@ == key@.subrange(1, i as int),
        decreases key@.len() - i,
    {
        r.push(key[i]);
        proof {
            assert(key@.subrange(1, i + 1) == key@.subrange(1, i as int).push(key@[i as int]));
        }
        i = i + 1;
    }
    r
}

} // verus!
