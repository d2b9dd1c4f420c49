use crate::primitives::{lemma_digest_of_bytes, ActorId, H256};
use vstd::prelude::*;

verus! {

/// The eight bytes of a number of 64 bits, the most significant first.
pub open spec fn be_bytes(x: u64) -> Seq<u8> {
    seq![
        (x >> 56) as u8,
        ((x >> 48) & 0xff) as u8,
        ((x >> 40) & 0xff) as u8,
        ((x >> 32) & 0xff) as u8,
        ((x >> 24) & 0xff) as u8,
        ((x >> 16) & 0xff) as u8,
        ((x >> 8) & 0xff) as u8,
        (x & 0xff) as u8,
    ]
}

/// What is digested for a requester and the transaction number that the
/// requester chose: the 32 bytes of the identity, then the number's eight
/// bytes, the most significant first.
pub open spec fn hash_input(account: ActorId, transaction_id: u64) -> Seq<u8> {
    account.bytes() + be_bytes(transaction_id)
}

/// The Blake2b digest of 256 bits of a byte string.
pub uninterp spec fn blake2_256_digest(data: Seq<u8>) -> Seq<u8>;

/// The fingerprint of a requester's transaction: the digest of what
/// `hash_input` gives for them.
pub open spec fn fingerprint(account: ActorId, transaction_id: u64) -> H256 {
    H256::of(blake2_256_digest(hash_input(account, transaction_id)))
}

/// Calls `sp_core_hashing::blake2_256`, which digests the bytes with Blake2b,
/// unkeyed, to 32 bytes. The digest depends on the bytes alone.
#[verifier::external_body]
fn blake2_256(data: &Vec<u8>) -> (r: [u8; 32])
    ensures
        r@ == blake2_256_digest(data@),
{
    sp_core_hashing::blake2_256(data.as_slice())
}

/// The eight bytes of `x`, the most significant first.
pub fn to_be_bytes(x: u64) -> (r: [u8; 8])
    ensures
        r@ == be_bytes(x),
{
    let r: [u8; 8] = [
        (x >> 56) as u8,
        ((x >> 48) & 0xff) as u8,
        ((x >> 40) & 0xff) as u8,
        ((x >> 32) & 0xff) as u8,
        ((x >> 24) & 0xff) as u8,
        ((x >> 16) & 0xff) as u8,
        ((x >> 8) & 0xff) as u8,
        (x & 0xff) as u8,
    ];
    assert(r@ =~= be_bytes(x));
    r
}

/// The byte string that `get_hash` digests.
pub fn hash_input_bytes(account: &ActorId, transaction_id: u64) -> (data: Vec<u8>)
    ensures
        data@ == hash_input(*account, transaction_id),
{
    let tail = to_be_bytes(transaction_id);
    let mut data: Vec<u8> = Vec::with_capacity(40);
    let mut i: usize = 0;
    while i < 32
        invariant
            i <= 32,
            data@ == account.0@.subrange(0, i as int),
        decreases 32 - i,
    {
        data.push(account.0[i]);
        assert(data@ =~= account.0@.subrange(0, i + 1));
        i += 1;
    }
    assert(data@ =~= account.0@);
    let mut j: usize = 0;
    while j < 8
        invariant
            j <= 8,
            data@ == account.0@ + tail@.subrange(0, j as int),
        decreases 8 - j,
    {
        data.push(tail[j]);
        assert(data@ =~= account.0@ + tail@.subrange(0, j + 1));
        j += 1;
    }
    assert(data@ =~= account.0@ + tail@);
    data
}

/// The fingerprint of a requester's transaction: the Blake2b digest of 256
/// bits of the requester's identity followed by the transaction number, the
/// most significant byte first.
pub fn get_hash(account: &ActorId, transaction_id: u64) -> (r: H256)
    ensures
        r == fingerprint(*account, transaction_id),
        r.bytes() == blake2_256_digest(hash_input(*account, transaction_id)),
{
    let data = hash_input_bytes(account, transaction_id);
    let r = H256(blake2_256(&data));
    proof {
        lemma_digest_of_bytes(r);
    }
    r
}

/// A number is known by its eight bytes.
pub proof fn lemma_be_bytes_injective(x: u64, y: u64)
    requires
        be_bytes(x) == be_bytes(y),
    ensures
        x == y,
{
    let a = be_bytes(x);
    let b = be_bytes(y);
    assert(a[0] == b[0] && a[1] == b[1] && a[2] == b[2] && a[3] == b[3]);
    assert(a[4] == b[4] && a[5] == b[5] && a[6] == b[6] && a[7] == b[7]);
    assert(x == y) by (bit_vector)
        requires
            (x >> 56) as u8 == (y >> 56) as u8,
            ((x >> 48) & 0xff) as u8 == ((y >> 48) & 0xff) as u8,
            ((x >> 40) & 0xff) as u8 == ((y >> 40) & 0xff) as u8,
            ((x >> 32) & 0xff) as u8 == ((y >> 32) & 0xff) as u8,
            ((x >> 24) & 0xff) as u8 == ((y >> 24) & 0xff) as u8,
            ((x >> 16) & 0xff) as u8 == ((y >> 16) & 0xff) as u8,
            ((x >> 8) & 0xff) as u8 == ((y >> 8) & 0xff) as u8,
            (x & 0xff) as u8 == (y & 0xff) as u8,
    ;
}

/// Two requests are digested from one byte string only where the requester
/// and the transaction number are the same.
pub proof fn lemma_hash_input_injective(a: ActorId, x: u64, b: ActorId, y: u64)
    requires
        hash_input(a, x) == hash_input(b, y),
    ensures
        a == b,
        x == y,
{
    let s = hash_input(a, x);
    let t = hash_input(b, y);
    assert(a.bytes() =~= s.subrange(0, 32));
    assert(b.bytes() =~= t.subrange(0, 32));
    assert(a.0 =~= b.0);
    assert(be_bytes(x) =~= s.subrange(32, 40));
    assert(be_bytes(y) =~= t.subrange(32, 40));
    lemma_be_bytes_injective(x, y);
}

} // verus!
