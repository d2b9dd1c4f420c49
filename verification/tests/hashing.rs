use nft_ledger::hashing::{get_hash, hash_input_bytes, to_be_bytes};
use nft_ledger::primitives::{ActorId, H256};

#[test]
fn be_bytes_put_the_most_significant_byte_first() {
    assert_eq!(to_be_bytes(0x0102030405060708), [1, 2, 3, 4, 5, 6, 7, 8]);
    assert_eq!(to_be_bytes(0), [0; 8]);
    assert_eq!(to_be_bytes(1), [0, 0, 0, 0, 0, 0, 0, 1]);
    assert_eq!(to_be_bytes(u64::MAX), [255; 8]);
}

#[test]
fn be_bytes_agree_with_std() {
    for x in [0u64, 1, 255, 256, 65_535, 1 << 32, 0xdead_beef_0bad_f00d, u64::MAX - 1, u64::MAX] {
        assert_eq!(to_be_bytes(x), x.to_be_bytes());
    }
}

#[test]
fn hash_input_is_identity_then_number() {
    let mut id = [0u8; 32];
    for (i, byte) in id.iter_mut().enumerate() {
        *byte = i as u8;
    }
    let data = hash_input_bytes(&ActorId(id), 0x0102030405060708);
    assert_eq!(data.len(), 40);
    assert_eq!(&data[..32], &id[..]);
    assert_eq!(&data[32..], &[1, 2, 3, 4, 5, 6, 7, 8]);
}

#[test]
fn get_hash_is_blake2b_256_of_the_input() {
    let account = ActorId([7; 32]);
    assert_eq!(
        get_hash(&account, 1),
        H256([
            255, 149, 248, 119, 85, 12, 162, 250, 51, 34, 158, 53, 215, 107, 128, 128, 19, 250, 178, 247,
            220, 4, 48, 249, 142, 145, 77, 25, 154, 69, 4, 225
        ])
    );
    assert_eq!(
        get_hash(&account, 2),
        H256([
            1, 43, 163, 96, 130, 99, 237, 190, 176, 207, 99, 216, 208, 182, 185, 204, 49, 103, 55, 59, 223,
            194, 21, 91, 59, 132, 20, 142, 62, 206, 173, 108
        ])
    );
    assert_eq!(
        get_hash(&account, 0x0102030405060708),
        H256([
            31, 133, 244, 192, 225, 145, 227, 141, 61, 235, 240, 177, 83, 173, 218, 45, 112, 74, 37, 210, 175,
            111, 44, 0, 73, 65, 133, 2, 241, 53, 16, 118
        ])
    );
}

#[test]
fn get_hash_agrees_with_the_digest_crate() {
    let mut id = [0u8; 32];
    for (i, byte) in id.iter_mut().enumerate() {
        *byte = i as u8;
    }
    let mut data = id.to_vec();
    data.extend_from_slice(&0u64.to_be_bytes());
    assert_eq!(get_hash(&ActorId(id), 0).0, sp_core_hashing::blake2_256(&data));
    assert_eq!(
        get_hash(&ActorId(id), 0).0,
        [
            123, 58, 225, 195, 57, 15, 111, 197, 157, 200, 46, 198, 201, 37, 201, 125, 80, 150, 210, 180, 27,
            218, 192, 103, 60, 47, 206, 187, 42, 89, 24, 41
        ]
    );
}

#[test]
fn get_hash_is_not_the_input() {
    let account = ActorId([7; 32]);
    assert_ne!(get_hash(&account, 1).0, account.0);
}

#[test]
fn equal_requests_have_equal_fingerprints() {
    let account = ActorId([9; 32]);
    assert_eq!(get_hash(&account, 42), get_hash(&account, 42));
    assert_eq!(get_hash(&ActorId([9; 32]), 42), get_hash(&account, 42));
}

#[test]
fn no_collision_in_a_sample() {
    let mut seen: Vec<H256> = Vec::new();
    for who in 0u8..16 {
        let mut id = [0u8; 32];
        id[31] = who;
        id[0] = who.wrapping_mul(17);
        for transaction_id in 0u64..64 {
            let fingerprint = get_hash(&ActorId(id), transaction_id * 0x0101_0101_0101);
            assert!(!seen.contains(&fingerprint));
            seen.push(fingerprint);
        }
    }
    assert_eq!(seen.len(), 16 * 64);
}

#[test]
fn the_requester_and_the_number_both_count() {
    let a = ActorId([1; 32]);
    let b = ActorId([2; 32]);
    assert_ne!(get_hash(&a, 1), get_hash(&b, 1));
    assert_ne!(get_hash(&a, 1), get_hash(&a, 2));
    assert_ne!(get_hash(&a, 1), get_hash(&a, 1 << 56));
}

#[test]
fn the_null_identity_is_all_zero() {
    assert_eq!(ActorId::zero(), ActorId([0; 32]));
    assert!(ActorId::zero().is_zero());
    assert!(!ActorId([1; 32]).is_zero());
    let mut last = [0u8; 32];
    last[31] = 1;
    assert!(!ActorId(last).is_zero());
    assert_ne!(ActorId(last), ActorId::zero());
}
