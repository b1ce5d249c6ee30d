use vstd::prelude::*;
use vstd::bytes::{u64_to_le_bytes, spec_u64_to_le_bytes};

verus! {

/// The keccak-256 digest of a byte sequence. The outside hasher defines it;
/// the library only relies on the digest being a function of the bytes.
pub uninterp spec fn keccak_of(data: Seq<u8>) -> Seq<u8>;

/// The canonical commitment message: the three prediction words in
/// fixed-width little-endian form, followed by the 32-byte salt.
pub open spec fn spec_commit_message(low: u64, high: u64, target: u64, salt: Seq<u8>) -> Seq<u8> {
    spec_u64_to_le_bytes(low) + spec_u64_to_le_bytes(high) + spec_u64_to_le_bytes(target) + salt
}

/// Relies on solana_program::keccak::hash: a 32-byte keccak-256 digest
/// computed from the input bytes alone.
#[verifier::external_body]
fn keccak256(data: &Vec<u8>) -> (r: [u8; 32])
    ensures
        r@ == keccak_of(data@),
{
    solana_program::keccak::hash(data.as_slice()).to_bytes()
}

/// The commitment a bettor submits at placement for a prediction and salt,
/// and the value `reveal` later recomputes for comparison.
pub fn commitment_hash(prediction_low: u64, prediction_high: u64, prediction_target: u64, salt: &[u8; 32]) -> (r: [u8; 32])
    ensures
        r@ == keccak_of(
            spec_commit_message(prediction_low, prediction_high, prediction_target, salt@),
        ),
{
    let mut data: Vec<u8> = Vec::new();
    let mut low_bytes = u64_to_le_bytes(prediction_low);
    data.append(&mut low_bytes);
    let mut high_bytes = u64_to_le_bytes(prediction_high);
    data.append(&mut high_bytes);
    let mut target_bytes = u64_to_le_bytes(prediction_target);
    data.append(&mut target_bytes);
    let ghost prefix = data@;
    let mut i: usize = 0;
    while i < 32
        invariant
            0 <= i <= 32,
            data@ == prefix + salt@.take(i as int),
        decreases 32 - i,
    {
        data.push(salt[i]);
        proof {
            assert(prefix + salt@.take(i as int) + seq![salt@[i as int]] =~= prefix + salt@.take(
                i as int + 1,
            ));
        }
        i += 1;
    }
    proof {
        assert(salt@.take(32) =~= salt@);
        assert(data@ =~= spec_commit_message(
            prediction_low,
            prediction_high,
            prediction_target,
            salt@,
        ));
    }
    keccak256(&data)
}

/// Bit-exact comparison of two 32-byte words.
pub fn bytes32_eq(a: &[u8; 32], b: &[u8; 32]) -> (r: bool)
    ensures
        r <==> a@ == b@,
{
    let mut i: usize = 0;
    while i < 32
        invariant
            0 <= i <= 32,
            forall|j: int| 0 <= j < i ==> a@[j] == b@[j],
        decreases 32 - i,
    {
        if a[i] != b[i] {
            return false;
        }
        i += 1;
    }
    proof {
        assert(a@ =~= b@);
    }
    true
}

} // verus!
