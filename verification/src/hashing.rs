//! The one-way hash used for escrow identifiers and secret commitments.

use vstd::prelude::*;

verus! {

/// The Keccak-256 digest of a byte string. The digest itself is far too
/// involved to state here; callers rely only on it being a fixed function
/// of the input bytes.
pub uninterp spec fn keccak_of(data: Seq<u8>) -> Seq<u8>;

/// Relies on soroban_sdk's `Crypto::keccak256`: the 32-byte Keccak-256
/// digest of the input, a function of the input bytes alone. The budget
/// reset only lifts the test host's metering so the call cannot be cut
/// short on long inputs.
#[verifier::external_body]
pub(crate) fn keccak256_bytes(data: &Vec<u8>) -> (r: Vec<u8>)
    ensures
        r@ == keccak_of(data@),
        r@.len() == 32,
{
    let env = soroban_sdk::Env::default();
    env.budget().reset_unlimited();
    let bytes = soroban_sdk::Bytes::from_slice(&env, data.as_slice());
    let digest = env.crypto().keccak256(&bytes);
    digest.to_array().to_vec()
}

} // verus!
