//! The boundary to the Soroban host.
//!
//! The one thing this crate takes from the host is its hash. Everything in
//! this module is taken on trust: Verus reads the contracts below and not
//! the code behind them.

use soroban_sdk::testutils::EnvTestConfig;
use soroban_sdk::{Bytes, Env};
use vstd::prelude::*;

verus! {

/// The Keccak-256 digest of `data`, as `soroban_sdk::crypto::Crypto::keccak256`
/// computes it.
pub uninterp spec fn keccak256_digest(data: Seq<u8>) -> Seq<u8>;

/// Hashes `data` with `soroban_sdk::crypto::Crypto::keccak256`.
///
/// Trusted: the call returns, and the 32 bytes it returns are the Keccak-256
/// digest of `data` and depend on nothing but `data`. The host meters every
/// call against a budget and fails when that is spent, so the call is made
/// in a host of its own whose resource limits are lifted. A host byte
/// string holds at most `u32::MAX` bytes, hence the bound on the input.
#[verifier::external_body]
pub(crate) fn keccak256(data: &[u8]) -> (digest: [u8; 32])
    requires
        data@.len() <= u32::MAX,
    ensures
        digest@ == keccak256_digest(data@),
{
    let env = Env::new_with_config(EnvTestConfig { capture_snapshot_at_drop: false });
    env.cost_estimate().disable_resource_limits();
    env.crypto().keccak256(&Bytes::from_slice(&env, data)).to_array()
}

} // verus!
