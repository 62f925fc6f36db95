//! The reputation changes that the networking modules decide on.
use crate::network::primitives::ReputationChange;
use vstd::prelude::*;

verus! {

/// A peer did not respond in time.
#[verifier::allow_in_spec]
pub fn timeout() -> ReputationChange
    returns
        (ReputationChange { value: -1024i32 as i32, reason: "Request timeout" }),
{
    ReputationChange { value: -1024, reason: "Request timeout" }
}

/// A peer refused a request.
#[verifier::allow_in_spec]
pub fn refused() -> ReputationChange
    returns
        (ReputationChange { value: -1024i32 as i32, reason: "Request refused" }),
{
    ReputationChange { value: -1024, reason: "Request refused" }
}

/// We are a light client and the peer is behind us.
#[verifier::allow_in_spec]
pub fn peer_behind_us_light() -> ReputationChange
    returns
        (ReputationChange { value: -256i32 as i32, reason: "Useless for a light peer" }),
{
    ReputationChange { value: -256, reason: "Useless for a light peer" }
}

/// A message failed to decode.
#[verifier::allow_in_spec]
pub fn bad_message() -> ReputationChange
    returns
        (ReputationChange { value: -4096i32 as i32, reason: "Bad message" }),
{
    ReputationChange { value: -4096, reason: "Bad message" }
}

/// A peer has another genesis block.
#[verifier::allow_in_spec]
pub fn genesis_mismatch() -> ReputationChange
    returns
        (ReputationChange { value: i32::MIN, reason: "Genesis mismatch" }),
{
    ReputationChange { value: i32::MIN, reason: "Genesis mismatch" }
}

/// A peer speaks a version of the protocol that is not supported.
#[verifier::allow_in_spec]
pub fn bad_protocol() -> ReputationChange
    returns
        (ReputationChange { value: i32::MIN, reason: "Unsupported protocol" }),
{
    ReputationChange { value: i32::MIN, reason: "Unsupported protocol" }
}

/// A peer's role does not fit ours.
#[verifier::allow_in_spec]
pub fn bad_role() -> ReputationChange
    returns
        (ReputationChange { value: i32::MIN, reason: "Unsupported role" }),
{
    ReputationChange { value: i32::MIN, reason: "Unsupported role" }
}

/// A peer sent a block announcement that failed validation.
#[verifier::allow_in_spec]
pub fn bad_block_announcement() -> ReputationChange
    returns
        (ReputationChange { value: -4096i32 as i32, reason: "Bad block announcement" }),
{
    ReputationChange { value: -4096, reason: "Bad block announcement" }
}

/// A peer provided a justification that does not hold.
#[verifier::allow_in_spec]
pub fn invalid_justification() -> ReputationChange
    returns
        (ReputationChange { value: i32::MIN, reason: "Invalid justification" }),
{
    ReputationChange { value: i32::MIN, reason: "Invalid justification" }
}

} // verus!
