use vstd::prelude::*;

verus! {

/// Asks a signer for the VRF witness of one delegator at one slot.
#[derive(Clone, Debug, PartialEq, Eq)]
pub struct BatchGenerateWitnessSingleRequest {
    pub global_slot: String,
    pub epoch_seed: String,
    pub delegator_index: i64,
}

/// The stakes that decide a VRF threshold.
#[derive(Clone, Debug, PartialEq, Eq)]
pub struct BatchPatchWitnessSingleVrfThresholdRequest {
    pub delegated_stake: String,
    pub total_stake: String,
}

/// A witness as the signer returned it, to be completed with its threshold.
#[derive(Clone, Debug, PartialEq, Eq)]
pub struct BatchPatchWitnessSingleRequest {
    pub message: BatchGenerateWitnessSingleRequest,
    pub public_key: String,
    pub c: String,
    pub s: String,
    pub scaled_message_hash: Vec<String>,
    pub vrf_threshold: Option<BatchPatchWitnessSingleVrfThresholdRequest>,
}

} // verus!
