//! Staking-epoch data for a delegation pool: which epoch data to use, where
//! its ledger snapshot lives, and the delegators read from that snapshot.
//!
//! A fetch is a [`Fetcher`]: the caller queries the node, hands the answer to
//! [`Fetcher::on_primary`], and carries out each [`Step`] it is given in turn,
//! until the fetch is done or fails.

mod epoch;
mod error;
mod explorer;
mod fetch;
mod laws;
mod ledger;
mod response;
mod witness;

pub use epoch::{
    best_chain_count, decimal, digit_char, digits_of, primary_source, select_source,
    BestChainBlock, EpochData, EpochSource,
};
pub use error::{error_message, field_name, FetchError, MissingField};
pub use explorer::{
    explorer_epoch_data, explorer_outcome, explorer_result, ExplorerBlock, ExplorerConsensusState,
    ExplorerLedger, ExplorerProtocolState, ExplorerResponse, ExplorerStakingEpochData,
};
pub use fetch::{
    is_snapshot_of, ledger_url, ledger_url_of, Fetcher, Phase, StakingSnapshot, Step,
    DEFAULT_LOCAL_ENDPOINT, LEDGER_ARCHIVE_PREFIX, MINA_EXPLORER_ENDPOINT,
};
pub use laws::{
    best_chain_must_be_single, check_rank, current_epoch_needs_no_explorer, has_field,
    missing_field_is_named, other_epoch_asks_explorer,
};
pub use ledger::{extract_delegators, is_delegator_at, LedgerAccount, LedgerAccountJson};
pub use response::{decode_response, reports_errors};
pub use witness::{
    BatchGenerateWitnessSingleRequest, BatchPatchWitnessSingleRequest,
    BatchPatchWitnessSingleVrfThresholdRequest,
};
