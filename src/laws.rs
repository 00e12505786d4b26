use vstd::prelude::*;

use crate::epoch::{best_chain_count, decimal, primary_source, BestChainBlock, EpochSource};
use crate::error::{error_message, field_name, FetchError, MissingField};
use crate::explorer::{explorer_result, ExplorerResponse};

verus! {

/// The position of a field in the order in which an explorer record is
/// checked, from the outside in.
pub open spec fn check_rank(f: MissingField) -> nat {
    match f {
        MissingField::Block => 0,
        MissingField::ProtocolState => 1,
        MissingField::ConsensusState => 2,
        MissingField::StakingEpochData => 3,
        MissingField::Ledger => 4,
        MissingField::Seed => 5,
        MissingField::TotalCurrency => 6,
        MissingField::LedgerHash => 7,
    }
}

/// Field `f` is present in the first block of `resp`, with everything that
/// encloses it.
pub open spec fn has_field(resp: ExplorerResponse, f: MissingField) -> bool {
    let block = resp.blocks@[0]->0;
    let ps = block.protocol_state->0;
    let cs = ps.consensus_state->0;
    let sed = cs.staking_epoch_data->0;
    let ledger = sed.ledger->0;
    &&& resp.blocks@.len() > 0
    &&& resp.blocks@[0] is Some
    &&& check_rank(f) >= 1 ==> block.protocol_state is Some
    &&& check_rank(f) >= 2 ==> ps.consensus_state is Some
    &&& check_rank(f) >= 3 ==> cs.staking_epoch_data is Some
    &&& check_rank(f) >= 4 ==> sed.ledger is Some
    &&& f == MissingField::Seed ==> sed.seed is Some
    &&& f == MissingField::TotalCurrency ==> ledger.total_currency is Some
    &&& f == MissingField::LedgerHash ==> ledger.hash is Some
}

/// When the node's single best-chain block lies in the requested epoch, its
/// own staking-epoch data are used and the explorer is not asked.
pub proof fn current_epoch_needs_no_explorer(best_chain: Option<Vec<BestChainBlock>>, epoch: i64)
    requires
        best_chain_count(best_chain) == 1,
        best_chain->0@[0].epoch@ == decimal(epoch as int),
    ensures
        primary_source(best_chain, epoch) == Ok::<EpochSource, FetchError>(
            EpochSource::Current(best_chain->0@[0].staking_epoch_data),
        ),
{
}

/// When the node's single best-chain block lies in another epoch, the
/// explorer is asked for exactly the requested epoch.
pub proof fn other_epoch_asks_explorer(best_chain: Option<Vec<BestChainBlock>>, epoch: i64)
    requires
        best_chain_count(best_chain) == 1,
        best_chain->0@[0].epoch@ != decimal(epoch as int),
    ensures
        primary_source(best_chain, epoch) == Ok::<EpochSource, FetchError>(
            EpochSource::Historical { epoch },
        ),
{
}

/// A best chain of no block or of several blocks fails the fetch at once.
pub proof fn best_chain_must_be_single(best_chain: Option<Vec<BestChainBlock>>, epoch: i64)
    requires
        best_chain_count(best_chain) != 1,
    ensures
        primary_source(best_chain, epoch) matches Err(e) && e is NotExactlyOneBestChain,
{
}

/// An explorer record that lacks field `f`, while every field checked before
/// it is present, fails with an error that names `f`.
pub proof fn missing_field_is_named(resp: ExplorerResponse, f: MissingField)
    requires
        !has_field(resp, f),
        forall|g: MissingField| check_rank(g) < check_rank(f) ==> #[trigger] has_field(resp, g),
    ensures
        explorer_result(resp) == Err::<crate::epoch::EpochData, FetchError>(
            FetchError::Missing(f),
        ),
        error_message(FetchError::Missing(f)) == "missing "@ + field_name(f),
{
    assert(check_rank(MissingField::Block) < check_rank(f) ==> has_field(resp, MissingField::Block));
    assert(check_rank(MissingField::ProtocolState) < check_rank(f) ==> has_field(
        resp,
        MissingField::ProtocolState,
    ));
    assert(check_rank(MissingField::ConsensusState) < check_rank(f) ==> has_field(
        resp,
        MissingField::ConsensusState,
    ));
    assert(check_rank(MissingField::StakingEpochData) < check_rank(f) ==> has_field(
        resp,
        MissingField::StakingEpochData,
    ));
    assert(check_rank(MissingField::Ledger) < check_rank(f) ==> has_field(
        resp,
        MissingField::Ledger,
    ));
    assert(check_rank(MissingField::Seed) < check_rank(f) ==> has_field(resp, MissingField::Seed));
    assert(check_rank(MissingField::TotalCurrency) < check_rank(f) ==> has_field(
        resp,
        MissingField::TotalCurrency,
    ));
}

} // verus!
