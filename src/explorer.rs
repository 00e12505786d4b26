use vstd::prelude::*;

use crate::epoch::EpochData;
use crate::error::{FetchError, MissingField};

verus! {

/// The ledger of an explorer record; the explorer may leave out any field.
#[derive(Clone, Debug, PartialEq, Eq)]
pub struct ExplorerLedger {
    pub hash: Option<String>,
    pub total_currency: Option<String>,
}

#[derive(Clone, Debug, PartialEq, Eq)]
pub struct ExplorerStakingEpochData {
    pub seed: Option<String>,
    pub ledger: Option<ExplorerLedger>,
}

#[derive(Clone, Debug, PartialEq, Eq)]
pub struct ExplorerConsensusState {
    pub staking_epoch_data: Option<ExplorerStakingEpochData>,
}

#[derive(Clone, Debug, PartialEq, Eq)]
pub struct ExplorerProtocolState {
    pub consensus_state: Option<ExplorerConsensusState>,
}

#[derive(Clone, Debug, PartialEq, Eq)]
pub struct ExplorerBlock {
    pub protocol_state: Option<ExplorerProtocolState>,
}

/// The explorer's answer to a query for the blocks of one epoch.
#[derive(Clone, Debug, PartialEq, Eq)]
pub struct ExplorerResponse {
    pub blocks: Vec<Option<ExplorerBlock>>,
}

/// The staking-epoch data of the first block of an explorer response, or the
/// first field, from the outside in, that the record lacks.
pub open spec fn explorer_outcome(resp: ExplorerResponse) -> Result<EpochData, MissingField> {
    if resp.blocks@.len() == 0 {
        Err(MissingField::Block)
    } else {
        match resp.blocks@[0] {
            None => Err(MissingField::Block),
            Some(block) => match block.protocol_state {
                None => Err(MissingField::ProtocolState),
                Some(ps) => match ps.consensus_state {
                    None => Err(MissingField::ConsensusState),
                    Some(cs) => match cs.staking_epoch_data {
                        None => Err(MissingField::StakingEpochData),
                        Some(sed) => match sed.ledger {
                            None => Err(MissingField::Ledger),
                            Some(ledger) => match (sed.seed, ledger.total_currency, ledger.hash) {
                                (None, _, _) => Err(MissingField::Seed),
                                (Some(_), None, _) => Err(MissingField::TotalCurrency),
                                (Some(_), Some(_), None) => Err(MissingField::LedgerHash),
                                (Some(seed), Some(total_currency), Some(ledger_hash)) => Ok(
                                    EpochData { seed, total_currency, ledger_hash },
                                ),
                            },
                        },
                    },
                },
            },
        }
    }
}

/// What reading an explorer response gives: its epoch data, or the error
/// that names the first missing field.
pub open spec fn explorer_result(resp: ExplorerResponse) -> Result<EpochData, FetchError> {
    match explorer_outcome(resp) {
        Ok(d) => Ok(d),
        Err(f) => Err(FetchError::Missing(f)),
    }
}

fn present<T>(v: &Option<T>, field: MissingField) -> (r: Result<&T, FetchError>)
    ensures
        v is None ==> r == Err::<&T, FetchError>(FetchError::Missing(field)),
        v is Some ==> r == Ok::<&T, FetchError>(&v->0),
{
    match v {
        Some(x) => Ok(x),
        None => Err(FetchError::Missing(field)),
    }
}

/// Reads the staking-epoch data of the first block that the explorer
/// returned, checking each nested field in turn and naming the first one
/// that is absent.
pub fn explorer_epoch_data(resp: &ExplorerResponse) -> (r: Result<EpochData, FetchError>)
    ensures
        r == explorer_result(*resp),
{
    if resp.blocks.len() == 0 {
        return Err(FetchError::Missing(MissingField::Block));
    }
    let block = present(&resp.blocks[0], MissingField::Block)?;
    let ps = present(&block.protocol_state, MissingField::ProtocolState)?;
    let cs = present(&ps.consensus_state, MissingField::ConsensusState)?;
    let sed = present(&cs.staking_epoch_data, MissingField::StakingEpochData)?;
    let ledger = present(&sed.ledger, MissingField::Ledger)?;
    let seed = present(&sed.seed, MissingField::Seed)?;
    let total_currency = present(&ledger.total_currency, MissingField::TotalCurrency)?;
    let ledger_hash = present(&ledger.hash, MissingField::LedgerHash)?;
    Ok(EpochData {
        seed: seed.clone(),
        total_currency: total_currency.clone(),
        ledger_hash: ledger_hash.clone(),
    })
}

} // verus!
