use vstd::prelude::*;

use crate::error::FetchError;

verus! {

/// Seed and ledger snapshot that fix stake-weighted selection for an epoch.
#[derive(Clone, Debug, PartialEq, Eq)]
pub struct EpochData {
    pub seed: String,
    pub total_currency: String,
    pub ledger_hash: String,
}

impl EpochData {
    /// A copy of these epoch data.
    pub fn duplicate(&self) -> (r: EpochData)
        ensures
            r == *self,
    {
        EpochData {
            seed: self.seed.clone(),
            total_currency: self.total_currency.clone(),
            ledger_hash: self.ledger_hash.clone(),
        }
    }
}

/// A block of the node's best chain: the epoch it belongs to, written in
/// decimal, and the staking-epoch data of its consensus state.
#[derive(Clone, Debug, PartialEq, Eq)]
pub struct BestChainBlock {
    pub epoch: String,
    pub staking_epoch_data: EpochData,
}

/// Where the staking-epoch data for a requested epoch come from.
#[derive(Clone, Debug, PartialEq, Eq)]
pub enum EpochSource {
    /// The requested epoch is the node's current one: its data are these.
    Current(EpochData),
    /// The requested epoch is another one: ask the explorer for it.
    Historical { epoch: i64 },
}

pub open spec fn digit_char(d: nat) -> char {
    if d == 0 { '0' }
    else if d == 1 { '1' }
    else if d == 2 { '2' }
    else if d == 3 { '3' }
    else if d == 4 { '4' }
    else if d == 5 { '5' }
    else if d == 6 { '6' }
    else if d == 7 { '7' }
    else if d == 8 { '8' }
    else { '9' }
}

/// The decimal digits of `n`, most significant first, without leading zeros.
pub open spec fn digits_of(n: nat) -> Seq<char>
    decreases n,
{
    if n < 10 {
        seq![digit_char(n)]
    } else {
        digits_of(n / 10).push(digit_char(n % 10))
    }
}

/// `i` written in decimal, with a leading `-` when negative.
pub open spec fn decimal(i: int) -> Seq<char> {
    if i < 0 {
        seq!['-'] + digits_of((-i) as nat)
    } else {
        digits_of(i as nat)
    }
}

/// Relies on `i64`'s `Display` through `to_string`: the plain decimal form.
#[verifier::external_body]
fn epoch_text(epoch: i64) -> (r: String)
    ensures
        r@ == decimal(epoch as int),
{
    epoch.to_string()
}

/// How many best-chain blocks the node reported; none when the list is absent.
pub open spec fn best_chain_count(best_chain: Option<Vec<BestChainBlock>>) -> nat {
    match best_chain {
        Some(blocks) => blocks@.len(),
        None => 0,
    }
}

/// The decision taken on the node's best chain for a requested epoch.
pub open spec fn primary_source(best_chain: Option<Vec<BestChainBlock>>, epoch: i64) -> Result<
    EpochSource,
    FetchError,
> {
    if best_chain_count(best_chain) != 1 {
        Err(FetchError::NotExactlyOneBestChain { count: best_chain_count(best_chain) as usize })
    } else {
        let block = best_chain->0@[0];
        if block.epoch@ == decimal(epoch as int) {
            Ok(EpochSource::Current(block.staking_epoch_data))
        } else {
            Ok(EpochSource::Historical { epoch })
        }
    }
}

/// Decides, from the node's best chain, where the data for `epoch` come from:
/// exactly one best-chain block is required, and its own data serve when it
/// lies in `epoch`.
pub fn select_source(best_chain: &Option<Vec<BestChainBlock>>, epoch: i64) -> (r: Result<
    EpochSource,
    FetchError,
>)
    ensures
        r == primary_source(*best_chain, epoch),
{
    let blocks = match best_chain {
        Some(blocks) => blocks,
        None => {
            return Err(FetchError::NotExactlyOneBestChain { count: 0 });
        },
    };
    if blocks.len() != 1 {
        return Err(FetchError::NotExactlyOneBestChain { count: blocks.len() });
    }
    let block = &blocks[0];
    let wanted = epoch_text(epoch);
    if block.epoch == wanted {
        Ok(EpochSource::Current(block.staking_epoch_data.duplicate()))
    } else {
        Ok(EpochSource::Historical { epoch })
    }
}

} // verus!
