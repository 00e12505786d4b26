use vstd::prelude::*;

use crate::epoch::{primary_source, select_source, BestChainBlock, EpochData, EpochSource};
use crate::error::FetchError;
use crate::explorer::{explorer_epoch_data, explorer_result, ExplorerResponse};
use crate::ledger::{extract_delegators, is_delegator_at, LedgerAccount, LedgerAccountJson};

verus! {

/// The public explorer that keeps the staking-epoch data of past epochs.
pub const MINA_EXPLORER_ENDPOINT: &'static str = "https://graphql.minaexplorer.com";

/// The GraphQL endpoint of a node running on this machine.
pub const DEFAULT_LOCAL_ENDPOINT: &'static str = "http://localhost:3085/graphql";

/// The archive of ledger snapshots: each one is `<hash>.json` under this prefix.
pub const LEDGER_ARCHIVE_PREFIX: &'static str =
    "https://raw.githubusercontent.com/zkvalidator/mina-vrf-rs/main/data/epochs/";

/// Where the ledger snapshot with hash `hash` is kept.
pub open spec fn ledger_url_of(hash: Seq<char>) -> Seq<char> {
    LEDGER_ARCHIVE_PREFIX@ + hash + ".json"@
}

/// The download address of the ledger snapshot whose hash is `hash`.
pub fn ledger_url(hash: &str) -> (r: String)
    ensures
        r@ == ledger_url_of(hash@),
{
    let mut url = String::from_str(LEDGER_ARCHIVE_PREFIX);
    url.append(hash);
    url.append(".json");
    url
}

/// What a finished fetch returns: the epoch's data and its delegators.
#[derive(Clone, Debug, PartialEq, Eq)]
pub struct StakingSnapshot {
    pub seed: String,
    pub total_currency: String,
    pub ledger_hash: String,
    pub delegators: Vec<LedgerAccount>,
}

/// `s` holds the epoch data `d` and the delegators read from `ledger`.
pub open spec fn is_snapshot_of(s: StakingSnapshot, d: EpochData, ledger: Seq<LedgerAccountJson>) -> bool {
    &&& s.seed == d.seed
    &&& s.total_currency == d.total_currency
    &&& s.ledger_hash == d.ledger_hash
    &&& s.delegators@.len() == ledger.len()
    &&& forall|i: int|
        0 <= i < ledger.len() ==> #[trigger] is_delegator_at(s.delegators@[i], ledger[i], i)
}

/// What a fetch waits for next.
#[derive(Clone, Debug, PartialEq, Eq)]
pub enum Phase {
    /// The node's answer on its best chain.
    AwaitPrimary,
    /// The explorer's answer on the requested epoch.
    AwaitExplorer,
    /// The ledger snapshot of these epoch data.
    AwaitLedger(EpochData),
    /// Nothing: the fetch has returned or failed.
    Finished,
}

/// What the caller of a fetch does next.
#[derive(Clone, Debug, PartialEq, Eq)]
pub enum Step {
    /// Query the explorer at `MINA_EXPLORER_ENDPOINT` for the blocks of `epoch`.
    QueryExplorer { epoch: i64 },
    /// Download the ledger snapshot at `url`.
    Download { url: String },
    /// The fetch is complete.
    Done(StakingSnapshot),
    /// The fetch failed.
    Fail(FetchError),
}

/// One fetch of the staking data of an epoch. It starts by waiting for the
/// node's best chain; each answer handed to it yields the next step.
#[derive(Clone, Debug, PartialEq, Eq)]
pub struct Fetcher {
    pub epoch: i64,
    pub phase: Phase,
}

impl Fetcher {
    /// A fetch of the staking data of `epoch`, waiting for the node's best chain.
    pub fn new(epoch: i64) -> (r: Fetcher)
        ensures
            r.epoch == epoch,
            r.phase == Phase::AwaitPrimary,
    {
        Fetcher { epoch, phase: Phase::AwaitPrimary }
    }

    fn go_to_ledger(&mut self, d: EpochData) -> (r: Step)
        ensures
            final(self).epoch == old(self).epoch,
            final(self).phase == Phase::AwaitLedger(d),
            r matches Step::Download { url } && url@ == ledger_url_of(d.ledger_hash@),
    {
        let url = ledger_url(d.ledger_hash.as_str());
        self.phase = Phase::AwaitLedger(d);
        Step::Download { url }
    }

    fn fail(&mut self, e: FetchError) -> (r: Step)
        ensures
            final(self).epoch == old(self).epoch,
            final(self).phase == Phase::Finished,
            r == Step::Fail(e),
    {
        self.phase = Phase::Finished;
        Step::Fail(e)
    }

    /// Takes the node's best chain. With exactly one block in the requested
    /// epoch, its own data are used and the ledger is next; with one block
    /// in another epoch, the explorer is asked for the requested epoch; with
    /// none or several the fetch fails.
    pub fn on_primary(&mut self, best_chain: Option<Vec<BestChainBlock>>) -> (r: Step)
        ensures
            final(self).epoch == old(self).epoch,
            old(self).phase != Phase::AwaitPrimary ==> r == Step::Fail(FetchError::OutOfOrder)
                && final(self).phase == Phase::Finished,
            old(self).phase == Phase::AwaitPrimary ==> match primary_source(
                best_chain,
                old(self).epoch,
            ) {
                Err(e) => r == Step::Fail(e) && final(self).phase == Phase::Finished,
                Ok(EpochSource::Current(d)) => final(self).phase == Phase::AwaitLedger(d) && (
                r matches Step::Download { url } && url@ == ledger_url_of(d.ledger_hash@)),
                Ok(EpochSource::Historical { epoch }) => r == (Step::QueryExplorer { epoch })
                    && final(self).phase == Phase::AwaitExplorer,
            },
    {
        if !matches!(self.phase, Phase::AwaitPrimary) {
            return self.fail(FetchError::OutOfOrder);
        }
        match select_source(&best_chain, self.epoch) {
            Err(e) => self.fail(e),
            Ok(EpochSource::Current(d)) => self.go_to_ledger(d),
            Ok(EpochSource::Historical { epoch }) => {
                self.phase = Phase::AwaitExplorer;
                Step::QueryExplorer { epoch }
            },
        }
    }

    /// Takes the explorer's answer: the epoch data of its first block are
    /// used and the ledger is next, or the fetch fails naming the first
    /// missing field.
    pub fn on_explorer(&mut self, resp: ExplorerResponse) -> (r: Step)
        ensures
            final(self).epoch == old(self).epoch,
            old(self).phase != Phase::AwaitExplorer ==> r == Step::Fail(FetchError::OutOfOrder)
                && final(self).phase == Phase::Finished,
            old(self).phase == Phase::AwaitExplorer ==> match explorer_result(resp) {
                Err(e) => r == Step::Fail(e) && final(self).phase == Phase::Finished,
                Ok(d) => final(self).phase == Phase::AwaitLedger(d) && (r matches Step::Download {
                    url,
                } && url@ == ledger_url_of(d.ledger_hash@)),
            },
    {
        if !matches!(self.phase, Phase::AwaitExplorer) {
            return self.fail(FetchError::OutOfOrder);
        }
        match explorer_epoch_data(&resp) {
            Err(e) => self.fail(e),
            Ok(d) => self.go_to_ledger(d),
        }
    }

    /// Takes the downloaded ledger snapshot and completes the fetch with the
    /// epoch data and the delegators read from it.
    pub fn on_ledger(&mut self, ledger: Vec<LedgerAccountJson>) -> (r: Step)
        requires
            ledger@.len() <= i64::MAX,
        ensures
            final(self).epoch == old(self).epoch,
            final(self).phase == Phase::Finished,
            !(old(self).phase is AwaitLedger) ==> r == Step::Fail(FetchError::OutOfOrder),
            old(self).phase matches Phase::AwaitLedger(d) ==> r matches Step::Done(s)
                && is_snapshot_of(s, d, ledger@),
    {
        let d = match &self.phase {
            Phase::AwaitLedger(d) => d.duplicate(),
            _ => {
                return self.fail(FetchError::OutOfOrder);
            },
        };
        self.phase = Phase::Finished;
        let delegators = extract_delegators(ledger.as_slice());
        Step::Done(
            StakingSnapshot {
                seed: d.seed,
                total_currency: d.total_currency,
                ledger_hash: d.ledger_hash,
                delegators,
            },
        )
    }
}

} // verus!
