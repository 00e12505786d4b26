use vstd::prelude::*;

verus! {

/// A field that the explorer's block record may lack.
#[derive(Clone, Copy, Debug, PartialEq, Eq, Structural)]
pub enum MissingField {
    Block,
    ProtocolState,
    ConsensusState,
    StakingEpochData,
    Ledger,
    Seed,
    TotalCurrency,
    LedgerHash,
}

/// Why a fetch of staking data stopped.
#[derive(Clone, Copy, Debug, PartialEq, Eq, Structural)]
pub enum FetchError {
    /// The GraphQL response reported errors.
    ResponseContainsErrors,
    /// The GraphQL response held neither errors nor data.
    ResponseEmpty,
    /// The node reported `count` best-chain blocks instead of one.
    NotExactlyOneBestChain { count: usize },
    /// The explorer's record lacks a field.
    Missing(MissingField),
    /// A response arrived that the fetch was not waiting for.
    OutOfOrder,
}

/// The name of a field as it appears in error messages.
pub open spec fn field_name(f: MissingField) -> Seq<char> {
    match f {
        MissingField::Block => "block"@,
        MissingField::ProtocolState => "protocol state"@,
        MissingField::ConsensusState => "consensus state"@,
        MissingField::StakingEpochData => "staking epoch data"@,
        MissingField::Ledger => "ledger"@,
        MissingField::Seed => "seed"@,
        MissingField::TotalCurrency => "total currency"@,
        MissingField::LedgerHash => "ledger hash"@,
    }
}

/// The text that describes an error.
pub open spec fn error_message(e: FetchError) -> Seq<char> {
    match e {
        FetchError::ResponseContainsErrors => "response contains errors"@,
        FetchError::ResponseEmpty => "response was empty"@,
        FetchError::NotExactlyOneBestChain { .. } => "expected exactly one best chain"@,
        FetchError::Missing(f) => "missing "@ + field_name(f),
        FetchError::OutOfOrder => "response arrived out of order"@,
    }
}

impl MissingField {
    pub fn name(&self) -> (r: &'static str)
        ensures
            r@ == field_name(*self),
    {
        match self {
            MissingField::Block => "block",
            MissingField::ProtocolState => "protocol state",
            MissingField::ConsensusState => "consensus state",
            MissingField::StakingEpochData => "staking epoch data",
            MissingField::Ledger => "ledger",
            MissingField::Seed => "seed",
            MissingField::TotalCurrency => "total currency",
            MissingField::LedgerHash => "ledger hash",
        }
    }
}

impl FetchError {
    pub fn message(&self) -> (r: String)
        ensures
            r@ == error_message(*self),
    {
        match self {
            FetchError::ResponseContainsErrors => String::from_str("response contains errors"),
            FetchError::ResponseEmpty => String::from_str("response was empty"),
            FetchError::NotExactlyOneBestChain { .. } => String::from_str(
                "expected exactly one best chain",
            ),
            FetchError::Missing(f) => {
                let mut r = String::from_str("missing ");
                r.append(f.name());
                r
            },
            FetchError::OutOfOrder => String::from_str("response arrived out of order"),
        }
    }
}

} // verus!
