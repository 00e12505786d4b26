use staking_ledger::{
    decode_response, explorer_epoch_data, extract_delegators, ledger_url, select_source,
    BestChainBlock, EpochData, EpochSource, ExplorerBlock, ExplorerConsensusState, ExplorerLedger,
    ExplorerProtocolState, ExplorerResponse, ExplorerStakingEpochData, FetchError, Fetcher,
    LedgerAccount, LedgerAccountJson, MissingField, Phase, StakingSnapshot, Step,
    LEDGER_ARCHIVE_PREFIX,
};

fn s(t: &str) -> String {
    t.to_string()
}

fn epoch_data(seed: &str, total: &str, hash: &str) -> EpochData {
    EpochData { seed: s(seed), total_currency: s(total), ledger_hash: s(hash) }
}

fn block(epoch: &str, d: EpochData) -> BestChainBlock {
    BestChainBlock { epoch: s(epoch), staking_epoch_data: d }
}

fn account(pk: &str, balance: &str, delegate: &str) -> LedgerAccountJson {
    LedgerAccountJson { pk: s(pk), balance: s(balance), delegate: s(delegate) }
}

fn full_explorer(seed: &str, total: &str, hash: &str) -> ExplorerResponse {
    ExplorerResponse {
        blocks: vec![Some(ExplorerBlock {
            protocol_state: Some(ExplorerProtocolState {
                consensus_state: Some(ExplorerConsensusState {
                    staking_epoch_data: Some(ExplorerStakingEpochData {
                        seed: Some(s(seed)),
                        ledger: Some(ExplorerLedger {
                            hash: Some(s(hash)),
                            total_currency: Some(s(total)),
                        }),
                    }),
                }),
            }),
        })],
    }
}

fn staking_epoch_data_of(resp: &mut ExplorerResponse) -> &mut ExplorerStakingEpochData {
    resp.blocks[0]
        .as_mut()
        .unwrap()
        .protocol_state
        .as_mut()
        .unwrap()
        .consensus_state
        .as_mut()
        .unwrap()
        .staking_epoch_data
        .as_mut()
        .unwrap()
}

#[test]
fn fetch_at_current_epoch_returns_primary_data_and_delegators() {
    let mut f = Fetcher::new(5);
    let step = f.on_primary(Some(vec![block("5", epoch_data("S1", "1000", "H1"))]));
    let url = format!("{}H1.json", LEDGER_ARCHIVE_PREFIX);
    assert_eq!(step, Step::Download { url });
    let ledger = vec![account("A", "10", "A"), account("B", "20", "A")];
    let step = f.on_ledger(ledger);
    let expected = StakingSnapshot {
        seed: s("S1"),
        total_currency: s("1000"),
        ledger_hash: s("H1"),
        delegators: vec![
            LedgerAccount { pk: s("A"), balance: s("10"), delegate: s("A"), index: 0 },
            LedgerAccount { pk: s("B"), balance: s("20"), delegate: s("A"), index: 1 },
        ],
    };
    assert_eq!(step, Step::Done(expected));
    assert_eq!(f.phase, Phase::Finished);
}

#[test]
fn fetch_at_other_epoch_asks_explorer_for_that_epoch() {
    let mut f = Fetcher::new(7);
    let step = f.on_primary(Some(vec![block("8", epoch_data("S1", "1000", "H1"))]));
    assert_eq!(step, Step::QueryExplorer { epoch: 7 });
    assert_eq!(f.phase, Phase::AwaitExplorer);
    let step = f.on_explorer(full_explorer("S7", "700", "H7"));
    assert_eq!(step, Step::Download { url: format!("{}H7.json", LEDGER_ARCHIVE_PREFIX) });
    assert_eq!(f.phase, Phase::AwaitLedger(epoch_data("S7", "700", "H7")));
    let step = f.on_ledger(vec![]);
    let expected = StakingSnapshot {
        seed: s("S7"),
        total_currency: s("700"),
        ledger_hash: s("H7"),
        delegators: vec![],
    };
    assert_eq!(step, Step::Done(expected));
}

#[test]
fn best_chain_absent_fails() {
    let mut f = Fetcher::new(5);
    let step = f.on_primary(None);
    assert_eq!(step, Step::Fail(FetchError::NotExactlyOneBestChain { count: 0 }));
    assert_eq!(f.phase, Phase::Finished);
}

#[test]
fn best_chain_empty_fails() {
    let mut f = Fetcher::new(5);
    let step = f.on_primary(Some(vec![]));
    assert_eq!(step, Step::Fail(FetchError::NotExactlyOneBestChain { count: 0 }));
    assert_eq!(f.phase, Phase::Finished);
}

#[test]
fn two_best_chain_blocks_fail() {
    let mut f = Fetcher::new(5);
    let b = block("5", epoch_data("S1", "1000", "H1"));
    let step = f.on_primary(Some(vec![b.clone(), b]));
    assert_eq!(step, Step::Fail(FetchError::NotExactlyOneBestChain { count: 2 }));
    assert_eq!(f.phase, Phase::Finished);
    assert_eq!(f.on_ledger(vec![]), Step::Fail(FetchError::OutOfOrder));
}

#[test]
fn epoch_compares_as_decimal_text() {
    let d = epoch_data("S", "1", "H");
    let one = |e: &str| Some(vec![block(e, d.clone())]);
    assert_eq!(select_source(&one("12"), 12), Ok(EpochSource::Current(d.clone())));
    assert_eq!(select_source(&one("012"), 12), Ok(EpochSource::Historical { epoch: 12 }));
    assert_eq!(select_source(&one("-3"), -3), Ok(EpochSource::Current(d.clone())));
    assert_eq!(select_source(&one("0"), 0), Ok(EpochSource::Current(d.clone())));
    assert_eq!(select_source(&one("13"), 12), Ok(EpochSource::Historical { epoch: 12 }));
}

#[test]
fn explorer_missing_seed_is_named() {
    let mut resp = full_explorer("S", "1", "H");
    staking_epoch_data_of(&mut resp).seed = None;
    let mut f = Fetcher::new(3);
    f.phase = Phase::AwaitExplorer;
    let step = f.on_explorer(resp);
    assert_eq!(step, Step::Fail(FetchError::Missing(MissingField::Seed)));
    assert_eq!(f.phase, Phase::Finished);
    assert_eq!(FetchError::Missing(MissingField::Seed).message(), "missing seed");
}

#[test]
fn explorer_missing_fields_are_named_in_check_order() {
    let missing = |resp: ExplorerResponse| explorer_epoch_data(&resp).unwrap_err();
    let fail = |f: MissingField| FetchError::Missing(f);

    assert_eq!(missing(ExplorerResponse { blocks: vec![] }), fail(MissingField::Block));
    assert_eq!(missing(ExplorerResponse { blocks: vec![None] }), fail(MissingField::Block));
    let no_ps = ExplorerResponse { blocks: vec![Some(ExplorerBlock { protocol_state: None })] };
    assert_eq!(missing(no_ps), fail(MissingField::ProtocolState));
    let no_cs = ExplorerResponse {
        blocks: vec![Some(ExplorerBlock {
            protocol_state: Some(ExplorerProtocolState { consensus_state: None }),
        })],
    };
    assert_eq!(missing(no_cs), fail(MissingField::ConsensusState));
    let no_sed = ExplorerResponse {
        blocks: vec![Some(ExplorerBlock {
            protocol_state: Some(ExplorerProtocolState {
                consensus_state: Some(ExplorerConsensusState { staking_epoch_data: None }),
            }),
        })],
    };
    assert_eq!(missing(no_sed), fail(MissingField::StakingEpochData));

    let mut r = full_explorer("S", "1", "H");
    staking_epoch_data_of(&mut r).ledger = None;
    assert_eq!(missing(r), fail(MissingField::Ledger));

    let mut r = full_explorer("S", "1", "H");
    staking_epoch_data_of(&mut r).ledger.as_mut().unwrap().total_currency = None;
    assert_eq!(missing(r), fail(MissingField::TotalCurrency));

    let mut r = full_explorer("S", "1", "H");
    staking_epoch_data_of(&mut r).ledger.as_mut().unwrap().hash = None;
    assert_eq!(missing(r), fail(MissingField::LedgerHash));

    let mut r = full_explorer("S", "1", "H");
    staking_epoch_data_of(&mut r).ledger = None;
    staking_epoch_data_of(&mut r).seed = None;
    assert_eq!(missing(r), fail(MissingField::Ledger));
}

#[test]
fn explorer_full_record_gives_its_data() {
    let d = explorer_epoch_data(&full_explorer("S9", "99", "H9"));
    assert_eq!(d, Ok(epoch_data("S9", "99", "H9")));
}

#[test]
fn delegators_keep_order_and_get_positions() {
    let ledger = vec![account("X", "1", "Y"), account("Y", "2", "Y"), account("Z", "3", "X")];
    let ds = extract_delegators(&ledger);
    assert_eq!(ds.len(), 3);
    for (i, (d, a)) in ds.iter().zip(ledger.iter()).enumerate() {
        assert_eq!(d.index, i as i64);
        assert_eq!(d.pk, a.pk);
        assert_eq!(d.balance, a.balance);
        assert_eq!(d.delegate, a.delegate);
    }
    assert!(extract_delegators(&[]).is_empty());
}

#[test]
fn ledger_url_appends_hash_and_extension() {
    assert_eq!(
        ledger_url("jxABC"),
        "https://raw.githubusercontent.com/zkvalidator/mina-vrf-rs/main/data/epochs/jxABC.json"
    );
}

#[test]
fn response_errors_win_over_data() {
    let errs = Some(vec![s("boom")]);
    assert_eq!(decode_response(Some(1u8), &errs), Err(FetchError::ResponseContainsErrors));
    assert_eq!(decode_response::<u8>(None, &errs), Err(FetchError::ResponseContainsErrors));
}

#[test]
fn response_without_data_is_empty() {
    assert_eq!(decode_response::<u8>(None, &None), Err(FetchError::ResponseEmpty));
    assert_eq!(decode_response::<u8>(None, &Some(vec![])), Err(FetchError::ResponseEmpty));
}

#[test]
fn response_data_is_returned() {
    assert_eq!(decode_response(Some(7u8), &None), Ok(7));
    assert_eq!(decode_response(Some(7u8), &Some(vec![])), Ok(7));
}

#[test]
fn out_of_order_answers_fail() {
    let mut f = Fetcher::new(1);
    assert_eq!(f.on_explorer(full_explorer("S", "1", "H")), Step::Fail(FetchError::OutOfOrder));
    let mut f = Fetcher::new(1);
    assert_eq!(f.on_ledger(vec![]), Step::Fail(FetchError::OutOfOrder));
    assert_eq!(f.on_primary(None), Step::Fail(FetchError::OutOfOrder));
}

#[test]
fn error_messages() {
    assert_eq!(FetchError::ResponseContainsErrors.message(), "response contains errors");
    assert_eq!(FetchError::ResponseEmpty.message(), "response was empty");
    assert_eq!(
        FetchError::NotExactlyOneBestChain { count: 3 }.message(),
        "expected exactly one best chain"
    );
    assert_eq!(FetchError::Missing(MissingField::LedgerHash).message(), "missing ledger hash");
    assert_eq!(
        FetchError::Missing(MissingField::StakingEpochData).message(),
        "missing staking epoch data"
    );
    assert_eq!(FetchError::OutOfOrder.message(), "response arrived out of order");
}
