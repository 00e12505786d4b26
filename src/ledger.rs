use vstd::prelude::*;

verus! {

/// One account of a downloaded ledger snapshot.
#[derive(Clone, Debug, PartialEq, Eq)]
pub struct LedgerAccountJson {
    pub pk: String,
    pub balance: String,
    pub delegate: String,
}

/// A delegator: a ledger account together with its position in the ledger.
#[derive(Clone, Debug, PartialEq, Eq)]
pub struct LedgerAccount {
    pub pk: String,
    pub balance: String,
    pub delegate: String,
    pub index: i64,
}

/// `d` is the account `a` placed at position `i` of the ledger.
pub open spec fn is_delegator_at(d: LedgerAccount, a: LedgerAccountJson, i: int) -> bool {
    &&& d.pk == a.pk
    &&& d.balance == a.balance
    &&& d.delegate == a.delegate
    &&& d.index as int == i
}

/// The delegators of `ledger`, in ledger order, each carrying its position.
pub fn extract_delegators(ledger: &[LedgerAccountJson]) -> (r: Vec<LedgerAccount>)
    requires
        ledger@.len() <= i64::MAX,
    ensures
        r@.len() == ledger@.len(),
        forall|i: int| 0 <= i < r@.len() ==> #[trigger] is_delegator_at(r@[i], ledger@[i], i),
{
    let mut r: Vec<LedgerAccount> = Vec::new();
    let mut i: usize = 0;
    while i < ledger.len()
        invariant
            i <= ledger@.len() <= i64::MAX,
            r@.len() == i,
            forall|k: int| 0 <= k < i ==> #[trigger] is_delegator_at(r@[k], ledger@[k], k),
        decreases ledger@.len() - i,
    {
        let a = &ledger[i];
        r.push(LedgerAccount {
            pk: a.pk.clone(),
            balance: a.balance.clone(),
            delegate: a.delegate.clone(),
            index: i as i64,
        });
        i = i + 1;
    }
    r
}

} // verus!
