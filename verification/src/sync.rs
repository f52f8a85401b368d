use vstd::prelude::*;
use crate::wallet::CandidateWallet;

verus! {

/// What the chain-data collaborator reports for one wallet's scan: the
/// balances it settled on, or that the scan did not complete.
#[derive(Clone, Copy, Debug, PartialEq, Eq, Structural)]
pub enum SyncOutcome {
    Synced { confirmed: u64, unconfirmed: u64 },
    Failed,
}

/// One wallet's sync result. The balances are trusted only where `ok`
/// holds: a failed scan contributes nothing.
#[derive(Clone, Copy, Debug, PartialEq, Eq, Structural)]
pub struct SyncResult {
    pub template_index: usize,
    pub confirmed: u64,
    pub unconfirmed: u64,
    pub ok: bool,
}

/// The sync result a wallet and its scan outcome combine to.
pub open spec fn sync_result_spec(template_index: usize, outcome: SyncOutcome) -> SyncResult {
    match outcome {
        SyncOutcome::Synced { confirmed, unconfirmed } => SyncResult {
            template_index,
            confirmed,
            unconfirmed,
            ok: true,
        },
        SyncOutcome::Failed => SyncResult { template_index, confirmed: 0, unconfirmed: 0, ok: false },
    }
}

/// Combines the per-wallet scan outcomes into results, one per wallet, in
/// input order whatever order the scans completed in. Each wallet's outcome
/// touches only its own result: one failure never disturbs the others.
#[verifier::loop_isolation(false)]
pub fn collect_sync_results(wallets: &Vec<CandidateWallet>, outcomes: &Vec<SyncOutcome>) -> (r: Vec<
    SyncResult,
>)
    requires
        wallets@.len() == outcomes@.len(),
    ensures
        r@.len() == wallets@.len(),
        forall|i: int|
            0 <= i < r@.len() ==> #[trigger] r@[i] == sync_result_spec(
                wallets@[i].template_index,
                outcomes@[i],
            ),
{
    let n = wallets.len();
    let mut r: Vec<SyncResult> = Vec::new();
    for i in 0..n
        invariant
            r@.len() == i,
            forall|k: int|
                0 <= k < i ==> #[trigger] r@[k] == sync_result_spec(
                    wallets@[k].template_index,
                    outcomes@[k],
                ),
    {
        let template_index = wallets[i].template_index;
        let result = match outcomes[i] {
            SyncOutcome::Synced { confirmed, unconfirmed } => SyncResult {
                template_index,
                confirmed,
                unconfirmed,
                ok: true,
            },
            SyncOutcome::Failed => SyncResult {
                template_index,
                confirmed: 0,
                unconfirmed: 0,
                ok: false,
            },
        };
        r.push(result);
    }
    r
}

/// Whether a sync result shows confirmed funds: only a completed scan with
/// a confirmed balance strictly above zero counts.
pub open spec fn is_funded(r: SyncResult) -> bool {
    r.ok && r.confirmed > 0
}

/// Whether a wallet holds anything worth sweeping. Unconfirmed-only value
/// is deliberately excluded, against double-spend races.
pub fn check_balance(result: &SyncResult) -> (b: bool)
    ensures
        b == is_funded(*result),
{
    result.ok && result.confirmed > 0
}

/// Keeps exactly the funded wallets, in input order.
#[verifier::loop_isolation(false)]
pub fn filter_funded(results: &Vec<SyncResult>) -> (r: Vec<SyncResult>)
    ensures
        r@ == results@.filter(|x: SyncResult| is_funded(x)),
{
    broadcast use vstd::prelude::Seq::lemma_filter_push;

    let n = results.len();
    let mut r: Vec<SyncResult> = Vec::new();
    for i in 0..n
        invariant
            r@ == results@.take(i as int).filter(|x: SyncResult| is_funded(x)),
    {
        proof {
            assert(results@.take(i + 1) =~= results@.take(i as int).push(results@[i as int]));
        }
        if check_balance(&results[i]) {
            r.push(results[i]);
        }
    }
    proof {
        assert(results@.take(n as int) =~= results@);
    }
    r
}

/// Each element a filter keeps occurs in the input.
proof fn lemma_filter_member_from<A>(s: Seq<A>, pred: spec_fn(A) -> bool, i: int)
    requires
        0 <= i < s.filter(pred).len(),
    ensures
        s.contains(s.filter(pred)[i]),
    decreases s.len(),
{
    reveal(Seq::filter);
    if s.len() > 0 {
        let shorter = s.drop_last().filter(pred);
        if i < shorter.len() {
            lemma_filter_member_from(s.drop_last(), pred, i);
            let j = choose|j: int| 0 <= j < s.drop_last().len() && s.drop_last()[j] == shorter[i];
            assert(s[j] == s.filter(pred)[i]);
        } else {
            assert(s.filter(pred)[i] == s.last());
        }
    }
}

/// The funded set is what it claims to be: every wallet the filter keeps
/// came from the input and shows confirmed funds, and every funded input
/// wallet is kept.
pub proof fn lemma_filter_funded_sound(results: Seq<SyncResult>, kept: Seq<SyncResult>)
    requires
        kept == results.filter(|x: SyncResult| is_funded(x)),
    ensures
        forall|i: int|
            0 <= i < kept.len() ==> is_funded(#[trigger] kept[i]) && results.contains(kept[i]),
        forall|i: int|
            0 <= i < results.len() && is_funded(#[trigger] results[i]) ==> kept.contains(
                results[i],
            ),
{
    broadcast use vstd::seq_lib::group_filter_ensures;

    assert forall|i: int| 0 <= i < kept.len() implies is_funded(#[trigger] kept[i])
        && results.contains(kept[i]) by {
        lemma_filter_member_from(results, |x: SyncResult| is_funded(x), i);
    }
}

} // verus!
