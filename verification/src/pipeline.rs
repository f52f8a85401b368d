use vstd::prelude::*;

verus! {

/// The stage one candidate wallet has reached in a run. Every wallet starts
/// at `Created`; `SyncFailed`, `Empty`, `BuildFailed`, `Broadcast` and
/// `BroadcastFailed` are terminal.
#[derive(Clone, Copy, Debug, PartialEq, Eq, Structural)]
pub enum WalletStage {
    Created,
    Synced { confirmed: u64, unconfirmed: u64 },
    SyncFailed,
    Funded { confirmed: u64 },
    Empty,
    Signed { output_value: u64, fee: u64 },
    BuildFailed,
    Broadcast,
    BroadcastFailed,
}

/// What happened to one wallet at its current stage.
#[derive(Clone, Copy, Debug, PartialEq, Eq, Structural)]
pub enum WalletEvent {
    SyncCompleted { confirmed: u64, unconfirmed: u64 },
    SyncFailed,
    BalanceChecked,
    Signed { output_value: u64, fee: u64 },
    BuildFailed,
    Broadcasted,
    BroadcastFailed,
}

/// The per-wallet stage machine: sync settles the balances, the balance
/// check splits funded from empty, build-and-sign yields a signed drain or
/// fails, broadcast concludes. An event that does not belong to the current
/// stage changes nothing; in particular a terminal stage absorbs everything.
pub open spec fn next_stage(s: WalletStage, e: WalletEvent) -> WalletStage {
    match (s, e) {
        (WalletStage::Created, WalletEvent::SyncCompleted { confirmed, unconfirmed }) =>
            WalletStage::Synced { confirmed, unconfirmed },
        (WalletStage::Created, WalletEvent::SyncFailed) => WalletStage::SyncFailed,
        (WalletStage::Synced { confirmed, .. }, WalletEvent::BalanceChecked) => if confirmed > 0 {
            WalletStage::Funded { confirmed }
        } else {
            WalletStage::Empty
        },
        (WalletStage::Funded { .. }, WalletEvent::Signed { output_value, fee }) =>
            WalletStage::Signed { output_value, fee },
        (WalletStage::Funded { .. }, WalletEvent::BuildFailed) => WalletStage::BuildFailed,
        (WalletStage::Signed { .. }, WalletEvent::Broadcasted) => WalletStage::Broadcast,
        (WalletStage::Signed { .. }, WalletEvent::BroadcastFailed) => WalletStage::BroadcastFailed,
        _ => s,
    }
}

/// Stages that no event leaves.
pub open spec fn is_terminal(s: WalletStage) -> bool {
    match s {
        WalletStage::SyncFailed => true,
        WalletStage::Empty => true,
        WalletStage::BuildFailed => true,
        WalletStage::Broadcast => true,
        WalletStage::BroadcastFailed => true,
        _ => false,
    }
}

/// How far along the pipeline a stage lies; terminal stages lie at the end.
pub open spec fn stage_rank(s: WalletStage) -> int {
    match s {
        WalletStage::Created => 0,
        WalletStage::Synced { .. } => 1,
        WalletStage::Funded { .. } => 2,
        WalletStage::Signed { .. } => 3,
        WalletStage::SyncFailed => 4,
        WalletStage::Empty => 4,
        WalletStage::BuildFailed => 4,
        WalletStage::Broadcast => 4,
        WalletStage::BroadcastFailed => 4,
    }
}

/// Advances one wallet's stage by one event.
pub fn advance(s: WalletStage, e: WalletEvent) -> (r: WalletStage)
    ensures
        r == next_stage(s, e),
{
    match (s, e) {
        (WalletStage::Created, WalletEvent::SyncCompleted { confirmed, unconfirmed }) =>
            WalletStage::Synced { confirmed, unconfirmed },
        (WalletStage::Created, WalletEvent::SyncFailed) => WalletStage::SyncFailed,
        (WalletStage::Synced { confirmed, .. }, WalletEvent::BalanceChecked) => if confirmed > 0 {
            WalletStage::Funded { confirmed }
        } else {
            WalletStage::Empty
        },
        (WalletStage::Funded { .. }, WalletEvent::Signed { output_value, fee }) =>
            WalletStage::Signed { output_value, fee },
        (WalletStage::Funded { .. }, WalletEvent::BuildFailed) => WalletStage::BuildFailed,
        (WalletStage::Signed { .. }, WalletEvent::Broadcasted) => WalletStage::Broadcast,
        (WalletStage::Signed { .. }, WalletEvent::BroadcastFailed) => WalletStage::BroadcastFailed,
        (other, _) => other,
    }
}

/// A terminal stage absorbs every event.
pub proof fn lemma_terminal_absorbs(s: WalletStage, e: WalletEvent)
    requires
        is_terminal(s),
    ensures
        next_stage(s, e) == s,
{
}

/// No event moves a wallet backward through the pipeline.
pub proof fn lemma_no_backward_transition(s: WalletStage, e: WalletEvent)
    ensures
        stage_rank(next_stage(s, e)) >= stage_rank(s),
{
}

/// Every run starts each candidate at `Created`.
pub fn initial_stages(count: usize) -> (r: Vec<WalletStage>)
    ensures
        r@.len() == count,
        forall|i: int| 0 <= i < r@.len() ==> r@[i] is Created,
{
    let mut r: Vec<WalletStage> = Vec::new();
    for k in 0..count
        invariant
            r@.len() == k,
            forall|i: int| 0 <= i < r@.len() ==> r@[i] is Created,
    {
        r.push(WalletStage::Created);
    }
    r
}

/// The stage-machine event a wallet-scoped failure amounts to, keyed by
/// where in the pipeline the error arises: scan errors fail the sync stage,
/// fee, build, descriptor and signing errors fail the build stage, and
/// relay rejections fail the broadcast stage.
pub open spec fn failure_event_spec(e: crate::errors::PerWalletError) -> WalletEvent {
    match e {
        crate::errors::PerWalletError::SyncError => WalletEvent::SyncFailed,
        crate::errors::PerWalletError::BroadcastError => WalletEvent::BroadcastFailed,
        _ => WalletEvent::BuildFailed,
    }
}

/// Maps a wallet-scoped error to the event it feeds the wallet's stage
/// machine. The error stays with its wallet: nothing here aborts a run.
pub fn failure_event(e: crate::errors::PerWalletError) -> (r: WalletEvent)
    ensures
        r == failure_event_spec(e),
{
    match e {
        crate::errors::PerWalletError::SyncError => WalletEvent::SyncFailed,
        crate::errors::PerWalletError::BroadcastError => WalletEvent::BroadcastFailed,
        _ => WalletEvent::BuildFailed,
    }
}

/// A wallet's part of the run completed without failure: it was swept, or
/// it legitimately held nothing. An unfunded wallet is no error.
pub open spec fn completed_ok(s: WalletStage) -> bool {
    s is Broadcast || s is Empty
}

/// Whether a finished run counts as successful: failure exactly when at
/// least one expected sweep did not complete. Per-wallet failures are
/// collected, never short-circuited.
#[verifier::loop_isolation(false)]
pub fn run_succeeded(stages: &Vec<WalletStage>) -> (b: bool)
    ensures
        b <==> forall|i: int| 0 <= i < stages@.len() ==> completed_ok(#[trigger] stages@[i]),
{
    let n = stages.len();
    let mut ok = true;
    for i in 0..n
        invariant
            ok <==> forall|k: int| 0 <= k < i ==> completed_ok(#[trigger] stages@[k]),
    {
        let done = match stages[i] {
            WalletStage::Broadcast => true,
            WalletStage::Empty => true,
            _ => false,
        };
        ok = ok && done;
    }
    ok
}

} // verus!
