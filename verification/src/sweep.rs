use vstd::prelude::*;
use crate::address::Address;
use crate::errors::PerWalletError;
use crate::sync::SyncResult;

verus! {

/// A planned drain transaction: every spendable input of one wallet into
/// exactly one output paying the destination — no change output — with
/// replace-by-fee signaled. `finalized` is set once the signer reports a
/// complete signature. Nothing is spent until broadcast.
#[derive(Clone, Debug)]
pub struct SweepTransaction {
    pub template_index: usize,
    pub destination: Address,
    pub output_value: u64,
    pub fee: u64,
    pub rbf: bool,
    pub finalized: bool,
}

/// Plans the drain of a funded wallet at the resolved fee. The one output
/// pays the wallet's full confirmed balance minus the fee
/// `fee_rate × vsize`; where nothing would remain — the fee at or above the
/// balance — `TxBuildError` is raised instead of an invalid output. An
/// unfunded wallet always lands there; the balance filter makes that
/// defensive only.
pub fn build_sweep(wallet: &SyncResult, destination: Address, fee_rate: u64, vsize: u64) -> (r:
    Result<SweepTransaction, PerWalletError>)
    ensures
        r is Ok <==> fee_rate * vsize < wallet.confirmed,
        r matches Ok(t) ==> {
            &&& t.template_index == wallet.template_index
            &&& t.destination == destination
            &&& t.output_value == wallet.confirmed - fee_rate * vsize
            &&& t.fee == fee_rate * vsize
            &&& t.rbf
            &&& !t.finalized
        },
        r matches Err(e) ==> e == PerWalletError::TxBuildError,
{
    let fee = match fee_rate.checked_mul(vsize) {
        Some(f) => f,
        None => {
            return Err(PerWalletError::TxBuildError);
        },
    };
    if fee < wallet.confirmed {
        Ok(
            SweepTransaction {
                template_index: wallet.template_index,
                destination,
                output_value: wallet.confirmed - fee,
                fee,
                rbf: true,
                finalized: false,
            },
        )
    } else {
        Err(PerWalletError::TxBuildError)
    }
}

/// Applies the signer's verdict to a planned sweep: a complete signature
/// finalizes the transaction unchanged; an incomplete one is a `SignError`.
pub fn apply_sign_outcome(tx: SweepTransaction, finalized: bool) -> (r: Result<
    SweepTransaction,
    PerWalletError,
>)
    ensures
        r is Ok <==> finalized,
        r matches Ok(t) ==> {
            &&& t.template_index == tx.template_index
            &&& t.destination == tx.destination
            &&& t.output_value == tx.output_value
            &&& t.fee == tx.fee
            &&& t.rbf == tx.rbf
            &&& t.finalized
        },
        r matches Err(e) ==> e == PerWalletError::SignError,
{
    if finalized {
        Ok(SweepTransaction { finalized: true, ..tx })
    } else {
        Err(PerWalletError::SignError)
    }
}

} // verus!
