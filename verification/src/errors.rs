use vstd::prelude::*;

verus! {

/// Errors in the operator's input. These are fatal and are raised before any
/// network traffic: a bad mnemonic, destination address, network selector or
/// derivation path stops the run as a whole.
#[derive(Clone, Copy, Debug, PartialEq, Eq, Structural)]
pub enum InputError {
    InvalidMnemonic,
    InvalidAddress,
    InvalidNetwork,
    InvalidPath,
}

/// Errors scoped to a single candidate wallet. One wallet failing at any
/// stage never blocks the other wallets of the same run.
#[derive(Clone, Copy, Debug, PartialEq, Eq, Structural)]
pub enum PerWalletError {
    /// Descriptor compilation rejected the path/network combination.
    InvalidDescriptor,
    /// The chain scan for this wallet did not complete.
    SyncError,
    /// The fee snapshot lacks the resolved confirmation target.
    FeeUnavailable,
    /// No spendable value remains once the fee is paid.
    TxBuildError,
    /// The signer left the transaction unfinalized.
    SignError,
    /// The relay rejected the transaction.
    BroadcastError,
}

} // verus!
