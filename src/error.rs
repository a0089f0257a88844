use vstd::prelude::*;

verus! {

/// Why a bridge operation was refused. Every refusal leaves all state as it was.
#[derive(Clone, Copy, Debug, PartialEq, Eq, Structural)]
pub enum BridgeError {
    /// The message's emitter is not the registered endpoint of its chain.
    UntrustedEmitter,
    /// The message is addressed to another chain.
    WrongDestinationChain,
    /// The message names another recipient than the one presented.
    RecipientMismatch,
    /// The recipient's token account is owned by someone else.
    OwnerMismatch,
    /// The presented asset accounts do not describe the message's asset.
    AssetMismatch,
    /// The configuration or a privileged account is missing or is not the
    /// one derived for its role.
    DerivationMismatch,
    /// The message has already been consumed.
    AlreadyClaimed,
    /// The fee is larger than the amount it is taken from.
    FeeExceedsAmount,
    /// An amount does not fit the local integer width.
    ArithmeticOverflow,
    /// The account to be created already holds state.
    AlreadyInitialized,
}

} // verus!
