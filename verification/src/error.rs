//! The reasons for which the authority refuses an operation.

use vstd::prelude::*;

verus! {

/// Why an operation was refused. A refused operation leaves the state of
/// the authority exactly as it found it.
#[derive(Clone, Copy, Debug, PartialEq, Eq, Structural)]
pub enum TapMintError {
    /// `initialize` was called on an authority that is already set up.
    AlreadyInitialized,
    /// An operation other than `initialize` reached an authority that has
    /// not been set up yet.
    NotInitialized,
    /// The caller has not proved that it controls the principal it acts for.
    Unauthorized,
    /// The principal redeemed a key less than one cooldown ago.
    CooldownActive,
    /// The presented key is not the one registered for the principal.
    InvalidMintKey,
    /// The token contract did not confirm what it was asked: it could not be
    /// asked, its invocation failed, or its answer could not be read. In the
    /// last case it has run to its end, so whoever gets this refusal has to
    /// abort its own invocation for the host to undo what was done.
    TransferFailure,
}

impl TapMintError {
    /// The sentence that goes with each refusal.
    pub open spec fn spec_message(self) -> Seq<char> {
        match self {
            TapMintError::AlreadyInitialized => "Contract has already been initialized"@,
            TapMintError::NotInitialized => "Contract is not yet initialized"@,
            TapMintError::Unauthorized => "Caller is not authorized to act for player"@,
            TapMintError::CooldownActive => "Mint cooldown not over for player"@,
            TapMintError::InvalidMintKey => "Invalid mint key"@,
            TapMintError::TransferFailure => "Token transfer failed"@,
        }
    }

    /// A human-readable sentence for this refusal, for callers that abort
    /// with a message.
    pub fn message(&self) -> (text: &'static str)
        ensures
            text@ == self.spec_message(),
    {
        match self {
            TapMintError::AlreadyInitialized => "Contract has already been initialized",
            TapMintError::NotInitialized => "Contract is not yet initialized",
            TapMintError::Unauthorized => "Caller is not authorized to act for player",
            TapMintError::CooldownActive => "Mint cooldown not over for player",
            TapMintError::InvalidMintKey => "Invalid mint key",
            TapMintError::TransferFailure => "Token transfer failed",
        }
    }
}

} // verus!
