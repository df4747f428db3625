use vstd::prelude::*;

verus! {

/// Every way an execution attempt can be rejected. Each rejection is terminal
/// for the attempt; nothing is retried internally and no partial state is kept.
#[derive(Clone, Copy, Debug, PartialEq, Eq, Structural)]
pub enum ErrorCode {
    /// The bridge is paused.
    Paused,
    /// The bridge is not paused.
    Unpaused,
    /// The token was already minted (its supply is 1).
    AlreadyMinted,
    /// The token was already burned.
    AlreadyBurned,
    /// The execution operation is first in its batch, so no signature
    /// verification can precede it.
    InstructionAtWrongIndex,
    /// The preceding batch operation could not be read, or the bundle is too
    /// short to hold its fixed-size header.
    InvalidEd25519Instruction,
    /// The first signer of the bundle is not the bridge's trusted key.
    InvalidGroupKey,
    /// The preceding operation belongs to a program other than the signature
    /// verification primitive.
    InvalidProgramId,
    /// The signed message does not equal the hash of the canonical payload.
    InvalidArgs,
    /// The payload's action id differs from the presented action record's id.
    InvalidActionId,
    /// A consumed-action marker for this action id already exists: the action
    /// was executed before.
    DuplicatedAction,
    /// The bundle's record count is zero.
    NoSignatures,
    /// A record's signer or message offsets resolve past the end of the bundle.
    OffsetOutOfBounds,
    /// The bundle is too short to hold all of its declared record descriptors.
    MalformedBundle,
    /// The bridge record exists already; it is created exactly once.
    AlreadyInitialized,
    /// An action record with this id exists already.
    DuplicateActionId,
    /// No bridge record exists yet.
    BridgeNotInitialized,
    /// No action record with the presented id exists.
    ActionNotFound,
    /// A variable-length payload field is too long for its 4-byte length prefix.
    PayloadTooLarge,
}

/// Rejections that concern the submitting user rather than the bridge state.
#[derive(Clone, Copy, Debug, PartialEq, Eq, Structural)]
pub enum MyError {
    /// The destination token account is not owned by the payload's owner key.
    InvalidUser,
}

/// Either kind of rejection, as an execution attempt reports it.
#[derive(Clone, Copy, Debug, PartialEq, Eq, Structural)]
pub enum BridgeError {
    Code(ErrorCode),
    User(MyError),
}

} // verus!
