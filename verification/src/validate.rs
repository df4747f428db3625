//! Authorization verification for one execution attempt.
//!
//! The caller submits, in one atomic batch, a signature-verification
//! operation directly followed by the action-execution operation. Given the
//! execution operation's position and the operation immediately before it,
//! [`validate_action`] checks that the predecessor belongs to the ed25519
//! signature-verification program, decodes its signature bundle, and accepts
//! exactly when the first record's signer is the bridge's trusted key and its
//! message is the SHA-256 hash of the canonical payload bytes.

use vstd::prelude::*;

use crate::bundle::decode_bundle;
use crate::bundle::decode_spec;
use crate::error::ErrorCode;
use crate::state::Bridge;

verus! {

/// A batch operation as the host ledger reports it: the owning program's
/// 32-byte identifier and the raw operation payload.
#[derive(Debug)]
pub struct BatchOperation {
    pub program_id: [u8; 32],
    pub data: Vec<u8>,
}

/// The SHA-256 digest of a byte sequence, named but not defined here: the
/// digest depends on the input bytes alone, and [`sha256`] computes it.
pub uninterp spec fn sha256_of(bytes: Seq<u8>) -> Seq<u8>;

/// The 32-byte identifier of the ed25519 signature-verification program
/// (the base58 form reads `Ed25519SigVerify111111111111111111111111111`).
pub open spec fn ed25519_program_id_spec() -> Seq<u8> {
    seq![
        0x03u8, 0x7d, 0x46, 0xd6, 0x7c, 0x93, 0xfb, 0xbe, 0x12, 0xf9, 0x42, 0x8f, 0x83, 0x8d,
        0x40, 0xff, 0x05, 0x70, 0x74, 0x49, 0x27, 0xf4, 0x8a, 0x64, 0xfc, 0xca, 0x70, 0x44,
        0x80, 0x00, 0x00, 0x00,
    ]
}

/// Relies on solana's `hash::hash`, the SHA-256 of the input bytes: a pure
/// function of the input alone.
#[verifier::external_body]
fn sha256(data: &[u8]) -> (r: [u8; 32])
    ensures
        r@ == sha256_of(data@),
{
    anchor_lang::solana_program::hash::hash(data).to_bytes()
}

/// Relies on solana's `ed25519_program::id`, the constant program id declared
/// as `Ed25519SigVerify111111111111111111111111111` in base58.
#[verifier::external_body]
fn ed25519_program_id() -> (r: [u8; 32])
    ensures
        r@ == ed25519_program_id_spec(),
{
    anchor_lang::solana_program::ed25519_program::id().to_bytes()
}

/// Byte-for-byte comparison of two byte slices.
pub(crate) fn bytes_eq(a: &[u8], b: &[u8]) -> (r: bool)
    ensures
        r == (a@ == b@),
{
    if a.len() != b.len() {
        return false;
    }
    let mut i: usize = 0;
    while i < a.len()
        invariant
            i <= a@.len(),
            a@.len() == b@.len(),
            forall|j: int| 0 <= j < i ==> a@[j] == b@[j],
        decreases a@.len() - i,
    {
        if a[i] != b[i] {
            return false;
        }
        i += 1;
    }
    proof {
        assert(a@ =~= b@);
    }
    true
}

/// The outcome of authorization verification, checked in this order: the
/// execution operation must not be first in the batch; its predecessor must
/// be readable and belong to the ed25519 verification program; the
/// predecessor's payload must decode as a signature bundle; the first
/// record's signer must equal the trusted key; and the first record's message
/// must equal the SHA-256 hash of the payload bytes.
pub open spec fn validate_spec(
    current_index: u16,
    predecessor: Option<BatchOperation>,
    group_key: Seq<u8>,
    data: Seq<u8>,
) -> Result<(), ErrorCode> {
    if current_index == 0 {
        Err(ErrorCode::InstructionAtWrongIndex)
    } else {
        match predecessor {
            None => Err(ErrorCode::InvalidEd25519Instruction),
            Some(op) => {
                if op.program_id@ != ed25519_program_id_spec() {
                    Err(ErrorCode::InvalidProgramId)
                } else {
                    match decode_spec(op.data@) {
                        Err(e) => Err(e),
                        Ok(records) => {
                            if records[0].0 != group_key {
                                Err(ErrorCode::InvalidGroupKey)
                            } else if records[0].1 != sha256_of(data) {
                                Err(ErrorCode::InvalidArgs)
                            } else {
                                Ok(())
                            }
                        },
                    }
                }
            },
        }
    }
}

/// Verifies that the co-submitted signature bundle authorizes the canonical
/// payload bytes `data`.
///
/// `current_index` is the execution operation's position in its atomic batch
/// and `predecessor` the batch member directly before it, `None` when that
/// member could not be read. The call is read-only: it returns `Ok` exactly
/// when [`validate_spec`] accepts, and the first rejection in checking order
/// otherwise. In particular an execution operation that is first in its batch
/// is rejected with `InstructionAtWrongIndex`, and a predecessor of any
/// program other than the signature-verification primitive with
/// `InvalidProgramId`.
pub fn validate_action(
    current_index: u16,
    predecessor: Option<BatchOperation>,
    bridge: &Bridge,
    data: Vec<u8>,
) -> (r: Result<(), ErrorCode>)
    ensures
        r == validate_spec(current_index, predecessor, bridge.group_key@, data@),
        current_index == 0 ==> r == Err::<(), ErrorCode>(ErrorCode::InstructionAtWrongIndex),
        r is Ok ==> current_index != 0 && predecessor is Some && {
            let op = predecessor->0;
            &&& op.program_id@ == ed25519_program_id_spec()
            &&& decode_spec(op.data@) is Ok
            &&& decode_spec(op.data@)->Ok_0[0].0 == bridge.group_key@
            &&& decode_spec(op.data@)->Ok_0[0].1 == sha256_of(data@)
        },
{
    if current_index == 0 {
        return Err(ErrorCode::InstructionAtWrongIndex);
    }
    let op = match predecessor {
        None => {
            return Err(ErrorCode::InvalidEd25519Instruction);
        },
        Some(op) => op,
    };
    let expected_program = ed25519_program_id();
    if !bytes_eq(op.program_id.as_slice(), expected_program.as_slice()) {
        return Err(ErrorCode::InvalidProgramId);
    }
    let records = match decode_bundle(op.data.as_slice()) {
        Err(e) => {
            return Err(e);
        },
        Ok(records) => records,
    };
    let first = &records[0];
    if !bytes_eq(first.signer.as_slice(), bridge.group_key.as_slice()) {
        return Err(ErrorCode::InvalidGroupKey);
    }
    let digest = sha256(data.as_slice());
    if !bytes_eq(first.message.as_slice(), digest.as_slice()) {
        return Err(ErrorCode::InvalidArgs);
    }
    Ok(())
}

/// The message the off-chain authority must sign for a payload: the SHA-256
/// hash of the payload's canonical byte form. Returns `None` exactly when
/// the payload has no canonical form (a string field too long for its
/// length prefix).
pub fn payload_hash(data: &crate::codec::CreateNftData) -> (r: Option<[u8; 32]>)
    ensures
        match r {
            Some(h) => crate::codec::payload_encodable(*data) && h@ == sha256_of(
                crate::codec::spec_canonical_bytes(*data),
            ),
            None => !crate::codec::payload_encodable(*data),
        },
{
    match data.canonical_bytes() {
        None => None,
        Some(bytes) => Some(sha256(bytes.as_slice())),
    }
}

/// Law: an execution operation that is first in its batch is rejected as
/// wrongly placed, whatever else is supplied: no predecessor can authorize it.
pub proof fn lemma_first_in_batch_rejected(
    predecessor: Option<BatchOperation>,
    group_key: Seq<u8>,
    data: Seq<u8>,
)
    ensures
        validate_spec(0, predecessor, group_key, data) == Err::<(), ErrorCode>(
            ErrorCode::InstructionAtWrongIndex,
        ),
{
}

/// Law: a predecessor operation of any program other than the
/// signature-verification primitive is rejected as the wrong verifier,
/// whatever its payload holds.
pub proof fn lemma_wrong_verifier_rejected(
    current_index: u16,
    op: BatchOperation,
    group_key: Seq<u8>,
    data: Seq<u8>,
)
    requires
        current_index != 0,
        op.program_id@ != ed25519_program_id_spec(),
    ensures
        validate_spec(current_index, Some(op), group_key, data) == Err::<(), ErrorCode>(
            ErrorCode::InvalidProgramId,
        ),
{
}

} // verus!
