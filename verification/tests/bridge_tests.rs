use metadata_demo::codec::CreateNftData;
use metadata_demo::error::{BridgeError, ErrorCode, MyError};
use metadata_demo::ledger::{create_action, initialize, proxy_mint_to, BridgeLedger};
use metadata_demo::state::Bridge;
use metadata_demo::validate::{payload_hash, validate_action, BatchOperation};

/// The id of the ed25519 signature-verification program
/// (`Ed25519SigVerify111111111111111111111111111` in base58).
const ED25519_PROGRAM_ID: [u8; 32] = [
    0x03, 0x7d, 0x46, 0xd6, 0x7c, 0x93, 0xfb, 0xbe, 0x12, 0xf9, 0x42, 0x8f, 0x83, 0x8d, 0x40,
    0xff, 0x05, 0x70, 0x74, 0x49, 0x27, 0xf4, 0x8a, 0x64, 0xfc, 0xca, 0x70, 0x44, 0x80, 0x00,
    0x00, 0x00,
];

const GROUP_KEY: [u8; 32] = [42u8; 32];
const OWNER: [u8; 32] = [9u8; 32];

fn payload(action_id: u64) -> CreateNftData {
    CreateNftData {
        action_id,
        token_name: String::from("Token"),
        token_symbol: String::from("TKN"),
        token_uri: String::from("https://example.com/7.json"),
        owner: OWNER,
    }
}

/// A single-record bundle carrying the given signer and message.
fn make_bundle(signer: &[u8; 32], message: &[u8]) -> Vec<u8> {
    let mut b = vec![1u8, 0, 0, 0, 0, 0];
    b.extend_from_slice(&14u16.to_le_bytes());
    b.extend_from_slice(&[0, 0]);
    b.extend_from_slice(&46u16.to_le_bytes());
    b.extend_from_slice(&(message.len() as u16).to_le_bytes());
    b.extend_from_slice(signer);
    b.extend_from_slice(message);
    b
}

/// The signature-verification operation that authorizes `data`, signed with
/// `signer`.
fn authorization_for(signer: &[u8; 32], data: &CreateNftData) -> BatchOperation {
    let digest = payload_hash(data).unwrap();
    BatchOperation { program_id: ED25519_PROGRAM_ID, data: make_bundle(signer, &digest) }
}

fn bridge() -> Bridge {
    Bridge { action_cnt: 0, group_key: GROUP_KEY }
}

#[test]
fn validate_rejects_first_in_batch() {
    let data = payload(7).canonical_bytes().unwrap();
    let op = authorization_for(&GROUP_KEY, &payload(7));
    let r = validate_action(0, Some(op), &bridge(), data);
    assert!(matches!(r, Err(ErrorCode::InstructionAtWrongIndex)));
}

#[test]
fn validate_rejects_missing_predecessor() {
    let data = payload(7).canonical_bytes().unwrap();
    let r = validate_action(1, None, &bridge(), data);
    assert!(matches!(r, Err(ErrorCode::InvalidEd25519Instruction)));
}

#[test]
fn validate_rejects_wrong_program() {
    let data = payload(7).canonical_bytes().unwrap();
    let mut op = authorization_for(&GROUP_KEY, &payload(7));
    op.program_id = [1u8; 32];
    let r = validate_action(1, Some(op), &bridge(), data);
    assert!(matches!(r, Err(ErrorCode::InvalidProgramId)));
}

#[test]
fn validate_rejects_untrusted_signer() {
    let data = payload(7).canonical_bytes().unwrap();
    let op = authorization_for(&[13u8; 32], &payload(7));
    let r = validate_action(1, Some(op), &bridge(), data);
    assert!(matches!(r, Err(ErrorCode::InvalidGroupKey)));
}

#[test]
fn validate_accepts_genuine_authorization() {
    let data = payload(7).canonical_bytes().unwrap();
    let op = authorization_for(&GROUP_KEY, &payload(7));
    let r = validate_action(1, Some(op), &bridge(), data);
    assert!(r.is_ok());
}

#[test]
fn validate_rejects_altered_payload() {
    // The authority signed the untouched payload; any flipped byte in the
    // submitted payload must be rejected as a mismatch.
    let op = authorization_for(&GROUP_KEY, &payload(7));
    let mut data = payload(7).canonical_bytes().unwrap();
    data[20] ^= 0x01;
    let r = validate_action(1, Some(op), &bridge(), data);
    assert!(matches!(r, Err(ErrorCode::InvalidArgs)));
}

#[test]
fn initialize_twice_fails() {
    let mut ledger = BridgeLedger::new();
    assert!(initialize(&mut ledger, GROUP_KEY).is_ok());
    let r = initialize(&mut ledger, [1u8; 32]);
    assert!(matches!(r, Err(ErrorCode::AlreadyInitialized)));
    assert_eq!(ledger.bridge.unwrap().group_key, GROUP_KEY);
}

#[test]
fn create_action_duplicate_fails() {
    let mut ledger = BridgeLedger::new();
    initialize(&mut ledger, GROUP_KEY).unwrap();
    assert!(create_action(&mut ledger, 7).is_ok());
    assert!(create_action(&mut ledger, 8).is_ok());
    let r = create_action(&mut ledger, 7);
    assert!(matches!(r, Err(ErrorCode::DuplicateActionId)));
}

#[test]
fn uninitialized_bridge_rejects_execution() {
    let mut ledger = BridgeLedger::new();
    let op = authorization_for(&GROUP_KEY, &payload(7));
    let r = proxy_mint_to(&mut ledger, 7, payload(7), OWNER, 0, 1, Some(op));
    assert!(matches!(r, Err(BridgeError::Code(ErrorCode::BridgeNotInitialized))));
}

#[test]
fn lifecycle_scenario() {
    // Register action id 7, sign the hash of its canonical payload with the
    // trusted key, submit the verification operation directly before the
    // execution operation: the attempt succeeds and consumes the id.
    let mut ledger = BridgeLedger::new();
    initialize(&mut ledger, GROUP_KEY).unwrap();
    create_action(&mut ledger, 7).unwrap();
    let op = authorization_for(&GROUP_KEY, &payload(7));
    let datav2 = proxy_mint_to(&mut ledger, 7, payload(7), OWNER, 0, 1, Some(op)).unwrap();
    assert_eq!(datav2.name, "Token");
    assert_eq!(datav2.symbol, "TKN");
    assert_eq!(datav2.uri, "https://example.com/7.json");
    assert_eq!(datav2.seller_fee_basis_points, 0);
    assert!(datav2.creators.is_none());
    assert!(datav2.collection.is_none());
    assert!(datav2.uses.is_none());
    assert_eq!(ledger.consumed.len(), 1);
    assert_eq!(ledger.consumed[0].0, 7);
    assert!(ledger.consumed[0].1.consumed);

    // Resubmitting the identical batch is rejected as a duplicated action.
    let op = authorization_for(&GROUP_KEY, &payload(7));
    let r = proxy_mint_to(&mut ledger, 7, payload(7), OWNER, 0, 1, Some(op));
    assert!(matches!(r, Err(BridgeError::Code(ErrorCode::DuplicatedAction))));
    assert_eq!(ledger.consumed.len(), 1);

    // An attempt for action id 8, with only 7 registered, fails on the
    // missing record.
    let op = authorization_for(&GROUP_KEY, &payload(8));
    let r = proxy_mint_to(&mut ledger, 8, payload(8), OWNER, 0, 1, Some(op));
    assert!(matches!(r, Err(BridgeError::Code(ErrorCode::ActionNotFound))));
}

#[test]
fn unregistered_action_fails_before_authorization() {
    // No signature bundle, a wrong batch position, nothing else matters:
    // the missing registration is reported first.
    let mut ledger = BridgeLedger::new();
    initialize(&mut ledger, GROUP_KEY).unwrap();
    let r = proxy_mint_to(&mut ledger, 7, payload(7), OWNER, 0, 0, None);
    assert!(matches!(r, Err(BridgeError::Code(ErrorCode::ActionNotFound))));
}

#[test]
fn action_id_mismatch_rejected() {
    let mut ledger = BridgeLedger::new();
    initialize(&mut ledger, GROUP_KEY).unwrap();
    create_action(&mut ledger, 7).unwrap();
    create_action(&mut ledger, 9).unwrap();
    let op = authorization_for(&GROUP_KEY, &payload(7));
    let r = proxy_mint_to(&mut ledger, 9, payload(7), OWNER, 0, 1, Some(op));
    assert!(matches!(r, Err(BridgeError::Code(ErrorCode::InvalidActionId))));
}

#[test]
fn wrong_token_account_owner_rejected() {
    let mut ledger = BridgeLedger::new();
    initialize(&mut ledger, GROUP_KEY).unwrap();
    create_action(&mut ledger, 7).unwrap();
    let op = authorization_for(&GROUP_KEY, &payload(7));
    let r = proxy_mint_to(&mut ledger, 7, payload(7), [8u8; 32], 0, 1, Some(op));
    assert!(matches!(r, Err(BridgeError::User(MyError::InvalidUser))));
}

#[test]
fn already_minted_rejected() {
    let mut ledger = BridgeLedger::new();
    initialize(&mut ledger, GROUP_KEY).unwrap();
    create_action(&mut ledger, 7).unwrap();
    let op = authorization_for(&GROUP_KEY, &payload(7));
    let r = proxy_mint_to(&mut ledger, 7, payload(7), OWNER, 1, 1, Some(op));
    assert!(matches!(r, Err(BridgeError::Code(ErrorCode::AlreadyMinted))));
}

#[test]
fn failed_validation_keeps_ledger_unchanged() {
    // The marker is only committed together with a fully successful attempt.
    let mut ledger = BridgeLedger::new();
    initialize(&mut ledger, GROUP_KEY).unwrap();
    create_action(&mut ledger, 7).unwrap();
    let op = authorization_for(&[13u8; 32], &payload(7));
    let r = proxy_mint_to(&mut ledger, 7, payload(7), OWNER, 0, 1, Some(op));
    assert!(matches!(r, Err(BridgeError::Code(ErrorCode::InvalidGroupKey))));
    assert!(ledger.consumed.is_empty());

    // The untouched id can still be consumed by a genuine attempt.
    let op = authorization_for(&GROUP_KEY, &payload(7));
    assert!(proxy_mint_to(&mut ledger, 7, payload(7), OWNER, 0, 1, Some(op)).is_ok());
}
