//! The bridge's persistent records and the life cycle of an action id.
//!
//! An action id moves `unregistered -> registered -> consumed`: a privileged
//! call registers it once, exactly one execution attempt may consume it, and
//! nothing ever leaves the consumed state. Every attempt is atomic: it either
//! commits all of its effects or leaves the records exactly as they were.
//! Replay protection rests on the exclusive creation of the per-id consumed
//! marker, checked before the (possibly retried) asset issuance runs.

use vstd::prelude::*;

use crate::codec::{payload_encodable, spec_canonical_bytes, CreateNftData};
use crate::error::{BridgeError, ErrorCode, MyError};
use crate::metadata::AnchorDataV2;
use crate::state::{Action, Bridge, ConsumedAction};
use crate::validate::{validate_action, validate_spec, BatchOperation};

verus! {

/// All records the bridge persists: the one bridge record (once initialized),
/// the registered action records, and the consumed-action markers keyed by
/// action id.
pub struct BridgeLedger {
    pub bridge: Option<Bridge>,
    pub actions: Vec<Action>,
    pub consumed: Vec<(u64, ConsumedAction)>,
}

/// The mathematical content of a [`BridgeLedger`]: the bridge record, the set
/// of registered ids, and the set of consumed ids, each as a sequence.
#[verifier::ext_equal]
pub struct LedgerView {
    pub bridge: Option<Bridge>,
    pub registered: Seq<u64>,
    pub consumed: Seq<u64>,
}

impl View for BridgeLedger {
    type V = LedgerView;

    open spec fn view(&self) -> LedgerView {
        LedgerView {
            bridge: self.bridge,
            registered: self.actions@.map_values(|a: Action| a.action),
            consumed: self.consumed@.map_values(|m: (u64, ConsumedAction)| m.0),
        }
    }
}

impl BridgeLedger {
    /// Well-formedness: registered ids are unique, consumed ids are unique,
    /// and every consumed marker that exists is flipped to consumed (a marker
    /// is only ever committed together with the execution it guards).
    pub open spec fn wf(&self) -> bool {
        &&& forall|i: int, j: int|
            0 <= i < j < self@.registered.len() ==> self@.registered[i] != self@.registered[j]
        &&& forall|i: int, j: int|
            0 <= i < j < self@.consumed.len() ==> self@.consumed[i] != self@.consumed[j]
        &&& forall|i: int| 0 <= i < self.consumed@.len() ==> (#[trigger] self.consumed@[i]).1.consumed
    }

    /// A fresh deployment: no bridge record, no action records, no markers.
    pub fn new() -> (r: BridgeLedger)
        ensures
            r.wf(),
            r@.bridge is None,
            r@.registered == Seq::<u64>::empty(),
            r@.consumed == Seq::<u64>::empty(),
    {
        let r = BridgeLedger { bridge: None, actions: Vec::new(), consumed: Vec::new() };
        proof {
            assert(r@.registered =~= Seq::<u64>::empty());
            assert(r@.consumed =~= Seq::<u64>::empty());
        }
        r
    }
}

/// Whether an action record with id `id` exists.
fn has_action(actions: &Vec<Action>, id: u64) -> (r: bool)
    ensures
        r == actions@.map_values(|a: Action| a.action).contains(id),
{
    let ghost m = actions@.map_values(|a: Action| a.action);
    let mut i: usize = 0;
    while i < actions.len()
        invariant
            i <= actions@.len(),
            m == actions@.map_values(|a: Action| a.action),
            forall|j: int| 0 <= j < i ==> m[j] != id,
        decreases actions@.len() - i,
    {
        if actions[i].action == id {
            proof {
                assert(m[i as int] == id);
            }
            return true;
        }
        i += 1;
    }
    proof {
        assert(forall|j: int| 0 <= j < m.len() ==> m[j] != id);
    }
    false
}

/// Whether a consumed marker for `id` exists.
fn has_marker(consumed: &Vec<(u64, ConsumedAction)>, id: u64) -> (r: bool)
    ensures
        r == consumed@.map_values(|m: (u64, ConsumedAction)| m.0).contains(id),
{
    let ghost m = consumed@.map_values(|p: (u64, ConsumedAction)| p.0);
    let mut i: usize = 0;
    while i < consumed.len()
        invariant
            i <= consumed@.len(),
            m == consumed@.map_values(|p: (u64, ConsumedAction)| p.0),
            forall|j: int| 0 <= j < i ==> m[j] != id,
        decreases consumed@.len() - i,
    {
        if consumed[i].0 == id {
            proof {
                assert(m[i as int] == id);
            }
            return true;
        }
        i += 1;
    }
    proof {
        assert(forall|j: int| 0 <= j < m.len() ==> m[j] != id);
    }
    false
}

/// One-time initialization: creates the bridge record with the trusted signer
/// key and a zero action counter; rejected once the record exists.
pub open spec fn spec_initialize(l: LedgerView, group_key: [u8; 32]) -> (Result<(), ErrorCode>,
    LedgerView,
) {
    if l.bridge is Some {
        (Err(ErrorCode::AlreadyInitialized), l)
    } else {
        (Ok(()), LedgerView { bridge: Some(Bridge { action_cnt: 0, group_key }), ..l })
    }
}

/// Registration of a new action id: creates its record; rejected when a
/// record with the same id exists already.
pub open spec fn spec_create_action(l: LedgerView, action: u64) -> (Result<(), ErrorCode>,
    LedgerView,
) {
    if l.registered.contains(action) {
        (Err(ErrorCode::DuplicateActionId), l)
    } else {
        (Ok(()), LedgerView { registered: l.registered.push(action), ..l })
    }
}

/// One execution attempt, checked in this order: the bridge record must
/// exist; the presented action record must exist; the destination token
/// account's owner must be the payload's owner key; the payload's action id
/// must equal the presented record's id; no consumed marker for the id may
/// exist yet (replay protection); the token must not be minted already; the
/// payload must serialize; and the co-submitted signature bundle must
/// authorize the canonical payload bytes. Only a fully successful attempt
/// changes the ledger, by adding the consumed marker.
pub open spec fn spec_proxy_mint_to(
    l: LedgerView,
    action_record_id: u64,
    data: CreateNftData,
    token_account_owner: [u8; 32],
    mint_supply: u64,
    current_index: u16,
    predecessor: Option<BatchOperation>,
) -> (Result<(), BridgeError>, LedgerView) {
    if l.bridge is None {
        (Err(BridgeError::Code(ErrorCode::BridgeNotInitialized)), l)
    } else if !l.registered.contains(action_record_id) {
        (Err(BridgeError::Code(ErrorCode::ActionNotFound)), l)
    } else if token_account_owner@ != data.owner@ {
        (Err(BridgeError::User(MyError::InvalidUser)), l)
    } else if data.action_id != action_record_id {
        (Err(BridgeError::Code(ErrorCode::InvalidActionId)), l)
    } else if l.consumed.contains(data.action_id) {
        (Err(BridgeError::Code(ErrorCode::DuplicatedAction)), l)
    } else if mint_supply == 1 {
        (Err(BridgeError::Code(ErrorCode::AlreadyMinted)), l)
    } else if !payload_encodable(data) {
        (Err(BridgeError::Code(ErrorCode::PayloadTooLarge)), l)
    } else {
        match validate_spec(
            current_index,
            predecessor,
            l.bridge->0.group_key@,
            spec_canonical_bytes(data),
        ) {
            Err(e) => (Err(BridgeError::Code(e)), l),
            Ok(()) => (Ok(()), LedgerView { consumed: l.consumed.push(data.action_id), ..l }),
        }
    }
}

/// Creates the bridge record, as [`spec_initialize`] says.
pub fn initialize(ledger: &mut BridgeLedger, group_key: [u8; 32]) -> (r: Result<(), ErrorCode>)
    requires
        old(ledger).wf(),
    ensures
        final(ledger).wf(),
        r == spec_initialize(old(ledger)@, group_key).0,
        final(ledger)@ == spec_initialize(old(ledger)@, group_key).1,
{
    if ledger.bridge.is_some() {
        return Err(ErrorCode::AlreadyInitialized);
    }
    ledger.bridge = Some(Bridge { action_cnt: 0, group_key });
    proof {
        assert(ledger@ =~= spec_initialize(old(ledger)@, group_key).1);
    }
    Ok(())
}

/// Registers an action id, as [`spec_create_action`] says.
pub fn create_action(ledger: &mut BridgeLedger, action: u64) -> (r: Result<(), ErrorCode>)
    requires
        old(ledger).wf(),
    ensures
        final(ledger).wf(),
        r == spec_create_action(old(ledger)@, action).0,
        final(ledger)@ == spec_create_action(old(ledger)@, action).1,
{
    if has_action(&ledger.actions, action) {
        return Err(ErrorCode::DuplicateActionId);
    }
    ledger.actions.push(Action { action });
    proof {
        assert(ledger.actions@.map_values(|a: Action| a.action) =~= old(
            ledger,
        ).actions@.map_values(|a: Action| a.action).push(action));
        assert(ledger@ =~= spec_create_action(old(ledger)@, action).1);
    }
    Ok(())
}

/// Runs one execution attempt, as [`spec_proxy_mint_to`] says.
///
/// On success the consumed marker for the payload's action id is committed
/// and the descriptive data of the asset to mint is returned: the payload's
/// name, symbol and uri, no royalties, no creator list, no collection, no
/// uses. On any rejection the ledger is left exactly as it was.
pub fn proxy_mint_to(
    ledger: &mut BridgeLedger,
    action_record_id: u64,
    data: CreateNftData,
    token_account_owner: [u8; 32],
    mint_supply: u64,
    current_index: u16,
    predecessor: Option<BatchOperation>,
) -> (r: Result<AnchorDataV2, BridgeError>)
    requires
        old(ledger).wf(),
    ensures
        final(ledger).wf(),
        final(ledger)@ == spec_proxy_mint_to(
            old(ledger)@,
            action_record_id,
            data,
            token_account_owner,
            mint_supply,
            current_index,
            predecessor,
        ).1,
        (r is Ok) == (spec_proxy_mint_to(
            old(ledger)@,
            action_record_id,
            data,
            token_account_owner,
            mint_supply,
            current_index,
            predecessor,
        ).0 is Ok),
        r is Err ==> r->Err_0 == spec_proxy_mint_to(
            old(ledger)@,
            action_record_id,
            data,
            token_account_owner,
            mint_supply,
            current_index,
            predecessor,
        ).0->Err_0,
        r is Ok ==> {
            let d = r->Ok_0;
            &&& d.name@ == data.token_name@
            &&& d.symbol@ == data.token_symbol@
            &&& d.uri@ == data.token_uri@
            &&& d.seller_fee_basis_points == 0
            &&& d.creators is None
            &&& d.collection is None
            &&& d.uses is None
        },
{
    let bridge = match ledger.bridge {
        None => {
            return Err(BridgeError::Code(ErrorCode::BridgeNotInitialized));
        },
        Some(b) => b,
    };
    if !has_action(&ledger.actions, action_record_id) {
        return Err(BridgeError::Code(ErrorCode::ActionNotFound));
    }
    if !crate::validate::bytes_eq(token_account_owner.as_slice(), data.owner.as_slice()) {
        return Err(BridgeError::User(MyError::InvalidUser));
    }
    if data.action_id != action_record_id {
        return Err(BridgeError::Code(ErrorCode::InvalidActionId));
    }
    if has_marker(&ledger.consumed, data.action_id) {
        return Err(BridgeError::Code(ErrorCode::DuplicatedAction));
    }
    if mint_supply == 1 {
        return Err(BridgeError::Code(ErrorCode::AlreadyMinted));
    }
    let payload = match data.canonical_bytes() {
        None => {
            return Err(BridgeError::Code(ErrorCode::PayloadTooLarge));
        },
        Some(v) => v,
    };
    match validate_action(current_index, predecessor, &bridge, payload) {
        Err(e) => {
            return Err(BridgeError::Code(e));
        },
        Ok(()) => {},
    }
    ledger.consumed.push((data.action_id, ConsumedAction { consumed: true }));
    proof {
        assert(ledger.consumed@.map_values(|m: (u64, ConsumedAction)| m.0) =~= old(
            ledger,
        ).consumed@.map_values(|m: (u64, ConsumedAction)| m.0).push(data.action_id));
        assert(ledger@ =~= spec_proxy_mint_to(
            old(ledger)@,
            action_record_id,
            data,
            token_account_owner,
            mint_supply,
            current_index,
            predecessor,
        ).1);
    }
    Ok(
        AnchorDataV2 {
            name: data.token_name,
            symbol: data.token_symbol,
            uri: data.token_uri,
            seller_fee_basis_points: 0,
            creators: None,
            collection: None,
            uses: None,
        },
    )
}

/// Law: an execution attempt for an already consumed action id never
/// succeeds, whatever signature bundle, batch position, owner or supply it
/// brings, and it leaves the ledger exactly as it was.
pub proof fn lemma_consumed_action_stays_consumed(
    l: LedgerView,
    action_record_id: u64,
    data: CreateNftData,
    token_account_owner: [u8; 32],
    mint_supply: u64,
    current_index: u16,
    predecessor: Option<BatchOperation>,
)
    requires
        l.consumed.contains(data.action_id),
    ensures
        spec_proxy_mint_to(
            l,
            action_record_id,
            data,
            token_account_owner,
            mint_supply,
            current_index,
            predecessor,
        ).0 is Err,
        spec_proxy_mint_to(
            l,
            action_record_id,
            data,
            token_account_owner,
            mint_supply,
            current_index,
            predecessor,
        ).1 == l,
{
}

/// Law: a replayed attempt that presents the same records as the successful
/// one is rejected precisely as a duplicated action.
pub proof fn lemma_replay_rejected_as_duplicate(
    l: LedgerView,
    data: CreateNftData,
    mint_supply: u64,
    current_index: u16,
    predecessor: Option<BatchOperation>,
)
    requires
        l.bridge is Some,
        l.registered.contains(data.action_id),
        l.consumed.contains(data.action_id),
    ensures
        spec_proxy_mint_to(
            l,
            data.action_id,
            data,
            data.owner,
            mint_supply,
            current_index,
            predecessor,
        ).0 == Err::<(), BridgeError>(BridgeError::Code(ErrorCode::DuplicatedAction)),
{
}

/// Law: a successful execution attempt marks its action id consumed, so of
/// two attempts for the same action id, one right after the other, at most
/// the first can succeed.
pub proof fn lemma_execute_at_most_once(
    l: LedgerView,
    action_record_id1: u64,
    data1: CreateNftData,
    token_account_owner1: [u8; 32],
    mint_supply1: u64,
    current_index1: u16,
    predecessor1: Option<BatchOperation>,
    action_record_id2: u64,
    data2: CreateNftData,
    token_account_owner2: [u8; 32],
    mint_supply2: u64,
    current_index2: u16,
    predecessor2: Option<BatchOperation>,
)
    requires
        spec_proxy_mint_to(
            l,
            action_record_id1,
            data1,
            token_account_owner1,
            mint_supply1,
            current_index1,
            predecessor1,
        ).0 is Ok,
        data2.action_id == data1.action_id,
    ensures
        spec_proxy_mint_to(
            spec_proxy_mint_to(
                l,
                action_record_id1,
                data1,
                token_account_owner1,
                mint_supply1,
                current_index1,
                predecessor1,
            ).1,
            action_record_id2,
            data2,
            token_account_owner2,
            mint_supply2,
            current_index2,
            predecessor2,
        ).0 is Err,
{
    let l1 = spec_proxy_mint_to(
        l,
        action_record_id1,
        data1,
        token_account_owner1,
        mint_supply1,
        current_index1,
        predecessor1,
    ).1;
    assert(l1.consumed == l.consumed.push(data1.action_id));
    assert(l1.consumed[l.consumed.len() as int] == data1.action_id);
    assert(l1.consumed.contains(data2.action_id));
    lemma_consumed_action_stays_consumed(
        l1,
        action_record_id2,
        data2,
        token_account_owner2,
        mint_supply2,
        current_index2,
        predecessor2,
    );
}

/// Law: no operation ever removes a consumed marker: initialization,
/// registration and further execution attempts all keep every consumed id
/// consumed. Together with [`lemma_consumed_action_stays_consumed`] this
/// makes consumption terminal: once an id is consumed, every later attempt
/// for it fails, however many operations happen in between.
pub proof fn lemma_consumed_marker_persists(
    l: LedgerView,
    group_key: [u8; 32],
    action: u64,
    action_record_id: u64,
    data: CreateNftData,
    token_account_owner: [u8; 32],
    mint_supply: u64,
    current_index: u16,
    predecessor: Option<BatchOperation>,
    x: u64,
)
    requires
        l.consumed.contains(x),
    ensures
        spec_initialize(l, group_key).1.consumed.contains(x),
        spec_create_action(l, action).1.consumed.contains(x),
        spec_proxy_mint_to(
            l,
            action_record_id,
            data,
            token_account_owner,
            mint_supply,
            current_index,
            predecessor,
        ).1.consumed.contains(x),
{
    let k = choose|k: int| 0 <= k < l.consumed.len() && l.consumed[k] == x;
    let l2 = spec_proxy_mint_to(
        l,
        action_record_id,
        data,
        token_account_owner,
        mint_supply,
        current_index,
        predecessor,
    ).1;
    assert(l2.consumed[k] == x);
}

/// Law: an execution attempt for an action id with no registered record is
/// rejected as not found before any authorization input is inspected: the
/// batch position and the predecessor operation play no part in the outcome.
pub proof fn lemma_unregistered_rejected_before_authorization(
    l: LedgerView,
    action_record_id: u64,
    data: CreateNftData,
    token_account_owner: [u8; 32],
    mint_supply: u64,
    current_index: u16,
    predecessor: Option<BatchOperation>,
)
    requires
        l.bridge is Some,
        !l.registered.contains(action_record_id),
    ensures
        spec_proxy_mint_to(
            l,
            action_record_id,
            data,
            token_account_owner,
            mint_supply,
            current_index,
            predecessor,
        ).0 == Err::<(), BridgeError>(BridgeError::Code(ErrorCode::ActionNotFound)),
        spec_proxy_mint_to(
            l,
            action_record_id,
            data,
            token_account_owner,
            mint_supply,
            current_index,
            predecessor,
        ).1 == l,
{
}

/// Law: a successful execution attempt implies a genuine authorization: the
/// action id was registered and not yet consumed, the operation before the
/// execution operation belongs to the signature-verification program, its
/// bundle decodes, the first record's signer is the bridge's trusted key,
/// and the first record's message is the SHA-256 hash of the canonical
/// payload bytes. The attempt's one state change is the new consumed marker.
pub proof fn lemma_success_implies_authenticated(
    l: LedgerView,
    action_record_id: u64,
    data: CreateNftData,
    token_account_owner: [u8; 32],
    mint_supply: u64,
    current_index: u16,
    predecessor: Option<BatchOperation>,
)
    requires
        spec_proxy_mint_to(
            l,
            action_record_id,
            data,
            token_account_owner,
            mint_supply,
            current_index,
            predecessor,
        ).0 is Ok,
    ensures
        l.registered.contains(data.action_id),
        !l.consumed.contains(data.action_id),
        current_index != 0,
        (predecessor is Some),
        predecessor->0.program_id@ == crate::validate::ed25519_program_id_spec(),
        (crate::bundle::decode_spec(predecessor->0.data@) is Ok),
        crate::bundle::decode_spec(predecessor->0.data@)->Ok_0[0].0 == l.bridge->0.group_key@,
        crate::bundle::decode_spec(predecessor->0.data@)->Ok_0[0].1 == crate::validate::sha256_of(
            spec_canonical_bytes(data),
        ),
        spec_proxy_mint_to(
            l,
            action_record_id,
            data,
            token_account_owner,
            mint_supply,
            current_index,
            predecessor,
        ).1 == (LedgerView { consumed: l.consumed.push(data.action_id), ..l }),
{
}

} // verus!
