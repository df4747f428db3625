use vstd::prelude::*;

verus! {

/// The long-lived bridge record: the trusted signer's public key and a
/// reserved action counter. One instance per deployment, created once at
/// initialization; the key is set once and read-only afterwards. The counter
/// is written once at initialization and is otherwise reserved.
#[derive(Clone, Copy, Debug)]
pub struct Bridge {
    pub action_cnt: u128,
    pub group_key: [u8; 32],
}

/// A registered action record: "this action id is known and may be executed".
/// Created by a privileged registrant before any execution attempt, one
/// instance per distinct action id, immutable afterwards.
#[derive(Clone, Copy, Debug)]
pub struct Action {
    pub action: u64,
}

/// The per-action-id replay marker. It is created exclusively on the first
/// execution attempt for an action id and flipped to consumed exactly once;
/// no transition ever leaves the consumed state.
#[derive(Clone, Copy, Debug)]
pub struct ConsumedAction {
    pub consumed: bool,
}

} // verus!
