use vstd::prelude::*;

verus! {

/// Descriptive data of the asset minted for an action. Only the name, symbol
/// and uri come from the action payload; the remaining fields are fixed by
/// the bridge (no royalties, no creator list, no collection, no uses).
#[derive(Debug)]
pub struct AnchorDataV2 {
    /// The name of the asset.
    pub name: String,
    /// The symbol for the asset.
    pub symbol: String,
    /// URI pointing to JSON representing the asset.
    pub uri: String,
    /// Royalty basis points that go to creators in secondary sales (0-10000).
    pub seller_fee_basis_points: u16,
    /// Array of creators, optional.
    pub creators: Option<Vec<AnchorCreator>>,
    /// Collection, optional.
    pub collection: Option<AnchorCollection>,
    /// Uses, optional.
    pub uses: Option<AnchorUses>,
}

/// One creator entry of an asset's creator list.
#[derive(Clone, Copy, Debug)]
pub struct AnchorCreator {
    pub address: [u8; 32],
    /// Whether the creator co-signed the asset.
    pub verified: bool,
    /// Share in percentages, not basis points.
    pub share: u8,
}

/// Membership of an asset in a collection.
#[derive(Clone, Copy, Debug)]
pub struct AnchorCollection {
    pub verified: bool,
    pub key: [u8; 32],
}

/// How an asset's uses are spent.
#[derive(Clone, Copy, Debug, PartialEq, Eq, Structural)]
pub enum AnchorUseMethod {
    Burn,
    Multiple,
    Single,
}

/// Remaining and total uses of an asset.
#[derive(Clone, Copy, Debug)]
pub struct AnchorUses {
    pub use_method: AnchorUseMethod,
    pub remaining: u64,
    pub total: u64,
}

} // verus!
