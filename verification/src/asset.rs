use vstd::prelude::*;

verus! {

/// An extra token that accounts can hold: the token contract's account id
/// and whether claims of it are enabled.
#[derive(Debug, Clone, PartialEq, Eq)]
pub struct AssetV1 {
    pub account_id: String,
    pub is_enabled: bool,
}

pub type Asset = AssetV1;

/// An asset in any of its versions.
#[derive(Debug, Clone, PartialEq, Eq)]
pub enum AssetVersioned {
    V1(AssetV1),
}

/// The latest form of a versioned asset.
pub open spec fn latest_asset(value: AssetVersioned) -> AssetV1 {
    match value {
        AssetVersioned::V1(asset) => asset,
    }
}

impl From<AssetVersioned> for AssetV1 {
    fn from(value: AssetVersioned) -> (r: Self) {
        match value {
            AssetVersioned::V1(asset) => asset,
        }
    }
}

impl vstd::std_specs::convert::FromSpecImpl<AssetVersioned> for AssetV1 {
    open spec fn obeys_from_spec() -> bool {
        true
    }

    open spec fn from_spec(v: AssetVersioned) -> Self {
        latest_asset(v)
    }
}

impl AssetVersioned {
    /// A new enabled asset of the token contract `account_id`.
    pub fn new(account_id: String) -> (r: Self)
        ensures
            r == AssetVersioned::V1(AssetV1 { account_id, is_enabled: true }),
    {
        AssetVersioned::V1(AssetV1::new(account_id))
    }
}

impl AssetV1 {
    pub(crate) fn new(account_id: String) -> (r: Self)
        ensures
            r == (AssetV1 { account_id, is_enabled: true }),
    {
        AssetV1 { account_id, is_enabled: true }
    }
}

} // verus!
