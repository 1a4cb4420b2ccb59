use vstd::prelude::*;

verus! {

/// The roles that the contract's methods are granted to.
#[derive(Debug, Clone, Copy, PartialEq, Eq)]
pub enum Roles {
    /// Records balances.
    Oracle,
    /// Burns the evaporated balance.
    BurnManager,
    /// Configures periods, cleans and unlocks accounts.
    Maintainer,
    /// Stages new contract code.
    StagingManager,
    /// Deploys staged contract code.
    UpgradeManager,
}

} // verus!
