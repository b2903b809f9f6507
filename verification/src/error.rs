//! Errors of the contracts' state and query logic.
use vstd::prelude::*;

verus! {

/// The items that the contracts keep in their storage.
#[derive(Clone, Copy, Debug, PartialEq, Eq, Structural)]
pub enum StoredItem {
    Config,
    RepayingLoanState,
    AimBufferSize,
    StableBalanceBeforeSellAnc,
    ChildContractsCodeId,
    ChildContractsInfo,
    NassetTokenConfigHolder,
    GovernanceUpdate,
}

/// Why a state access or a query was refused.
#[derive(Clone, Copy, Debug, PartialEq, Eq, Structural)]
pub enum ContractError {
    /// The item was read (or updated) before it was ever stored.
    NotFound(StoredItem),
    /// The oracle's price was last updated before the allowed time frame.
    PriceTooOld,
}

} // verus!
