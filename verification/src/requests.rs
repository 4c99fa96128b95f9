//! The asset-movement requests an operation hands back to the host. The
//! engine never moves value itself: it decides, and the host executes each
//! request against its transfer service, committing the new ledger only when
//! every request succeeded.

use vstd::prelude::*;

use crate::state::address::Address;

verus! {

/// One of the asset accounts a session's transfers touch. The host resolves
/// each to the concrete account it keeps for the session: the organizer's
/// own account, the session's custody account, the protocol treasury, or a
/// player's account.
#[derive(Clone, Copy, Debug, PartialEq, Eq, Structural)]
pub enum AssetAccount {
    /// The organizer's asset account.
    Game,
    /// The session's custody account, which pools the entry fees and the
    /// termination fee.
    Vault,
    /// The protocol treasury's asset account.
    Protocol,
    /// The asset account of the player with this address.
    Player(Address),
}

/// A request to move `amount` units of the asset class `mint` between two of
/// the session's accounts.
#[derive(Clone, Copy, Debug, PartialEq, Eq, Structural)]
pub struct TransferRequest {
    pub from: AssetAccount,
    pub to: AssetAccount,
    pub mint: Address,
    pub amount: u64,
}

/// A request to reclaim an emptied asset account, returning its rent to
/// `destination`. The host's transfer service refuses it while the account
/// still holds a balance.
#[derive(Clone, Copy, Debug, PartialEq, Eq, Structural)]
pub struct CloseAccountRequest {
    pub account: AssetAccount,
    pub destination: AssetAccount,
}

} // verus!
