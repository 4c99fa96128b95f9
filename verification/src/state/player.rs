use vstd::prelude::*;

use crate::state::address::Address;

verus! {

/// Where a player slot stands in its lifecycle. A slot starts `Unpaid`, moves
/// to `Paid` when the entry fee is deposited, and ends in exactly one of the
/// two terminal states: `Refunded` (the entry fee went back) or `Rewarded`
/// (the winnings were paid out). Keeping the lifecycle as one variant instead
/// of three independent flags makes the illegal flag combinations
/// unrepresentable: a slot can never be refunded and rewarded at once, and a
/// terminal slot can never count as paid.
#[derive(Clone, Copy, Debug, PartialEq, Eq, Structural)]
pub enum PlayerState {
    Unpaid,
    Paid,
    Refunded,
    Rewarded,
}

/// One [team][position] cell of a session's player matrix: the address that
/// may deposit into it and how far its lifecycle has moved.
#[derive(Clone, Copy, Debug, PartialEq, Eq, Structural)]
pub struct Player {
    pub player: Address,
    pub state: PlayerState,
}

impl Player {
    /// The entry fee for this slot has been deposited and neither refunded
    /// nor paid out.
    pub open spec fn spec_is_paid(self) -> bool {
        self.state == PlayerState::Paid
    }

    /// The entry fee for this slot has been refunded.
    pub open spec fn spec_is_refunded(self) -> bool {
        self.state == PlayerState::Refunded
    }

    /// The winnings for this slot have been paid out.
    pub open spec fn spec_is_rewarded(self) -> bool {
        self.state == PlayerState::Rewarded
    }

    /// A slot admits a terminal operation (payout or refund) exactly when it
    /// is paid and neither refunded nor rewarded, which is exactly the `Paid`
    /// state.
    pub open spec fn spec_eligible_for_terminal(self) -> bool {
        self.state == PlayerState::Paid
    }

    /// A slot admits a deposit exactly when nothing has happened to it yet:
    /// the entry fee is not in, and no terminal transition has spent the
    /// slot.
    pub open spec fn spec_eligible_for_deposit(self) -> bool {
        self.state == PlayerState::Unpaid
    }

    /// Decides whether this slot holds an unspent deposit.
    pub fn is_paid(&self) -> (r: bool)
        ensures
            r == self.spec_is_paid(),
    {
        self.state == PlayerState::Paid
    }

    /// Decides whether this slot was refunded.
    pub fn is_refunded(&self) -> (r: bool)
        ensures
            r == self.spec_is_refunded(),
    {
        self.state == PlayerState::Refunded
    }

    /// Decides whether this slot was rewarded.
    pub fn is_rewarded(&self) -> (r: bool)
        ensures
            r == self.spec_is_rewarded(),
    {
        self.state == PlayerState::Rewarded
    }

    /// Decides whether this slot admits a payout or a refund.
    pub fn eligible_for_terminal(&self) -> (r: bool)
        ensures
            r == self.spec_eligible_for_terminal(),
    {
        self.state == PlayerState::Paid
    }

    /// Decides whether this slot admits a deposit.
    pub fn eligible_for_deposit(&self) -> (r: bool)
        ensures
            r == self.spec_eligible_for_deposit(),
    {
        self.state == PlayerState::Unpaid
    }
}

impl Default for Player {
    /// An empty slot: the zero sentinel address, lifecycle not started.
    fn default() -> (r: Player)
        ensures
            r.player == Address::spec_zero(),
            r.state == PlayerState::Unpaid,
    {
        Player { player: Address::zero(), state: PlayerState::Unpaid }
    }
}

} // verus!
