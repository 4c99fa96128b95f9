use vstd::prelude::*;

use crate::errors::TransferError;
use crate::fees;
use crate::requests::AssetAccount;
use crate::requests::TransferRequest;
use crate::state::address::Address;
use crate::state::game_session::GameSession;
use crate::state::player::PlayerState;

verus! {

/// The movement a terminal operation asks of the host: custody pays `amount`
/// to the target player.
pub open spec fn spec_custody_payout(s: GameSession, target: Address, amount: u64) -> TransferRequest {
    TransferRequest {
        from: AssetAccount::Vault,
        to: AssetAccount::Player(target),
        mint: s.mint,
        amount,
    }
}

/// What one player wins at payout, computed from the session's stored
/// parameters: the pool less the termination fee, split over one team.
pub open spec fn spec_session_winnings(s: GameSession) -> Option<u64> {
    fees::spec_winnings_per_player(
        s.session_entry_cost_per_team,
        s.amount_of_teams as u64,
        s.termination_fee,
        s.players_per_team as u64,
    )
}

/// A terminal operation in flight: the organizer that ordered it, the player
/// it targets, and the session ledger. Only the organizer that the session
/// was created for can reach this state — the host looks the session up by
/// the organizer's own key.
pub struct Transfer {
    /// The authenticated organizer.
    pub game: Address,
    /// The player to pay or refund.
    pub player: Address,
    /// The session the organizer resolves.
    pub game_session: GameSession,
}

impl Transfer {
    /// The ledger obeys its invariant and belongs to the calling organizer.
    pub open spec fn wf(self) -> bool {
        &&& self.game_session.wf()
        &&& self.game == self.game_session.game
    }

    /// Builds the request that pays `amount` from custody to the target
    /// player.
    pub fn transfer(&self, amount: u64) -> (r: TransferRequest)
        ensures
            r == spec_custody_payout(self.game_session, self.player, amount),
    {
        TransferRequest {
            from: AssetAccount::Vault,
            to: AssetAccount::Player(self.player),
            mint: self.game_session.mint,
            amount,
        }
    }

    /// Pays the target player their winnings. When the target holds a `Paid`
    /// slot and the winnings computation fits, the slot becomes `Rewarded`
    /// and the host is asked to move the winnings from custody to the player;
    /// the host commits the updated ledger only once that transfer has
    /// succeeded. A target whose slot is not `Paid` — never deposited, or
    /// already refunded or rewarded — is refused, and a target that holds no
    /// slot changes nothing and is paid nothing.
    ///
    /// An open trust boundary, kept deliberately: the engine does not verify
    /// that the target's team actually won. The organizer's designation of a
    /// paid player as a reward recipient is taken as authoritative.
    pub fn payout_winning(&mut self) -> (r: Result<Option<TransferRequest>, TransferError>)
        requires
            old(self).wf(),
        ensures
            final(self).game == old(self).game,
            final(self).player == old(self).player,
            final(self).wf(),
            match r {
                Ok(opt) => {
                    &&& !old(self).game_session.refuses_terminal(old(self).player)
                    &&& old(self).game_session.slot_updated(
                        final(self).game_session,
                        old(self).player,
                        PlayerState::Rewarded,
                    )
                    &&& (old(self).game_session.has_player(old(self).player) ==> {
                        &&& spec_session_winnings(old(self).game_session).is_some()
                        &&& opt == Some(
                            spec_custody_payout(
                                old(self).game_session,
                                old(self).player,
                                spec_session_winnings(old(self).game_session).unwrap(),
                            ),
                        )
                    })
                    &&& (!old(self).game_session.has_player(old(self).player) ==> opt
                        == None::<TransferRequest>)
                },
                Err(e) => {
                    &&& *final(self) == *old(self)
                    &&& (e == TransferError::PlayerNotEligibleForPayout <==> old(
                        self,
                    ).game_session.refuses_terminal(old(self).player))
                    &&& (e == TransferError::ArithmeticOverflow <==> {
                        &&& !old(self).game_session.refuses_terminal(old(self).player)
                        &&& old(self).game_session.has_player(old(self).player)
                        &&& spec_session_winnings(old(self).game_session).is_none()
                    })
                    &&& (e == TransferError::PlayerNotEligibleForPayout || e
                        == TransferError::ArithmeticOverflow)
                },
            },
    {
        let target = self.player;
        let (i, j) = match self.game_session.find_slot(target) {
            None => {
                return Ok(None);
            },
            Some(p) => p,
        };
        if !self.game_session.teams[i][j].eligible_for_terminal() {
            return Err(TransferError::PlayerNotEligibleForPayout);
        }
        proof {
            lemma_found_paid_slot_not_refused(self.game_session, target, i as int, j as int);
        }
        let winnings = match fees::winnings_per_player(
            self.game_session.session_entry_cost_per_team,
            self.game_session.amount_of_teams as u64,
            self.game_session.termination_fee,
            self.game_session.players_per_team as u64,
        ) {
            None => {
                return Err(TransferError::ArithmeticOverflow);
            },
            Some(w) => w,
        };
        let request = self.transfer(winnings);
        self.game_session.mark_slot(i, j, PlayerState::Rewarded);
        Ok(Some(request))
    }

    /// Refunds the target player's entry fee. When the target holds a `Paid`
    /// slot, the slot becomes `Refunded` and the host is asked to move the
    /// per-player cost from custody back to the player; the host commits the
    /// updated ledger only once that transfer has succeeded. A target whose
    /// slot is not `Paid` is refused, and a target that holds no slot changes
    /// nothing and is paid nothing.
    pub fn payout_refund(&mut self) -> (r: Result<Option<TransferRequest>, TransferError>)
        requires
            old(self).wf(),
        ensures
            final(self).game == old(self).game,
            final(self).player == old(self).player,
            final(self).wf(),
            match r {
                Ok(opt) => {
                    &&& !old(self).game_session.refuses_terminal(old(self).player)
                    &&& old(self).game_session.slot_updated(
                        final(self).game_session,
                        old(self).player,
                        PlayerState::Refunded,
                    )
                    &&& opt == (if old(self).game_session.has_player(old(self).player) {
                        Some(
                            spec_custody_payout(
                                old(self).game_session,
                                old(self).player,
                                old(self).game_session.session_entry_cost_per_player,
                            ),
                        )
                    } else {
                        None::<TransferRequest>
                    })
                },
                Err(e) => {
                    &&& e == TransferError::PlayerNotEligibleForRefund
                    &&& old(self).game_session.refuses_terminal(old(self).player)
                    &&& *final(self) == *old(self)
                },
            },
    {
        let target = self.player;
        let (i, j) = match self.game_session.find_slot(target) {
            None => {
                return Ok(None);
            },
            Some(p) => p,
        };
        if !self.game_session.teams[i][j].eligible_for_terminal() {
            return Err(TransferError::PlayerNotEligibleForRefund);
        }
        proof {
            lemma_found_paid_slot_not_refused(self.game_session, target, i as int, j as int);
        }
        let request = self.transfer(self.game_session.session_entry_cost_per_player);
        self.game_session.mark_slot(i, j, PlayerState::Refunded);
        Ok(Some(request))
    }
}

/// In a ledger with distinct addresses, finding the target's slot in the
/// `Paid` state rules out any slot of the target refusing a terminal
/// operation.
proof fn lemma_found_paid_slot_not_refused(s: GameSession, target: Address, i: int, j: int)
    requires
        s.wf(),
        s.in_range(i, j),
        s.slot(i, j).player == target,
        s.slot(i, j).spec_eligible_for_terminal(),
    ensures
        !s.refuses_terminal(target),
{
    if s.refuses_terminal(target) {
        let (k, l) = choose|k: int, l: int|
            s.in_range(k, l) && (#[trigger] s.slot(k, l)).player == target && !s.slot(
                k,
                l,
            ).spec_eligible_for_terminal();
        assert(s.slot(k, l).player != s.slot(i, j).player);
    }
}

} // verus!
