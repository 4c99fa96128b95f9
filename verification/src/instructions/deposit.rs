use vstd::prelude::*;

use crate::errors::DepositError;
use crate::requests::AssetAccount;
use crate::requests::TransferRequest;
use crate::state::address::Address;
use crate::state::game_session::GameSession;
use crate::state::player::PlayerState;

verus! {

/// The entry-fee movement a successful deposit asks of the host: the
/// caller's account pays one normalized per-player cost into custody.
pub open spec fn spec_entry_fee_request(s: GameSession, target: Address) -> TransferRequest {
    TransferRequest {
        from: AssetAccount::Player(target),
        to: AssetAccount::Vault,
        mint: s.mint,
        amount: s.session_entry_cost_per_player,
    }
}

/// A deposit in flight: the verified caller and the session ledger the host
/// looked up for it.
pub struct Deposit {
    /// The authenticated caller.
    pub player: Address,
    /// The session the caller deposits into.
    pub game_session: GameSession,
}

impl Deposit {
    /// The ledger obeys its invariant.
    pub open spec fn wf(self) -> bool {
        self.game_session.wf()
    }

    /// Deposits the caller's entry fee. When the caller holds a slot that is
    /// still `Unpaid`, the slot becomes `Paid` and the host is asked to move
    /// the per-player cost from the caller into custody; the host commits the
    /// updated ledger only once that transfer has succeeded. When the
    /// caller's slot has already left `Unpaid` — paid before, refunded, or
    /// rewarded — the deposit is refused and the ledger stays as it was.
    /// A caller that holds no slot changes nothing and pays nothing: the
    /// host's authentication is expected to turn such callers away, but the
    /// engine itself must not fail on them.
    pub fn deposit_entry_fee(&mut self) -> (r: Result<Option<TransferRequest>, DepositError>)
        requires
            old(self).wf(),
        ensures
            final(self).player == old(self).player,
            final(self).wf(),
            match r {
                Ok(opt) => {
                    &&& !old(self).game_session.refuses_deposit(old(self).player)
                    &&& old(self).game_session.slot_updated(
                        final(self).game_session,
                        old(self).player,
                        PlayerState::Paid,
                    )
                    &&& opt == (if old(self).game_session.has_player(old(self).player) {
                        Some(spec_entry_fee_request(old(self).game_session, old(self).player))
                    } else {
                        None::<TransferRequest>
                    })
                },
                Err(e) => {
                    &&& e == DepositError::PlayerAlreadyPaid
                    &&& old(self).game_session.refuses_deposit(old(self).player)
                    &&& *final(self) == *old(self)
                },
            },
    {
        let target = self.player;
        let (i, j) = match self.game_session.find_slot(target) {
            None => {
                return Ok(None);
            },
            Some(p) => p,
        };
        if !self.game_session.teams[i][j].eligible_for_deposit() {
            return Err(DepositError::PlayerAlreadyPaid);
        }
        proof {
            let s0 = self.game_session;
            if s0.refuses_deposit(target) {
                let (k, l) = choose|k: int, l: int|
                    s0.in_range(k, l) && (#[trigger] s0.slot(k, l)).player == target && !s0.slot(
                        k,
                        l,
                    ).spec_eligible_for_deposit();
                assert(s0.slot(k, l).player != s0.slot(i as int, j as int).player);
            }
        }
        let request = TransferRequest {
            from: AssetAccount::Player(target),
            to: AssetAccount::Vault,
            mint: self.game_session.mint,
            amount: self.game_session.session_entry_cost_per_player,
        };
        self.game_session.mark_slot(i, j, PlayerState::Paid);
        Ok(Some(request))
    }
}

} // verus!
