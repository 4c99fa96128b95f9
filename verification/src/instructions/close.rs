use vstd::prelude::*;

use crate::errors::GameSessionCloseError;
use crate::requests::AssetAccount;
use crate::requests::CloseAccountRequest;
use crate::requests::TransferRequest;
use crate::state::address::Address;
use crate::state::game_session::GameSession;

verus! {

/// Every slot of every team has been refunded.
pub open spec fn spec_all_refunded(s: GameSession) -> bool {
    forall|i: int, j: int|
        s.in_range(i, j) ==> (#[trigger] s.slot(i, j)).spec_is_refunded()
}

/// Team `i` exists and every one of its slots has been rewarded.
pub open spec fn spec_team_fully_rewarded(s: GameSession, i: int) -> bool {
    &&& 0 <= i < s.teams@.len()
    &&& forall|j: int|
        0 <= j < s.teams@[i]@.len() ==> (#[trigger] s.slot(i, j)).spec_is_rewarded()
}

/// At least one whole team has been rewarded.
pub open spec fn spec_some_team_rewarded(s: GameSession) -> bool {
    exists|i: int| #[trigger] spec_team_fully_rewarded(s, i)
}

/// The closing rule: either every slot was refunded, or at
/// least one whole team received its winnings. One resolved team is enough;
/// the other team's slots may still be paid.
pub open spec fn spec_may_close(s: GameSession) -> bool {
    spec_all_refunded(s) || spec_some_team_rewarded(s)
}

/// The organizer's share is owed exactly when custody holds precisely two
/// termination fees: the one the organizer deposited and the one the
/// withheld share of the pool amounts to.
pub open spec fn spec_pays_organizer(s: GameSession, vault_amount: u64) -> bool {
    vault_amount == 2 * s.termination_fee
}

/// The protocol treasury's share of the termination fee, paid from custody.
pub open spec fn spec_protocol_fee_request(s: GameSession) -> TransferRequest {
    TransferRequest {
        from: AssetAccount::Vault,
        to: AssetAccount::Protocol,
        mint: s.mint,
        amount: s.termination_fee,
    }
}

/// The organizer's share of the termination fee, paid from custody.
pub open spec fn spec_game_fee_request(s: GameSession) -> TransferRequest {
    TransferRequest {
        from: AssetAccount::Vault,
        to: AssetAccount::Game,
        mint: s.mint,
        amount: s.termination_fee,
    }
}

/// Everything a closure asks of the host, in order: pay the protocol's
/// termination fee, pay the organizer's share where it is owed, then reclaim
/// the emptied custody account. The host's transfer service refuses the
/// reclamation while custody still holds a balance, so a session whose entry
/// fees were not all claimed cannot finish closing.
#[derive(Clone, Copy, Debug, PartialEq, Eq)]
pub struct CloseAction {
    /// Custody pays one termination fee to the protocol treasury.
    pub protocol_fee: TransferRequest,
    /// Custody pays one termination fee back to the organizer, only when
    /// custody holds exactly two fees.
    pub organizer_fee: Option<TransferRequest>,
    /// The custody account is reclaimed, its rent returning to the
    /// organizer.
    pub close_vault: CloseAccountRequest,
}

/// A closure in flight: the organizer that ordered it, the session ledger,
/// and the custody account's current balance as the host read it.
pub struct Close {
    /// The authenticated organizer.
    pub game: Address,
    /// The session to close.
    pub game_session: GameSession,
    /// What the custody account holds at this moment.
    pub vault_amount: u64,
}

impl Close {
    /// The ledger obeys its invariant and belongs to the calling organizer.
    pub open spec fn wf(self) -> bool {
        &&& self.game_session.wf()
        &&& self.game == self.game_session.game
    }

    /// Builds the request that reclaims the custody account for the
    /// organizer.
    pub fn close_vault(&self) -> (r: CloseAccountRequest)
        ensures
            r == (CloseAccountRequest {
                account: AssetAccount::Vault,
                destination: AssetAccount::Game,
            }),
    {
        CloseAccountRequest { account: AssetAccount::Vault, destination: AssetAccount::Game }
    }

    /// Builds the request that pays the protocol treasury its termination
    /// fee from custody.
    pub fn payout_protocol(&self) -> (r: TransferRequest)
        ensures
            r == spec_protocol_fee_request(self.game_session),
    {
        TransferRequest {
            from: AssetAccount::Vault,
            to: AssetAccount::Protocol,
            mint: self.game_session.mint,
            amount: self.game_session.termination_fee,
        }
    }

    /// Builds the request that pays the organizer its termination fee from
    /// custody.
    pub fn payout_game(&self) -> (r: TransferRequest)
        ensures
            r == spec_game_fee_request(self.game_session),
    {
        TransferRequest {
            from: AssetAccount::Vault,
            to: AssetAccount::Game,
            mint: self.game_session.mint,
            amount: self.game_session.termination_fee,
        }
    }

    /// Decides where the withheld termination fees go: the protocol treasury
    /// is always paid one fee; the organizer is paid the other exactly when
    /// custody holds precisely two fees.
    pub fn transfer_termination_fee(&self) -> (r: (TransferRequest, Option<TransferRequest>))
        ensures
            r.0 == spec_protocol_fee_request(self.game_session),
            r.1 == (if spec_pays_organizer(self.game_session, self.vault_amount) {
                Some(spec_game_fee_request(self.game_session))
            } else {
                None::<TransferRequest>
            }),
    {
        let fee = self.game_session.termination_fee;
        if fee <= u64::MAX / 2 && self.vault_amount == 2 * fee {
            (self.payout_protocol(), Some(self.payout_game()))
        } else {
            (self.payout_protocol(), None)
        }
    }

    /// Decides whether every slot of the matrix has been refunded.
    pub fn all_slots_refunded(&self) -> (r: bool)
        ensures
            r == spec_all_refunded(self.game_session),
    {
        let mut i: usize = 0;
        while i < self.game_session.teams.len()
            invariant
                i <= self.game_session.teams@.len(),
                forall|x: int, y: int|
                    0 <= x < i && 0 <= y < self.game_session.teams@[x]@.len()
                        ==> (#[trigger] self.game_session.slot(x, y)).spec_is_refunded(),
            decreases self.game_session.teams@.len() - i,
        {
            let row_len = self.game_session.teams[i].len();
            let mut j: usize = 0;
            while j < row_len
                invariant
                    i < self.game_session.teams@.len(),
                    j <= row_len,
                    row_len == self.game_session.teams@[i as int]@.len(),
                    forall|x: int, y: int|
                        0 <= x < i && 0 <= y < self.game_session.teams@[x]@.len()
                            ==> (#[trigger] self.game_session.slot(x, y)).spec_is_refunded(),
                    forall|y: int|
                        0 <= y < j ==> (#[trigger] self.game_session.slot(
                            i as int,
                            y,
                        )).spec_is_refunded(),
                decreases row_len - j,
            {
                if !self.game_session.teams[i][j].is_refunded() {
                    assert(!self.game_session.slot(i as int, j as int).spec_is_refunded());
                    return false;
                }
                j += 1;
            }
            i += 1;
        }
        true
    }

    /// Decides whether at least one whole team has been rewarded.
    pub fn any_team_rewarded(&self) -> (r: bool)
        ensures
            r == spec_some_team_rewarded(self.game_session),
    {
        let mut i: usize = 0;
        while i < self.game_session.teams.len()
            invariant
                i <= self.game_session.teams@.len(),
                forall|x: int| 0 <= x < i ==> !spec_team_fully_rewarded(self.game_session, x),
            decreases self.game_session.teams@.len() - i,
        {
            let row_len = self.game_session.teams[i].len();
            let mut j: usize = 0;
            let mut team_rewarded = true;
            while j < row_len
                invariant
                    i < self.game_session.teams@.len(),
                    j <= row_len,
                    row_len == self.game_session.teams@[i as int]@.len(),
                    team_rewarded ==> (forall|y: int|
                        0 <= y < j ==> (#[trigger] self.game_session.slot(
                            i as int,
                            y,
                        )).spec_is_rewarded()),
                    !team_rewarded ==> !spec_team_fully_rewarded(self.game_session, i as int),
                decreases row_len - j,
            {
                if !self.game_session.teams[i][j].is_rewarded() {
                    assert(!self.game_session.slot(i as int, j as int).spec_is_rewarded());
                    team_rewarded = false;
                }
                j += 1;
            }
            if team_rewarded {
                assert(spec_team_fully_rewarded(self.game_session, i as int));
                return true;
            }
            i += 1;
        }
        false
    }

    /// Closes the session. Closure is allowed exactly when every slot was
    /// refunded or at least one whole team was rewarded; a session with any
    /// other unresolved paid slot outside a rewarded team still closes on
    /// that team's account. On success the host carries the returned
    /// requests out in order and then deletes the ledger; the refused
    /// closure changes nothing.
    pub fn close_game_session(&self) -> (r: Result<CloseAction, GameSessionCloseError>)
        requires
            self.wf(),
        ensures
            match r {
                Ok(a) => {
                    &&& spec_may_close(self.game_session)
                    &&& a.protocol_fee == spec_protocol_fee_request(self.game_session)
                    &&& a.organizer_fee == (if spec_pays_organizer(
                        self.game_session,
                        self.vault_amount,
                    ) {
                        Some(spec_game_fee_request(self.game_session))
                    } else {
                        None::<TransferRequest>
                    })
                    &&& a.close_vault == (CloseAccountRequest {
                        account: AssetAccount::Vault,
                        destination: AssetAccount::Game,
                    })
                },
                Err(e) => {
                    &&& e == GameSessionCloseError::PlayersNotPaidOut
                    &&& !spec_may_close(self.game_session)
                },
            },
    {
        let all_refunded = self.all_slots_refunded();
        let one_team_paid = self.any_team_rewarded();
        if !(all_refunded || one_team_paid) {
            return Err(GameSessionCloseError::PlayersNotPaidOut);
        }
        let (protocol_fee, organizer_fee) = self.transfer_termination_fee();
        Ok(CloseAction { protocol_fee, organizer_fee, close_vault: self.close_vault() })
    }
}

} // verus!
