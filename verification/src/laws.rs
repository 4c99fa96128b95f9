//! The engine's cross-operation guarantees, proved once and for all states:
//! the two eligibility conditions exclude each other, and every terminal
//! transition of a slot is write-once — once a slot is paid, refunded, or
//! rewarded, the operations that led there refuse to run again.

use vstd::prelude::*;

use crate::state::address::Address;
use crate::state::game_session::GameSession;
use crate::state::player::Player;
use crate::state::player::PlayerState;

verus! {

/// No slot is ever eligible for a deposit and for a terminal operation at
/// once: a deposit asks for a lifecycle not yet started, a terminal
/// operation for an unspent deposit.
pub proof fn lemma_eligibility_mutually_exclusive(p: Player)
    ensures
        !(p.spec_eligible_for_deposit() && p.spec_eligible_for_terminal()),
{
}

/// After a slot of `target` was moved to the state `st`, some slot of
/// `target` holds exactly `st`.
proof fn lemma_updated_slot_state(
    before: GameSession,
    after: GameSession,
    target: Address,
    st: PlayerState,
)
    requires
        before.has_player(target),
        before.slot_updated(after, target, st),
    ensures
        exists|i: int, j: int|
            after.in_range(i, j) && (#[trigger] after.slot(i, j)).player == target && after.slot(
                i,
                j,
            ).state == st,
{
    let (i, j) = choose|i: int, j: int|
        before.in_range(i, j) && (#[trigger] before.slot(i, j)).player == target;
    assert(after.slot(i, j) == Player { player: target, state: st });
}

/// After a slot of `target` was moved to the state `st`: any state but
/// `Unpaid` refuses a further deposit, and any state but `Paid` refuses a
/// further refund or payout.
proof fn lemma_moved_slot_refuses(
    before: GameSession,
    after: GameSession,
    target: Address,
    st: PlayerState,
)
    requires
        before.has_player(target),
        before.slot_updated(after, target, st),
    ensures
        st != PlayerState::Unpaid ==> after.refuses_deposit(target),
        st != PlayerState::Paid ==> after.refuses_terminal(target),
{
    lemma_updated_slot_state(before, after, target, st);
    let (i, j) = choose|i: int, j: int|
        after.in_range(i, j) && (#[trigger] after.slot(i, j)).player == target && after.slot(
            i,
            j,
        ).state == st;
    if st != PlayerState::Unpaid {
        assert(!after.slot(i, j).spec_eligible_for_deposit());
    }
    if st != PlayerState::Paid {
        assert(!after.slot(i, j).spec_eligible_for_terminal());
    }
}

/// A deposit refuses to repeat: once a deposit moved the caller's slot to
/// `Paid`, a second deposit by the same caller is refused and, by the
/// deposit contract, leaves the ledger unchanged.
pub proof fn lemma_deposit_refuses_second_deposit(
    before: GameSession,
    after: GameSession,
    target: Address,
)
    requires
        before.has_player(target),
        before.slot_updated(after, target, PlayerState::Paid),
    ensures
        after.refuses_deposit(target),
{
    lemma_moved_slot_refuses(before, after, target, PlayerState::Paid);
}

/// A payout is write-once: once it moved the target's slot to `Rewarded`,
/// a second payout — and a refund, and a deposit — on that slot is refused.
pub proof fn lemma_payout_is_write_once(
    before: GameSession,
    after: GameSession,
    target: Address,
)
    requires
        before.has_player(target),
        before.slot_updated(after, target, PlayerState::Rewarded),
    ensures
        after.refuses_terminal(target),
        after.refuses_deposit(target),
{
    lemma_moved_slot_refuses(before, after, target, PlayerState::Rewarded);
}

/// A refund is write-once: once it moved the target's slot to `Refunded`,
/// a second refund — and a payout, and a deposit — on that slot is refused.
pub proof fn lemma_refund_is_write_once(
    before: GameSession,
    after: GameSession,
    target: Address,
)
    requires
        before.has_player(target),
        before.slot_updated(after, target, PlayerState::Refunded),
    ensures
        after.refuses_terminal(target),
        after.refuses_deposit(target),
{
    lemma_moved_slot_refuses(before, after, target, PlayerState::Refunded);
}

} // verus!
