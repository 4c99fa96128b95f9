use vstd::prelude::*;

use crate::state::address::Address;
use crate::state::player::Player;
use crate::state::player::PlayerState;

verus! {

/// The most teams a session can hold.
pub const MAX_TEAMS_LENGTH: usize = 2;

/// The most players a team can hold.
pub const MAX_PLAYERS_PER_TEAM: usize = 5;

/// The per-session ledger: the team/player matrix with each slot's lifecycle
/// state, the cost and fee parameters captured at creation time, and whether
/// the organizer's termination fee has reached custody. The host stores one
/// record per (organizer, seed) pair; this engine only ever sees and returns
/// whole values of it.
#[derive(Clone, Debug, PartialEq, Eq)]
pub struct GameSession {
    /// The discriminating seed under which the host stores this session.
    pub seed: u64,
    /// The organizer's address.
    pub game: Address,
    /// The asset class every transfer of this session moves.
    pub mint: Address,
    /// The entry cost of one whole team, normalized to base units of the
    /// asset (the submitted cost times ten to the asset's decimals).
    pub session_entry_cost_per_team: u64,
    /// The normalized entry cost of one player: the team cost divided by the
    /// team size.
    pub session_entry_cost_per_player: u64,
    /// How many teams play; between 1 and [`MAX_TEAMS_LENGTH`].
    pub amount_of_teams: u8,
    /// How many players each team holds; between 1 and
    /// [`MAX_PLAYERS_PER_TEAM`].
    pub players_per_team: u8,
    /// The player matrix: one row per team, one slot per player.
    pub teams: Vec<Vec<Player>>,
    /// The termination fee captured at creation from the protocol
    /// configuration's basis points.
    pub termination_fee: u64,
    /// Whether the organizer's termination fee has reached custody; set
    /// exactly once, as the last step of initialization.
    pub termination_fee_paid: bool,
    /// The derivation nonce under which the host stores this record.
    pub bump: u8,
}

impl GameSession {
    /// Both indices fall inside the matrix.
    pub open spec fn in_range(self, i: int, j: int) -> bool {
        0 <= i < self.teams@.len() && 0 <= j < self.teams@[i]@.len()
    }

    /// The slot at [team `i`][position `j`].
    pub open spec fn slot(self, i: int, j: int) -> Player {
        self.teams@[i]@[j]
    }

    /// Some slot of the matrix belongs to this address.
    pub open spec fn has_player(self, target: Address) -> bool {
        exists|i: int, j: int|
            self.in_range(i, j) && (#[trigger] self.slot(i, j)).player == target
    }

    /// No two slots of the matrix share an address.
    pub open spec fn addresses_distinct(self) -> bool {
        forall|i: int, j: int, k: int, l: int|
            self.in_range(i, j) && self.in_range(k, l) && (i != k || j != l)
                ==> (#[trigger] self.slot(i, j)).player != (#[trigger] self.slot(k, l)).player
    }

    /// The ledger's invariant: the counts sit inside the fixed bounds, the
    /// matrix has exactly the promised shape, and every slot's address is
    /// unique. Initialization establishes it and every operation preserves
    /// it.
    pub open spec fn wf(self) -> bool {
        &&& 1 <= self.amount_of_teams <= MAX_TEAMS_LENGTH
        &&& 1 <= self.players_per_team <= MAX_PLAYERS_PER_TEAM
        &&& self.teams@.len() == self.amount_of_teams
        &&& (forall|i: int|
            0 <= i < self.teams@.len() ==> (#[trigger] self.teams@[i])@.len()
                == self.players_per_team)
        &&& self.addresses_distinct()
    }

    /// The fields a per-slot operation never touches: everything but the
    /// matrix and the termination-fee flag.
    pub open spec fn same_params(self, other: GameSession) -> bool {
        &&& self.seed == other.seed
        &&& self.game == other.game
        &&& self.mint == other.mint
        &&& self.session_entry_cost_per_team == other.session_entry_cost_per_team
        &&& self.session_entry_cost_per_player == other.session_entry_cost_per_player
        &&& self.amount_of_teams == other.amount_of_teams
        &&& self.players_per_team == other.players_per_team
        &&& self.termination_fee == other.termination_fee
        &&& self.bump == other.bump
    }

    /// The two matrices have the same shape, row by row.
    pub open spec fn same_shape(self, other: GameSession) -> bool {
        &&& self.teams@.len() == other.teams@.len()
        &&& (forall|i: int|
            0 <= i < self.teams@.len() ==> (#[trigger] self.teams@[i])@.len()
                == other.teams@[i]@.len())
    }

    /// `after` is this ledger with every slot belonging to `target` moved to
    /// the state `st` and nothing else changed. When no slot belongs to
    /// `target`, it says the matrix is unchanged slot for slot.
    pub open spec fn slot_updated(
        self,
        after: GameSession,
        target: Address,
        st: PlayerState,
    ) -> bool {
        &&& self.same_params(after)
        &&& self.termination_fee_paid == after.termination_fee_paid
        &&& self.same_shape(after)
        &&& (forall|i: int, j: int|
            self.in_range(i, j) ==> #[trigger] after.slot(i, j) == (if self.slot(
                i,
                j,
            ).player == target {
                Player { player: target, state: st }
            } else {
                self.slot(i, j)
            }))
    }

    /// A deposit for this address would be refused: some slot of the address
    /// has already left the `Unpaid` state.
    pub open spec fn refuses_deposit(self, target: Address) -> bool {
        exists|i: int, j: int|
            self.in_range(i, j) && (#[trigger] self.slot(i, j)).player == target
                && !self.slot(i, j).spec_eligible_for_deposit()
    }

    /// A refund or payout for this address would be refused: some slot of
    /// the address is not in the `Paid` state.
    pub open spec fn refuses_terminal(self, target: Address) -> bool {
        exists|i: int, j: int|
            self.in_range(i, j) && (#[trigger] self.slot(i, j)).player == target
                && !self.slot(i, j).spec_eligible_for_terminal()
    }

    /// Moves the slot at [`i`][`j`] to the state `st`, leaving every other
    /// slot and every other field alone. Addresses never change, so the
    /// invariant survives. Kept inside the crate: callers go through the
    /// operations, whose eligibility checks guard every lifecycle move.
    pub(crate) fn mark_slot(&mut self, i: usize, j: usize, st: PlayerState)
        requires
            old(self).wf(),
            old(self).in_range(i as int, j as int),
        ensures
            final(self).wf(),
            old(self).slot_updated(
                *final(self),
                old(self).slot(i as int, j as int).player,
                st,
            ),
    {
        let target = self.teams[i][j].player;
        let mut row = self.teams.remove(i);
        row.set(j, Player { player: target, state: st });
        let ghost row_view = row@;
        self.teams.insert(i, row);
        proof {
            let s0 = *old(self);
            let s1 = *self;
            assert(s1.teams@ =~= s0.teams@.update(i as int, self.teams@[i as int]));
            assert(row_view =~= s0.teams@[i as int]@.update(
                j as int,
                Player { player: target, state: st },
            ));
            assert forall|x: int, y: int| s0.in_range(x, y) implies #[trigger] s1.slot(x, y)
                == (if s0.slot(x, y).player == target {
                Player { player: target, state: st }
            } else {
                s0.slot(x, y)
            }) by {
                if x != i as int || y != j as int {
                    assert(s0.slot(x, y).player != s0.slot(i as int, j as int).player);
                }
            }
            assert forall|x: int, y: int, k: int, l: int|
                s1.in_range(x, y) && s1.in_range(k, l) && (x != k || y != l) implies (
            #[trigger] s1.slot(x, y)).player != (#[trigger] s1.slot(k, l)).player by {
                assert(s1.slot(x, y).player == s0.slot(x, y).player);
                assert(s1.slot(k, l).player == s0.slot(k, l).player);
                assert(s0.slot(x, y).player != s0.slot(k, l).player);
            }
        }
    }

    /// Scans the matrix for the slot holding this address.
    pub fn find_slot(&self, target: Address) -> (r: Option<(usize, usize)>)
        ensures
            match r {
                Some(p) => self.in_range(p.0 as int, p.1 as int) && self.slot(
                    p.0 as int,
                    p.1 as int,
                ).player == target,
                None => !self.has_player(target),
            },
    {
        let mut i: usize = 0;
        while i < self.teams.len()
            invariant
                i <= self.teams@.len(),
                forall|x: int, y: int|
                    0 <= x < i && 0 <= y < self.teams@[x]@.len()
                        ==> (#[trigger] self.slot(x, y)).player != target,
            decreases self.teams@.len() - i,
        {
            let row_len = self.teams[i].len();
            let mut j: usize = 0;
            while j < row_len
                invariant
                    i < self.teams@.len(),
                    j <= row_len,
                    row_len == self.teams@[i as int]@.len(),
                    forall|x: int, y: int|
                        0 <= x < i && 0 <= y < self.teams@[x]@.len()
                            ==> (#[trigger] self.slot(x, y)).player != target,
                    forall|y: int|
                        0 <= y < j ==> (#[trigger] self.slot(i as int, y)).player != target,
                decreases row_len - j,
            {
                if self.teams[i][j].player == target {
                    return Some((i, j));
                }
                j += 1;
            }
            i += 1;
        }
        None
    }
}

} // verus!
