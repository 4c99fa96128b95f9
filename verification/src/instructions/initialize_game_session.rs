use vstd::prelude::*;

use crate::errors::GameSessionInitializeError;
use crate::fees;
use crate::requests::AssetAccount;
use crate::requests::TransferRequest;
use crate::state::address::Address;
use crate::state::game_session::GameSession;
use crate::state::game_session::MAX_PLAYERS_PER_TEAM;
use crate::state::game_session::MAX_TEAMS_LENGTH;
use crate::state::player::Player;
use crate::state::player::PlayerState;
use crate::state::program_config::ProgramConfig;

verus! {

/// More teams were submitted than a session can hold.
pub open spec fn spec_too_many_teams(g: Seq<Vec<Address>>) -> bool {
    g.len() > MAX_TEAMS_LENGTH
}

/// Some submitted team has more players than a team can hold.
pub open spec fn spec_team_too_big(g: Seq<Vec<Address>>) -> bool {
    exists|i: int| 0 <= i < g.len() && (#[trigger] g[i])@.len() > MAX_PLAYERS_PER_TEAM
}

/// Some submitted team differs in size from the first.
pub open spec fn spec_teams_not_same_length(g: Seq<Vec<Address>>) -> bool {
    exists|i: int| 0 <= i < g.len() && (#[trigger] g[i])@.len() != g[0]@.len()
}

/// Some submitted team has no players.
pub open spec fn spec_has_empty_team(g: Seq<Vec<Address>>) -> bool {
    exists|i: int| 0 <= i < g.len() && (#[trigger] g[i])@.len() == 0
}

/// No submitted address appears in two positions.
pub open spec fn spec_players_unique(g: Seq<Vec<Address>>) -> bool {
    forall|i: int, j: int, k: int, l: int|
        0 <= i < g.len() && 0 <= j < g[i]@.len() && 0 <= k < g.len() && 0 <= l < g[k]@.len() && (i
            != k || j != l) ==> (#[trigger] g[i]@[j]) != (#[trigger] g[k]@[l])
}

/// The first rule the submitted teams break, checked in order: the team
/// count, each team's size, equal sizes, no empty team, then unique
/// addresses. `None` when the submission is valid.
pub open spec fn spec_validation_error(g: Seq<Vec<Address>>) -> Option<
    GameSessionInitializeError,
> {
    if spec_too_many_teams(g) {
        Some(GameSessionInitializeError::TeamsToMany)
    } else if spec_team_too_big(g) {
        Some(GameSessionInitializeError::TeamToBig)
    } else if spec_teams_not_same_length(g) {
        Some(GameSessionInitializeError::TeamsNotSameLength)
    } else if spec_has_empty_team(g) {
        Some(GameSessionInitializeError::TeamNoPlayers)
    } else if !spec_players_unique(g) {
        Some(GameSessionInitializeError::PlayersNotUnique)
    } else {
        None
    }
}

/// Position (`i`, `j`) comes strictly before (`k`, `l`) in row-major order.
spec fn spec_position_before(i: int, j: int, k: int, l: int) -> bool {
    i < k || (i == k && j < l)
}

/// `target` already appears at some position strictly before (`k`, `l`).
spec fn spec_address_before(g: Seq<Vec<Address>>, target: Address, k: int, l: int) -> bool {
    exists|i: int, j: int|
        0 <= i < g.len() && 0 <= j < g[i]@.len() && spec_position_before(i, j, k, l) && (
        #[trigger] g[i]@[j]) == target
}

/// All positions strictly before (`k`, `l`) hold pairwise distinct
/// addresses.
spec fn spec_prefix_unique(g: Seq<Vec<Address>>, k: int, l: int) -> bool {
    forall|i: int, j: int, x: int, y: int|
        0 <= i < g.len() && 0 <= j < g[i]@.len() && 0 <= x < g.len() && 0 <= y < g[x]@.len()
            && spec_position_before(i, j, k, l) && spec_position_before(x, y, k, l) && (i != x || j
            != y) ==> (#[trigger] g[i]@[j]) != (#[trigger] g[x]@[y])
}

/// Scans every position strictly before (`k`, `l`) for `target`.
fn address_in_prefix(teams: &Vec<Vec<Address>>, target: Address, k: usize, l: usize) -> (r: bool)
    requires
        k < teams@.len(),
        l <= teams@[k as int]@.len(),
    ensures
        r == spec_address_before(teams@, target, k as int, l as int),
{
    let mut i: usize = 0;
    while i < k
        invariant
            k < teams@.len(),
            i <= k,
            forall|x: int, y: int|
                0 <= x < i && 0 <= y < teams@[x]@.len() ==> (#[trigger] teams@[x]@[y]) != target,
        decreases k - i,
    {
        let row_len = teams[i].len();
        let mut j: usize = 0;
        while j < row_len
            invariant
                k < teams@.len(),
                i < k,
                j <= row_len,
                row_len == teams@[i as int]@.len(),
                forall|x: int, y: int|
                    0 <= x < i && 0 <= y < teams@[x]@.len() ==> (#[trigger] teams@[x]@[y])
                        != target,
                forall|y: int| 0 <= y < j ==> (#[trigger] teams@[i as int]@[y]) != target,
            decreases row_len - j,
        {
            if teams[i][j] == target {
                return true;
            }
            j += 1;
        }
        i += 1;
    }
    let mut j: usize = 0;
    while j < l
        invariant
            k < teams@.len(),
            l <= teams@[k as int]@.len(),
            j <= l,
            forall|x: int, y: int|
                0 <= x < k && 0 <= y < teams@[x]@.len() ==> (#[trigger] teams@[x]@[y]) != target,
            forall|y: int| 0 <= y < j ==> (#[trigger] teams@[k as int]@[y]) != target,
        decreases l - j,
    {
        if teams[k][j] == target {
            return true;
        }
        j += 1;
    }
    false
}

/// Scans the whole submission for an address that appears twice.
fn find_duplicate(teams: &Vec<Vec<Address>>) -> (r: bool)
    ensures
        r == !spec_players_unique(teams@),
{
    let mut k: usize = 0;
    while k < teams.len()
        invariant
            k <= teams@.len(),
            spec_prefix_unique(teams@, k as int, 0),
        decreases teams@.len() - k,
    {
        let row_len = teams[k].len();
        let mut l: usize = 0;
        while l < row_len
            invariant
                k < teams@.len(),
                l <= row_len,
                row_len == teams@[k as int]@.len(),
                spec_prefix_unique(teams@, k as int, l as int),
            decreases row_len - l,
        {
            if address_in_prefix(teams, teams[k][l], k, l) {
                proof {
                    let g = teams@;
                    let (i, j) = choose|i: int, j: int|
                        0 <= i < g.len() && 0 <= j < g[i]@.len() && spec_position_before(
                            i,
                            j,
                            k as int,
                            l as int,
                        ) && (#[trigger] g[i]@[j]) == g[k as int]@[l as int];
                    assert(i != k as int || j != l as int);
                    assert(!spec_players_unique(g));
                }
                return true;
            }
            proof {
                let g = teams@;
                assert forall|i: int, j: int, x: int, y: int|
                    0 <= i < g.len() && 0 <= j < g[i]@.len() && 0 <= x < g.len() && 0 <= y
                        < g[x]@.len() && spec_position_before(i, j, k as int, l + 1)
                        && spec_position_before(x, y, k as int, l + 1) && (i != x || j
                        != y) implies (#[trigger] g[i]@[j]) != (#[trigger] g[x]@[y]) by {
                    if spec_position_before(i, j, k as int, l as int) && spec_position_before(
                        x,
                        y,
                        k as int,
                        l as int,
                    ) {
                    } else if i == k as int && j == l as int {
                        assert(spec_position_before(x, y, k as int, l as int));
                        if g[x]@[y] == g[k as int]@[l as int] {
                            assert(spec_address_before(g, g[k as int]@[l as int], k as int, l as int));
                        }
                    } else {
                        assert(x == k as int && y == l as int);
                        if g[i]@[j] == g[k as int]@[l as int] {
                            assert(spec_address_before(g, g[k as int]@[l as int], k as int, l as int));
                        }
                    }
                }
            }
            l += 1;
        }
        proof {
            let g = teams@;
            assert forall|i: int, j: int, x: int, y: int|
                0 <= i < g.len() && 0 <= j < g[i]@.len() && 0 <= x < g.len() && 0 <= y
                    < g[x]@.len() && spec_position_before(i, j, k + 1, 0) && spec_position_before(
                    x,
                    y,
                    k + 1,
                    0,
                ) && (i != x || j != y) implies (#[trigger] g[i]@[j]) != (#[trigger] g[x]@[y]) by {
                assert(spec_position_before(i, j, k as int, row_len as int));
                assert(spec_position_before(x, y, k as int, row_len as int));
            }
        }
        k += 1;
    }
    proof {
        let g = teams@;
        assert forall|i: int, j: int, x: int, y: int|
            0 <= i < g.len() && 0 <= j < g[i]@.len() && 0 <= x < g.len() && 0 <= y < g[x]@.len()
                && (i != x || j != y) implies (#[trigger] g[i]@[j]) != (#[trigger] g[x]@[y]) by {
            assert(spec_position_before(i, j, g.len() as int, 0));
            assert(spec_position_before(x, y, g.len() as int, 0));
        }
    }
    false
}

/// What a freshly created ledger holds, given the creating context and
/// inputs: every submitted address at its intended [team][slot] with the
/// lifecycle not started, the counts taken from the submission, and each
/// cost and fee the exact checked computation of the fee rules;
/// `fee_paid` says whether the termination fee has reached custody yet.
pub open spec fn spec_created_session(
    ctx: InitializeGameSession,
    seed: u64,
    session_entry_cost_per_team: u64,
    g: Seq<Vec<Address>>,
    bump: u8,
    fee_paid: bool,
    s: GameSession,
) -> bool {
    &&& s.seed == seed
    &&& s.game == ctx.game
    &&& s.mint == ctx.mint
    &&& Some(s.session_entry_cost_per_team) == fees::spec_normalized_cost_per_team(
        session_entry_cost_per_team,
        ctx.mint_decimals,
    )
    &&& Some(s.session_entry_cost_per_player) == fees::spec_cost_per_player(
        session_entry_cost_per_team,
        ctx.mint_decimals,
        g[0]@.len() as u64,
    )
    &&& Some(s.termination_fee) == fees::spec_termination_fee(
        session_entry_cost_per_team,
        ctx.mint_decimals,
        g.len() as u64,
        ctx.program_config.fee_basis_points,
    )
    &&& s.amount_of_teams as int == g.len()
    &&& s.players_per_team as int == g[0]@.len()
    &&& s.teams@.len() == g.len()
    &&& (forall|i: int| 0 <= i < g.len() ==> (#[trigger] s.teams@[i])@.len() == g[i]@.len())
    &&& (forall|i: int, j: int|
        0 <= i < g.len() && 0 <= j < g[i]@.len() ==> (#[trigger] s.slot(i, j)) == (Player {
            player: g[i]@[j],
            state: PlayerState::Unpaid,
        }))
    &&& s.termination_fee_paid == fee_paid
    &&& s.bump == bump
}

/// A created ledger stays created when only its termination-fee flag moves:
/// recording the fee as paid touches no other field and no slot.
pub(crate) proof fn lemma_created_session_fee_flag(
    ctx: InitializeGameSession,
    seed: u64,
    session_entry_cost_per_team: u64,
    g: Seq<Vec<Address>>,
    bump: u8,
    s0: GameSession,
    s1: GameSession,
)
    requires
        spec_created_session(ctx, seed, session_entry_cost_per_team, g, bump, false, s0),
        s1.same_params(s0),
        s1.teams == s0.teams,
        s1.termination_fee_paid,
    ensures
        spec_created_session(ctx, seed, session_entry_cost_per_team, g, bump, true, s1),
{
    assert forall|i: int| 0 <= i < g.len() implies (#[trigger] s1.teams@[i])@.len()
        == g[i]@.len() by {
        assert(s1.teams@[i] == s0.teams@[i]);
        assert(s0.teams@[i]@.len() == g[i]@.len());
    }
    assert forall|i: int, j: int| 0 <= i < g.len() && 0 <= j < g[i]@.len() implies (
    #[trigger] s1.slot(i, j)) == (Player { player: g[i]@[j], state: PlayerState::Unpaid }) by {
        assert(s1.slot(i, j) == s0.slot(i, j));
        assert(s0.slot(i, j) == Player { player: g[i]@[j], state: PlayerState::Unpaid });
    }
}

/// A session creation in flight: the authenticated organizer, the asset
/// class and its decimal precision as the host read them, and the protocol
/// configuration whose fee parameter the new session captures.
pub struct InitializeGameSession {
    /// The authenticated organizer.
    pub game: Address,
    /// The asset class the session's fees move in.
    pub mint: Address,
    /// How many decimals the asset keeps.
    pub mint_decimals: u8,
    /// The protocol configuration at creation time.
    pub program_config: ProgramConfig,
}

impl InitializeGameSession {
    /// Validates the submitted teams in order — count, team size, equal
    /// sizes, no empty team, unique addresses — and creates the ledger:
    /// every address at its [team][slot] with the lifecycle not started, the
    /// fees computed by the checked fee rules, and the termination fee not
    /// yet in custody. Each broken rule is refused with its own error, a fee
    /// computation that leaves 64 bits with `ArithmeticOverflow`, and
    /// nothing is created either way. A submission without any team at all is
    /// outside the engine's domain — a ledger always holds at least one team
    /// — so at least one team is demanded of the caller.
    pub fn initialize_game_session(
        &self,
        seed: u64,
        session_entry_cost_per_team: u64,
        teams: Vec<Vec<Address>>,
        bump: u8,
    ) -> (r: Result<GameSession, GameSessionInitializeError>)
        requires
            teams@.len() >= 1,
            self.program_config.wf(),
        ensures
            match r {
                Ok(s) => {
                    &&& spec_validation_error(teams@) == None::<GameSessionInitializeError>
                    &&& spec_created_session(
                        *self,
                        seed,
                        session_entry_cost_per_team,
                        teams@,
                        bump,
                        false,
                        s,
                    )
                    &&& s.wf()
                },
                Err(e) => match spec_validation_error(teams@) {
                    Some(v) => e == v,
                    None => {
                        &&& e == GameSessionInitializeError::ArithmeticOverflow
                        &&& (fees::spec_termination_fee(
                            session_entry_cost_per_team,
                            self.mint_decimals,
                            teams@.len() as u64,
                            self.program_config.fee_basis_points,
                        ).is_none() || fees::spec_cost_per_player(
                            session_entry_cost_per_team,
                            self.mint_decimals,
                            teams@[0]@.len() as u64,
                        ).is_none() || fees::spec_normalized_cost_per_team(
                            session_entry_cost_per_team,
                            self.mint_decimals,
                        ).is_none())
                    },
                },
            },
    {
        if teams.len() > MAX_TEAMS_LENGTH {
            return Err(GameSessionInitializeError::TeamsToMany);
        }
        let mut i: usize = 0;
        while i < teams.len()
            invariant
                i <= teams@.len(),
                !spec_too_many_teams(teams@),
                forall|x: int|
                    0 <= x < i ==> (#[trigger] teams@[x])@.len() <= MAX_PLAYERS_PER_TEAM,
            decreases teams@.len() - i,
        {
            if teams[i].len() > MAX_PLAYERS_PER_TEAM {
                return Err(GameSessionInitializeError::TeamToBig);
            }
            i += 1;
        }
        let first_len = teams[0].len();
        let mut i: usize = 1;
        while i < teams.len()
            invariant
                1 <= i <= teams@.len(),
                first_len == teams@[0]@.len(),
                !spec_too_many_teams(teams@),
                !spec_team_too_big(teams@),
                forall|x: int| 0 <= x < i ==> (#[trigger] teams@[x])@.len() == teams@[0]@.len(),
            decreases teams@.len() - i,
        {
            if teams[i].len() != first_len {
                return Err(GameSessionInitializeError::TeamsNotSameLength);
            }
            i += 1;
        }
        if first_len == 0 {
            return Err(GameSessionInitializeError::TeamNoPlayers);
        }
        if find_duplicate(&teams) {
            return Err(GameSessionInitializeError::PlayersNotUnique);
        }
        let termination_fee = match fees::termination_fee(
            session_entry_cost_per_team,
            self.mint_decimals,
            teams.len() as u64,
            self.program_config.fee_basis_points,
        ) {
            None => {
                return Err(GameSessionInitializeError::ArithmeticOverflow);
            },
            Some(f) => f,
        };
        let session_entry_cost_per_player = match fees::cost_per_player(
            session_entry_cost_per_team,
            self.mint_decimals,
            first_len as u64,
        ) {
            None => {
                return Err(GameSessionInitializeError::ArithmeticOverflow);
            },
            Some(c) => c,
        };
        let entry_cost_per_team = match fees::normalized_cost_per_team(
            session_entry_cost_per_team,
            self.mint_decimals,
        ) {
            None => {
                return Err(GameSessionInitializeError::ArithmeticOverflow);
            },
            Some(n) => n,
        };
        let mut matrix: Vec<Vec<Player>> = Vec::new();
        let mut i: usize = 0;
        while i < teams.len()
            invariant
                i <= teams@.len(),
                matrix@.len() == i,
                forall|x: int|
                    0 <= x < i ==> (#[trigger] matrix@[x])@.len() == teams@[x]@.len(),
                forall|x: int, y: int|
                    0 <= x < i && 0 <= y < teams@[x]@.len() ==> (#[trigger] matrix@[x]@[y])
                        == (Player { player: teams@[x]@[y], state: PlayerState::Unpaid }),
            decreases teams@.len() - i,
        {
            let row_len = teams[i].len();
            let mut row: Vec<Player> = Vec::new();
            let mut j: usize = 0;
            while j < row_len
                invariant
                    i < teams@.len(),
                    j <= row_len,
                    row_len == teams@[i as int]@.len(),
                    row@.len() == j,
                    forall|y: int|
                        0 <= y < j ==> (#[trigger] row@[y]) == (Player {
                            player: teams@[i as int]@[y],
                            state: PlayerState::Unpaid,
                        }),
                decreases row_len - j,
            {
                row.push(Player { player: teams[i][j], state: PlayerState::Unpaid });
                j += 1;
            }
            matrix.push(row);
            i += 1;
        }
        let session = GameSession {
            seed,
            game: self.game,
            mint: self.mint,
            session_entry_cost_per_team: entry_cost_per_team,
            session_entry_cost_per_player,
            amount_of_teams: teams.len() as u8,
            players_per_team: first_len as u8,
            teams: matrix,
            termination_fee,
            termination_fee_paid: false,
            bump,
        };
        proof {
            let g = teams@;
            assert forall|x: int, y: int, k: int, l: int|
                session.in_range(x, y) && session.in_range(k, l) && (x != k || y != l) implies (
            #[trigger] session.slot(x, y)).player != (#[trigger] session.slot(k, l)).player by {
                assert(session.slot(x, y).player == g[x]@[y]);
                assert(session.slot(k, l).player == g[k]@[l]);
                assert(g[x]@[y] != g[k]@[l]);
            }
        }
        Ok(session)
    }

    /// Hands the host the request that moves the organizer's termination fee
    /// into custody, and records it as paid. The host performs the transfer
    /// before committing the ledger: a session whose fee transfer failed is
    /// never observable, and a committed session has paid its fee exactly
    /// once.
    pub fn deposit_termination_fee(&self, session: &mut GameSession) -> (r: TransferRequest)
        requires
            !old(session).termination_fee_paid,
        ensures
            final(session).termination_fee_paid,
            final(session).same_params(*old(session)),
            final(session).teams == old(session).teams,
            old(session).wf() ==> final(session).wf(),
            r == (TransferRequest {
                from: AssetAccount::Game,
                to: AssetAccount::Vault,
                mint: old(session).mint,
                amount: old(session).termination_fee,
            }),
    {
        session.termination_fee_paid = true;
        proof {
            if old(session).wf() {
                let s0 = *old(session);
                let s1 = *session;
                assert forall|i: int, j: int, k: int, l: int|
                    s1.in_range(i, j) && s1.in_range(k, l) && (i != k || j != l) implies (
                #[trigger] s1.slot(i, j)).player != (#[trigger] s1.slot(k, l)).player by {
                    assert(s1.slot(i, j) == s0.slot(i, j));
                    assert(s1.slot(k, l) == s0.slot(k, l));
                    assert(s0.slot(i, j).player != s0.slot(k, l).player);
                }
            }
        }
        TransferRequest {
            from: AssetAccount::Game,
            to: AssetAccount::Vault,
            mint: session.mint,
            amount: session.termination_fee,
        }
    }
}

} // verus!
