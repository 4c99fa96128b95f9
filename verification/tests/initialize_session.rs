use referee_core::errors::GameSessionInitializeError;
use referee_core::initialize_session;
use referee_core::instructions::initialize_game_session::InitializeGameSession;
use referee_core::requests::AssetAccount;
use referee_core::state::address::Address;
use referee_core::state::player::PlayerState;
use referee_core::state::program_config::ProgramConfig;

fn addr(n: u128) -> Address {
    Address { hi: 0, lo: n }
}

fn config() -> ProgramConfig {
    ProgramConfig { admin: addr(1), protocol_ata: addr(2), fee_basis_points: 500, bump: 254 }
}

fn ctx() -> InitializeGameSession {
    InitializeGameSession {
        game: addr(10),
        mint: addr(20),
        mint_decimals: 6,
        program_config: config(),
    }
}

#[test]
fn initialize_places_every_player() {
    let teams = vec![vec![addr(100), addr(101)], vec![addr(102), addr(103)]];
    let (session, fee_request) =
        initialize_session(&ctx(), 7, 100, teams.clone(), 253).expect("valid input");
    assert_eq!(session.seed, 7);
    assert_eq!(session.game, addr(10));
    assert_eq!(session.mint, addr(20));
    assert_eq!(session.amount_of_teams, 2);
    assert_eq!(session.players_per_team, 2);
    assert_eq!(session.bump, 253);
    assert!(session.termination_fee_paid);
    for i in 0..2 {
        for j in 0..2 {
            assert_eq!(session.teams[i][j].player, teams[i][j]);
            assert_eq!(session.teams[i][j].state, PlayerState::Unpaid);
        }
    }
    // The worked example: 100 * 10^2 * 2 * 500 and (100 * 10^6) / 2.
    assert_eq!(session.termination_fee, 10_000_000);
    assert_eq!(session.session_entry_cost_per_player, 50_000_000);
    assert_eq!(session.session_entry_cost_per_team, 100_000_000);
    assert_eq!(fee_request.from, AssetAccount::Game);
    assert_eq!(fee_request.to, AssetAccount::Vault);
    assert_eq!(fee_request.mint, addr(20));
    assert_eq!(fee_request.amount, 10_000_000);
}

#[test]
fn three_teams_are_rejected() {
    let teams = vec![vec![addr(100)], vec![addr(101)], vec![addr(102)]];
    let r = initialize_session(&ctx(), 7, 100, teams, 253);
    assert_eq!(r.unwrap_err(), GameSessionInitializeError::TeamsToMany);
}

#[test]
fn oversized_team_is_rejected() {
    let teams = vec![vec![addr(100), addr(101), addr(102), addr(103), addr(104), addr(105)]];
    let r = initialize_session(&ctx(), 7, 100, teams, 253);
    assert_eq!(r.unwrap_err(), GameSessionInitializeError::TeamToBig);
}

#[test]
fn mismatched_team_sizes_are_rejected() {
    let teams = vec![vec![addr(100), addr(101), addr(102)], vec![addr(103), addr(104)]];
    let r = initialize_session(&ctx(), 7, 100, teams, 253);
    assert_eq!(r.unwrap_err(), GameSessionInitializeError::TeamsNotSameLength);
}

#[test]
fn empty_teams_are_rejected() {
    let teams: Vec<Vec<Address>> = vec![vec![], vec![]];
    let r = initialize_session(&ctx(), 7, 100, teams, 253);
    assert_eq!(r.unwrap_err(), GameSessionInitializeError::TeamNoPlayers);
}

#[test]
fn duplicate_player_across_teams_is_rejected() {
    let teams = vec![vec![addr(100), addr(101)], vec![addr(100), addr(102)]];
    let r = initialize_session(&ctx(), 7, 100, teams, 253);
    assert_eq!(r.unwrap_err(), GameSessionInitializeError::PlayersNotUnique);
}

#[test]
fn duplicate_player_inside_one_team_is_rejected() {
    let teams = vec![vec![addr(100), addr(100)], vec![addr(101), addr(102)]];
    let r = initialize_session(&ctx(), 7, 100, teams, 253);
    assert_eq!(r.unwrap_err(), GameSessionInitializeError::PlayersNotUnique);
}

#[test]
fn fee_overflow_is_rejected() {
    let teams = vec![vec![addr(100)], vec![addr(101)]];
    let r = initialize_session(&ctx(), 7, u64::MAX, teams, 253);
    assert_eq!(r.unwrap_err(), GameSessionInitializeError::ArithmeticOverflow);
}

#[test]
fn too_few_asset_decimals_are_rejected() {
    let mut c = ctx();
    c.mint_decimals = 2;
    let teams = vec![vec![addr(100)], vec![addr(101)]];
    let r = initialize_session(&c, 7, 100, teams, 253);
    assert_eq!(r.unwrap_err(), GameSessionInitializeError::ArithmeticOverflow);
}

#[test]
fn validation_order_puts_team_count_first() {
    // Three teams of unequal, oversized shapes: the count is checked first.
    let teams = vec![
        vec![addr(100), addr(101), addr(102), addr(103), addr(104), addr(105)],
        vec![addr(106)],
        vec![addr(106)],
    ];
    let r = initialize_session(&ctx(), 7, 100, teams, 253);
    assert_eq!(r.unwrap_err(), GameSessionInitializeError::TeamsToMany);
}

#[test]
fn single_team_session_initializes() {
    let teams = vec![vec![addr(100), addr(101), addr(102)]];
    let (session, fee_request) =
        initialize_session(&ctx(), 9, 30, teams.clone(), 250).expect("valid input");
    assert_eq!(session.amount_of_teams, 1);
    assert_eq!(session.players_per_team, 3);
    // 30 * 10^2 * 1 * 500 and (30 * 10^6) / 3.
    assert_eq!(session.termination_fee, 1_500_000);
    assert_eq!(session.session_entry_cost_per_player, 10_000_000);
    assert_eq!(session.session_entry_cost_per_team, 30_000_000);
    assert_eq!(fee_request.amount, 1_500_000);
}
