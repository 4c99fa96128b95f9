use referee_core::close;
use referee_core::deposit;
use referee_core::errors::GameSessionCloseError;
use referee_core::initialize_session;
use referee_core::instructions::close::Close;
use referee_core::instructions::deposit::Deposit;
use referee_core::instructions::initialize_game_session::InitializeGameSession;
use referee_core::instructions::transfer::Transfer;
use referee_core::payout;
use referee_core::refund;
use referee_core::requests::AssetAccount;
use referee_core::state::address::Address;
use referee_core::state::game_session::GameSession;
use referee_core::state::program_config::ProgramConfig;

fn addr(n: u128) -> Address {
    Address { hi: 0, lo: n }
}

const ORGANIZER: u128 = 10;

fn example_session() -> GameSession {
    let ctx = InitializeGameSession {
        game: addr(ORGANIZER),
        mint: addr(20),
        mint_decimals: 6,
        program_config: ProgramConfig {
            admin: addr(1),
            protocol_ata: addr(2),
            fee_basis_points: 500,
            bump: 254,
        },
    };
    let teams = vec![vec![addr(100), addr(101)], vec![addr(102), addr(103)]];
    let (session, _) = initialize_session(&ctx, 7, 100, teams, 253).expect("valid input");
    session
}

fn deposited(player: u128, session: GameSession) -> GameSession {
    let mut ctx = Deposit { player: addr(player), game_session: session };
    deposit(&mut ctx).expect("deposit accepted").expect("player holds a slot");
    ctx.game_session
}

fn rewarded(player: u128, session: GameSession) -> GameSession {
    let mut ctx = Transfer { game: addr(ORGANIZER), player: addr(player), game_session: session };
    payout(&mut ctx).expect("eligible").expect("player holds a slot");
    ctx.game_session
}

fn refunded(player: u128, session: GameSession) -> GameSession {
    let mut ctx = Transfer { game: addr(ORGANIZER), player: addr(player), game_session: session };
    refund(&mut ctx).expect("eligible").expect("player holds a slot");
    ctx.game_session
}

#[test]
fn close_is_refused_while_nothing_is_resolved() {
    let session = deposited(100, example_session());
    let ctx = Close { game: addr(ORGANIZER), game_session: session, vault_amount: 60_000_000 };
    let r = close(&ctx);
    assert_eq!(r.unwrap_err(), GameSessionCloseError::PlayersNotPaidOut);
}

#[test]
fn close_is_refused_with_a_partly_rewarded_team() {
    let session = rewarded(100, deposited(101, deposited(100, example_session())));
    let ctx = Close { game: addr(ORGANIZER), game_session: session, vault_amount: 115_000_000 };
    let r = close(&ctx);
    assert_eq!(r.unwrap_err(), GameSessionCloseError::PlayersNotPaidOut);
}

#[test]
fn one_rewarded_team_closes_despite_a_paid_slot_elsewhere() {
    // Team A (players 100, 101) is fully rewarded; player 102 of team B is
    // still "paid", neither refunded nor rewarded. One resolved team alone
    // satisfies the closing rule.
    let mut session = example_session();
    for p in [100, 101, 102] {
        session = deposited(p, session);
    }
    session = rewarded(101, rewarded(100, session));
    let ctx = Close { game: addr(ORGANIZER), game_session: session, vault_amount: 30_000_000 };
    let action = close(&ctx).expect("one whole team is rewarded");
    assert_eq!(action.protocol_fee.from, AssetAccount::Vault);
    assert_eq!(action.protocol_fee.to, AssetAccount::Protocol);
    assert_eq!(action.protocol_fee.amount, 10_000_000);
    assert_eq!(action.organizer_fee, None);
    assert_eq!(action.close_vault.account, AssetAccount::Vault);
    assert_eq!(action.close_vault.destination, AssetAccount::Game);
}

#[test]
fn all_refunded_session_closes() {
    let mut session = example_session();
    for p in [100, 101, 102, 103] {
        session = refunded(p, deposited(p, session));
    }
    let ctx = Close { game: addr(ORGANIZER), game_session: session, vault_amount: 10_000_000 };
    let action = close(&ctx).expect("every slot is refunded");
    assert_eq!(action.protocol_fee.amount, 10_000_000);
    assert_eq!(action.organizer_fee, None);
}

#[test]
fn exact_double_fee_balance_pays_the_organizer_too() {
    let mut session = example_session();
    for p in [100, 101, 102, 103] {
        session = deposited(p, session);
    }
    session = rewarded(101, rewarded(100, session));
    // Fee 10M in, 200M of entries in, 190M of winnings out: exactly two
    // termination fees remain.
    let ctx = Close { game: addr(ORGANIZER), game_session: session, vault_amount: 20_000_000 };
    let action = close(&ctx).expect("one whole team is rewarded");
    assert_eq!(action.protocol_fee.amount, 10_000_000);
    let organizer_fee = action.organizer_fee.expect("custody holds exactly two fees");
    assert_eq!(organizer_fee.from, AssetAccount::Vault);
    assert_eq!(organizer_fee.to, AssetAccount::Game);
    assert_eq!(organizer_fee.amount, 10_000_000);
}

#[test]
fn full_session_accounting_adds_up() {
    // Run a whole session the way the host would, tracking the custody
    // balance: every request the engine hands back is performed in order.
    let ctx = InitializeGameSession {
        game: addr(ORGANIZER),
        mint: addr(20),
        mint_decimals: 6,
        program_config: ProgramConfig {
            admin: addr(1),
            protocol_ata: addr(2),
            fee_basis_points: 500,
            bump: 254,
        },
    };
    let teams = vec![vec![addr(100), addr(101)], vec![addr(102), addr(103)]];
    let (mut session, fee_request) =
        initialize_session(&ctx, 7, 100, teams, 253).expect("valid input");
    let mut vault: u64 = 0;
    vault += fee_request.amount;
    for p in [100, 101, 102, 103] {
        let mut d = Deposit { player: addr(p), game_session: session };
        let request = deposit(&mut d).expect("accepted").expect("holds a slot");
        vault += request.amount;
        session = d.game_session;
    }
    assert_eq!(vault, 210_000_000);
    for p in [100, 101] {
        let mut t = Transfer { game: addr(ORGANIZER), player: addr(p), game_session: session };
        let request = payout(&mut t).expect("eligible").expect("holds a slot");
        vault -= request.amount;
        session = t.game_session;
    }
    assert_eq!(vault, 20_000_000);
    let c = Close { game: addr(ORGANIZER), game_session: session, vault_amount: vault };
    let action = close(&c).expect("team one is rewarded");
    vault -= action.protocol_fee.amount;
    vault -= action.organizer_fee.expect("exactly two fees remain").amount;
    // The custody account is empty, so the host's reclamation succeeds.
    assert_eq!(vault, 0);
}
