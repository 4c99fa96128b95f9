use referee_core::deposit;
use referee_core::errors::DepositError;
use referee_core::errors::TransferError;
use referee_core::initialize_session;
use referee_core::instructions::deposit::Deposit;
use referee_core::instructions::initialize_game_session::InitializeGameSession;
use referee_core::instructions::transfer::Transfer;
use referee_core::payout;
use referee_core::refund;
use referee_core::requests::AssetAccount;
use referee_core::state::address::Address;
use referee_core::state::game_session::GameSession;
use referee_core::state::player::PlayerState;
use referee_core::state::program_config::ProgramConfig;

fn addr(n: u128) -> Address {
    Address { hi: 0, lo: n }
}

const ORGANIZER: u128 = 10;
const MINT: u128 = 20;

/// A fresh two-teams-of-two session from the worked example: entry cost 100,
/// six asset decimals, 500 basis points.
fn example_session() -> GameSession {
    let ctx = InitializeGameSession {
        game: addr(ORGANIZER),
        mint: addr(MINT),
        mint_decimals: 6,
        program_config: ProgramConfig {
            admin: addr(1),
            protocol_ata: addr(2),
            fee_basis_points: 500,
            bump: 254,
        },
    };
    let teams = vec![vec![addr(100), addr(101)], vec![addr(102), addr(103)]];
    let (session, _) = initialize_session(&ctx, 7, 100, teams, 253).expect("valid input");
    session
}

fn deposited(player: u128, session: GameSession) -> GameSession {
    let mut ctx = Deposit { player: addr(player), game_session: session };
    deposit(&mut ctx).expect("deposit accepted").expect("player holds a slot");
    ctx.game_session
}

#[test]
fn deposit_marks_the_slot_paid() {
    let mut ctx = Deposit { player: addr(102), game_session: example_session() };
    let request = deposit(&mut ctx).expect("first deposit").expect("player holds a slot");
    assert_eq!(request.from, AssetAccount::Player(addr(102)));
    assert_eq!(request.to, AssetAccount::Vault);
    assert_eq!(request.mint, addr(MINT));
    assert_eq!(request.amount, 50_000_000);
    assert_eq!(ctx.game_session.teams[1][0].state, PlayerState::Paid);
    // Every other slot is untouched.
    assert_eq!(ctx.game_session.teams[0][0].state, PlayerState::Unpaid);
    assert_eq!(ctx.game_session.teams[0][1].state, PlayerState::Unpaid);
    assert_eq!(ctx.game_session.teams[1][1].state, PlayerState::Unpaid);
}

#[test]
fn whole_team_can_deposit() {
    let session = deposited(101, deposited(100, example_session()));
    assert_eq!(session.teams[0][0].state, PlayerState::Paid);
    assert_eq!(session.teams[0][1].state, PlayerState::Paid);
}

#[test]
fn second_deposit_is_refused_and_changes_nothing() {
    let session = deposited(100, example_session());
    let before = session.clone();
    let mut ctx = Deposit { player: addr(100), game_session: session };
    let r = deposit(&mut ctx);
    assert_eq!(r.unwrap_err(), DepositError::PlayerAlreadyPaid);
    assert_eq!(ctx.game_session, before);
}

#[test]
fn unknown_caller_deposits_nothing() {
    let before = example_session();
    let mut ctx = Deposit { player: addr(999), game_session: before.clone() };
    let r = deposit(&mut ctx).expect("no failure for unknown callers");
    assert_eq!(r, None);
    assert_eq!(ctx.game_session, before);
}

#[test]
fn payout_needs_a_deposit_first() {
    let mut ctx = Transfer {
        game: addr(ORGANIZER),
        player: addr(100),
        game_session: example_session(),
    };
    let r = payout(&mut ctx);
    assert_eq!(r.unwrap_err(), TransferError::PlayerNotEligibleForPayout);
}

#[test]
fn payout_pays_winnings_and_is_write_once() {
    let session = deposited(100, example_session());
    let mut ctx = Transfer { game: addr(ORGANIZER), player: addr(100), game_session: session };
    let request = payout(&mut ctx).expect("eligible").expect("player holds a slot");
    // (100_000_000 * 2 - 10_000_000) / 2.
    assert_eq!(request.amount, 95_000_000);
    assert_eq!(request.from, AssetAccount::Vault);
    assert_eq!(request.to, AssetAccount::Player(addr(100)));
    assert_eq!(ctx.game_session.teams[0][0].state, PlayerState::Rewarded);
    let before = ctx.game_session.clone();
    let r = payout(&mut ctx);
    assert_eq!(r.unwrap_err(), TransferError::PlayerNotEligibleForPayout);
    assert_eq!(ctx.game_session, before);
}

#[test]
fn refund_returns_the_entry_fee() {
    let session = deposited(103, example_session());
    let mut ctx = Transfer { game: addr(ORGANIZER), player: addr(103), game_session: session };
    let request = refund(&mut ctx).expect("eligible").expect("player holds a slot");
    assert_eq!(request.amount, 50_000_000);
    assert_eq!(request.from, AssetAccount::Vault);
    assert_eq!(request.to, AssetAccount::Player(addr(103)));
    assert_eq!(ctx.game_session.teams[1][1].state, PlayerState::Refunded);
}

#[test]
fn refund_needs_a_deposit_first() {
    let mut ctx = Transfer {
        game: addr(ORGANIZER),
        player: addr(103),
        game_session: example_session(),
    };
    let r = refund(&mut ctx);
    assert_eq!(r.unwrap_err(), TransferError::PlayerNotEligibleForRefund);
}

#[test]
fn refunded_slot_is_terminal() {
    let session = deposited(100, example_session());
    let mut ctx = Transfer { game: addr(ORGANIZER), player: addr(100), game_session: session };
    refund(&mut ctx).expect("eligible").expect("player holds a slot");
    let before = ctx.game_session.clone();
    assert_eq!(refund(&mut ctx).unwrap_err(), TransferError::PlayerNotEligibleForRefund);
    assert_eq!(payout(&mut ctx).unwrap_err(), TransferError::PlayerNotEligibleForPayout);
    assert_eq!(ctx.game_session, before);
    let mut dep = Deposit { player: addr(100), game_session: ctx.game_session };
    assert_eq!(deposit(&mut dep).unwrap_err(), DepositError::PlayerAlreadyPaid);
}

#[test]
fn rewarded_slot_refuses_a_refund() {
    let session = deposited(100, example_session());
    let mut ctx = Transfer { game: addr(ORGANIZER), player: addr(100), game_session: session };
    payout(&mut ctx).expect("eligible").expect("player holds a slot");
    assert_eq!(refund(&mut ctx).unwrap_err(), TransferError::PlayerNotEligibleForRefund);
}

#[test]
fn unknown_target_is_paid_nothing() {
    let before = example_session();
    let mut ctx = Transfer {
        game: addr(ORGANIZER),
        player: addr(999),
        game_session: before.clone(),
    };
    assert_eq!(payout(&mut ctx).expect("no failure"), None);
    assert_eq!(refund(&mut ctx).expect("no failure"), None);
    assert_eq!(ctx.game_session, before);
}

#[test]
fn payout_trusts_the_organizer_on_who_won() {
    // The engine verifies no game outcome: any paid player the organizer
    // names is rewarded, whatever their team did. This is a deliberate,
    // documented trust boundary.
    let session = deposited(100, deposited(103, example_session()));
    let mut ctx = Transfer { game: addr(ORGANIZER), player: addr(103), game_session: session };
    payout(&mut ctx).expect("eligible").expect("player holds a slot");
    assert_eq!(ctx.game_session.teams[1][1].state, PlayerState::Rewarded);
    // A paid player of the other team can be rewarded beside them.
    ctx.player = addr(100);
    payout(&mut ctx).expect("eligible").expect("player holds a slot");
    assert_eq!(ctx.game_session.teams[0][0].state, PlayerState::Rewarded);
}

#[test]
fn overflowing_winnings_are_refused() {
    // A ledger whose stored pool no longer fits: the payout must fail
    // cleanly, not wrap.
    let mut session = example_session();
    session.session_entry_cost_per_team = u64::MAX;
    let session = deposited(100, session);
    let before = session.clone();
    let mut ctx = Transfer { game: addr(ORGANIZER), player: addr(100), game_session: session };
    let r = payout(&mut ctx);
    assert_eq!(r.unwrap_err(), TransferError::ArithmeticOverflow);
    assert_eq!(ctx.game_session, before);
}
