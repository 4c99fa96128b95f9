//! Escrow-backed, multi-team wagering sessions.
//!
//! Participants lock entry fees into a custody account; the session organizer
//! later triggers either a refund of all entries or a payout of pooled
//! winnings to individual players, and finally reclaims the custody account.
//! A fixed-basis-point termination fee is withheld and split between a
//! protocol treasury and the organizer.
//!
//! This crate is the session accounting and authorization engine alone: the
//! bounded team/player ledger, the overflow-checked fee arithmetic, and the
//! state transitions that admit or refuse deposits, refunds, payouts, and
//! closure. The host environment that embeds it owns everything else:
//! keyed-account storage, caller authentication, and the actual movement of
//! assets. Every operation here is a pure state transition that returns the
//! asset-transfer requests the host must carry out; the host commits the new
//! state only when those transfers succeed, so a failed transfer leaves the
//! ledger exactly as it was.

pub mod errors;
pub mod fees;
pub mod instructions;
pub mod laws;
pub mod requests;
pub mod state;

use vstd::prelude::*;

use crate::errors::DepositError;
use crate::errors::GameSessionCloseError;
use crate::errors::GameSessionInitializeError;
use crate::errors::ProgramConfigCode;
use crate::errors::TransferError;
use crate::instructions::close::Close;
use crate::instructions::close::CloseAction;
use crate::instructions::close::spec_may_close;
use crate::instructions::close::spec_pays_organizer;
use crate::instructions::close::spec_protocol_fee_request;
use crate::instructions::close::spec_game_fee_request;
use crate::instructions::deposit::Deposit;
use crate::instructions::deposit::spec_entry_fee_request;
use crate::instructions::initialize_game_session::InitializeGameSession;
use crate::instructions::initialize_game_session::spec_created_session;
use crate::instructions::initialize_game_session::spec_validation_error;
use crate::instructions::initialize_program_config::InitializeProgramConfig;
use crate::instructions::transfer::Transfer;
use crate::instructions::transfer::spec_custody_payout;
use crate::instructions::transfer::spec_session_winnings;
use crate::instructions::update_program_config::UpdateProgramConfig;
use crate::requests::AssetAccount;
use crate::requests::CloseAccountRequest;
use crate::requests::TransferRequest;
use crate::state::address::Address;
use crate::state::game_session::GameSession;
use crate::state::player::PlayerState;
use crate::state::program_config::ProgramConfig;

verus! {

/// Creates a session: validates the submitted teams, builds the ledger, and
/// hands the host the termination-fee transfer from the organizer into
/// custody. The whole creation is atomic — the host publishes the returned
/// ledger, which already records the fee as paid, only once that transfer
/// has succeeded, and abandons it otherwise, so either the ledger and the
/// fee deposit both take effect or neither is observable.
pub fn initialize_session(
    ctx: &InitializeGameSession,
    seed: u64,
    session_entry_cost_per_team: u64,
    teams: Vec<Vec<Address>>,
    bump: u8,
) -> (r: Result<(GameSession, TransferRequest), GameSessionInitializeError>)
    requires
        teams@.len() >= 1,
        ctx.program_config.wf(),
    ensures
        match r {
            Ok(p) => {
                &&& spec_validation_error(teams@) == None::<GameSessionInitializeError>
                &&& spec_created_session(
                    *ctx,
                    seed,
                    session_entry_cost_per_team,
                    teams@,
                    bump,
                    true,
                    p.0,
                )
                &&& p.0.wf()
                &&& p.1 == (TransferRequest {
                    from: AssetAccount::Game,
                    to: AssetAccount::Vault,
                    mint: ctx.mint,
                    amount: p.0.termination_fee,
                })
            },
            Err(e) => match spec_validation_error(teams@) {
                Some(v) => e == v,
                None => {
                    &&& e == GameSessionInitializeError::ArithmeticOverflow
                    &&& (fees::spec_termination_fee(
                        session_entry_cost_per_team,
                        ctx.mint_decimals,
                        teams@.len() as u64,
                        ctx.program_config.fee_basis_points,
                    ).is_none() || fees::spec_cost_per_player(
                        session_entry_cost_per_team,
                        ctx.mint_decimals,
                        teams@[0]@.len() as u64,
                    ).is_none() || fees::spec_normalized_cost_per_team(
                        session_entry_cost_per_team,
                        ctx.mint_decimals,
                    ).is_none())
                },
            },
        },
{
    let ghost g = teams@;
    let mut session = match ctx.initialize_game_session(
        seed,
        session_entry_cost_per_team,
        teams,
        bump,
    ) {
        Err(e) => {
            return Err(e);
        },
        Ok(s) => s,
    };
    let ghost s0 = session;
    let request = ctx.deposit_termination_fee(&mut session);
    proof {
        instructions::initialize_game_session::lemma_created_session_fee_flag(
            *ctx,
            seed,
            session_entry_cost_per_team,
            g,
            bump,
            s0,
            session,
        );
    }
    Ok((session, request))
}

/// Deposits the authenticated caller's entry fee into custody; see
/// [`Deposit::deposit_entry_fee`].
pub fn deposit(ctx: &mut Deposit) -> (r: Result<Option<TransferRequest>, DepositError>)
    requires
        old(ctx).wf(),
    ensures
        final(ctx).player == old(ctx).player,
        final(ctx).wf(),
        match r {
            Ok(opt) => {
                &&& !old(ctx).game_session.refuses_deposit(old(ctx).player)
                &&& old(ctx).game_session.slot_updated(
                    final(ctx).game_session,
                    old(ctx).player,
                    PlayerState::Paid,
                )
                &&& opt == (if old(ctx).game_session.has_player(old(ctx).player) {
                    Some(spec_entry_fee_request(old(ctx).game_session, old(ctx).player))
                } else {
                    None::<TransferRequest>
                })
            },
            Err(e) => {
                &&& e == DepositError::PlayerAlreadyPaid
                &&& old(ctx).game_session.refuses_deposit(old(ctx).player)
                &&& *final(ctx) == *old(ctx)
            },
        },
{
    ctx.deposit_entry_fee()
}

/// Refunds the target player's entry fee from custody; see
/// [`Transfer::payout_refund`].
pub fn refund(ctx: &mut Transfer) -> (r: Result<Option<TransferRequest>, TransferError>)
    requires
        old(ctx).wf(),
    ensures
        final(ctx).game == old(ctx).game,
        final(ctx).player == old(ctx).player,
        final(ctx).wf(),
        match r {
            Ok(opt) => {
                &&& !old(ctx).game_session.refuses_terminal(old(ctx).player)
                &&& old(ctx).game_session.slot_updated(
                    final(ctx).game_session,
                    old(ctx).player,
                    PlayerState::Refunded,
                )
                &&& opt == (if old(ctx).game_session.has_player(old(ctx).player) {
                    Some(
                        spec_custody_payout(
                            old(ctx).game_session,
                            old(ctx).player,
                            old(ctx).game_session.session_entry_cost_per_player,
                        ),
                    )
                } else {
                    None::<TransferRequest>
                })
            },
            Err(e) => {
                &&& e == TransferError::PlayerNotEligibleForRefund
                &&& old(ctx).game_session.refuses_terminal(old(ctx).player)
                &&& *final(ctx) == *old(ctx)
            },
        },
{
    ctx.payout_refund()
}

/// Pays the target player their winnings from custody; see
/// [`Transfer::payout_winning`].
pub fn payout(ctx: &mut Transfer) -> (r: Result<Option<TransferRequest>, TransferError>)
    requires
        old(ctx).wf(),
    ensures
        final(ctx).game == old(ctx).game,
        final(ctx).player == old(ctx).player,
        final(ctx).wf(),
        match r {
            Ok(opt) => {
                &&& !old(ctx).game_session.refuses_terminal(old(ctx).player)
                &&& old(ctx).game_session.slot_updated(
                    final(ctx).game_session,
                    old(ctx).player,
                    PlayerState::Rewarded,
                )
                &&& (old(ctx).game_session.has_player(old(ctx).player) ==> {
                    &&& spec_session_winnings(old(ctx).game_session).is_some()
                    &&& opt == Some(
                        spec_custody_payout(
                            old(ctx).game_session,
                            old(ctx).player,
                            spec_session_winnings(old(ctx).game_session).unwrap(),
                        ),
                    )
                })
                &&& (!old(ctx).game_session.has_player(old(ctx).player) ==> opt
                    == None::<TransferRequest>)
            },
            Err(e) => {
                &&& *final(ctx) == *old(ctx)
                &&& (e == TransferError::PlayerNotEligibleForPayout <==> old(
                    ctx,
                ).game_session.refuses_terminal(old(ctx).player))
                &&& (e == TransferError::ArithmeticOverflow <==> {
                    &&& !old(ctx).game_session.refuses_terminal(old(ctx).player)
                    &&& old(ctx).game_session.has_player(old(ctx).player)
                    &&& spec_session_winnings(old(ctx).game_session).is_none()
                })
                &&& (e == TransferError::PlayerNotEligibleForPayout || e
                    == TransferError::ArithmeticOverflow)
            },
        },
{
    ctx.payout_winning()
}

/// Closes the session, paying out the withheld termination fees and
/// reclaiming the custody account; see [`Close::close_game_session`].
pub fn close(ctx: &Close) -> (r: Result<CloseAction, GameSessionCloseError>)
    requires
        ctx.wf(),
    ensures
        match r {
            Ok(a) => {
                &&& spec_may_close(ctx.game_session)
                &&& a.protocol_fee == spec_protocol_fee_request(ctx.game_session)
                &&& a.organizer_fee == (if spec_pays_organizer(
                    ctx.game_session,
                    ctx.vault_amount,
                ) {
                    Some(spec_game_fee_request(ctx.game_session))
                } else {
                    None::<TransferRequest>
                })
                &&& a.close_vault == (CloseAccountRequest {
                    account: AssetAccount::Vault,
                    destination: AssetAccount::Game,
                })
            },
            Err(e) => {
                &&& e == GameSessionCloseError::PlayersNotPaidOut
                &&& !spec_may_close(ctx.game_session)
            },
        },
{
    ctx.close_game_session()
}

/// Creates the protocol configuration; see
/// [`InitializeProgramConfig::initialize_program_config`].
pub fn initialize_program_config(
    ctx: &InitializeProgramConfig,
    fee_basis_points: u64,
    bump: u8,
) -> (r: Result<ProgramConfig, ProgramConfigCode>)
    requires
        ctx.wf(),
    ensures
        match r {
            Ok(c) => {
                &&& fee_basis_points < 10000
                &&& c == (ProgramConfig {
                    admin: ctx.authority,
                    protocol_ata: ctx.protocol_ata,
                    fee_basis_points,
                    bump,
                })
                &&& c.wf()
            },
            Err(e) => {
                &&& e == ProgramConfigCode::FeeBasisPointsTooHigh
                &&& fee_basis_points >= 10000
            },
        },
{
    ctx.initialize_program_config(fee_basis_points, bump)
}

/// Overwrites the protocol configuration's fee parameter; see
/// [`UpdateProgramConfig::update_program_config`].
pub fn update_program_config(ctx: &mut UpdateProgramConfig, fee_basis_points: u64) -> (r: Result<
    (),
    ProgramConfigCode,
>)
    requires
        old(ctx).wf(),
    ensures
        final(ctx).authority == old(ctx).authority,
        final(ctx).wf(),
        match r {
            Ok(()) => {
                &&& fee_basis_points < 10000
                &&& final(ctx).program_config == (ProgramConfig {
                    fee_basis_points,
                    ..old(ctx).program_config
                })
            },
            Err(e) => {
                &&& e == ProgramConfigCode::FeeBasisPointsTooHigh
                &&& fee_basis_points >= 10000
                &&& final(ctx).program_config == old(ctx).program_config
            },
        },
{
    ctx.update_program_config(fee_basis_points)
}

} // verus!
