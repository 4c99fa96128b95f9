//! Every failure the engine can report. All of them are immediate,
//! non-retriable rejections of the current operation: no state change is
//! kept, and the caller must resubmit after correcting the condition.

use vstd::prelude::*;

verus! {

/// Why a session could not be initialized.
#[derive(Clone, Copy, Debug, PartialEq, Eq, Structural)]
pub enum GameSessionInitializeError {
    /// More teams were submitted than a session can hold.
    TeamsToMany,
    /// Two submitted teams have different sizes.
    TeamsNotSameLength,
    /// A submitted team has more players than a team can hold.
    TeamToBig,
    /// A submitted team has no players.
    TeamNoPlayers,
    /// One address appears in two player slots.
    PlayersNotUnique,
    /// The host could not move the termination fee into custody; the whole
    /// initialization is abandoned and no ledger is kept.
    TerminationFeeDepositFailed,
    /// A fee computation does not fit in 64 bits.
    ArithmeticOverflow,
}

impl GameSessionInitializeError {
    /// A short text for the caller.
    pub fn message(&self) -> &'static str {
        match self {
            GameSessionInitializeError::TeamsToMany => "Cannot initialize, too many teams",
            GameSessionInitializeError::TeamsNotSameLength => "Cannot initialize, teams are not the same length",
            GameSessionInitializeError::TeamToBig => "Cannot initialize, team has to many players",
            GameSessionInitializeError::TeamNoPlayers => "Cannot initialize, team has no players",
            GameSessionInitializeError::PlayersNotUnique => "Cannot initialize, players not unique",
            GameSessionInitializeError::TerminationFeeDepositFailed => "Termination fee transfer failed",
            GameSessionInitializeError::ArithmeticOverflow => "Fee computation overflowed",
        }
    }
}

/// Why a deposit was refused.
#[derive(Clone, Copy, Debug, PartialEq, Eq, Structural)]
pub enum DepositError {
    /// The caller's slot already left the `Unpaid` state.
    PlayerAlreadyPaid,
}

impl DepositError {
    /// A short text for the caller.
    pub fn message(&self) -> &'static str {
        match self {
            DepositError::PlayerAlreadyPaid => "Player already paid",
        }
    }
}

/// Why a session could not be closed.
#[derive(Clone, Copy, Debug, PartialEq, Eq, Structural)]
pub enum GameSessionCloseError {
    /// Neither are all slots refunded nor is any one team fully rewarded.
    PlayersNotPaidOut,
}

impl GameSessionCloseError {
    /// A short text for the caller.
    pub fn message(&self) -> &'static str {
        match self {
            GameSessionCloseError::PlayersNotPaidOut => "Cannot close, players not paid out",
        }
    }
}

/// Why a refund or payout was refused.
#[derive(Clone, Copy, Debug, PartialEq, Eq, Structural)]
pub enum TransferError {
    /// The target slot is not in the `Paid` state.
    PlayerNotEligibleForRefund,
    /// The target slot is not in the `Paid` state.
    PlayerNotEligibleForPayout,
    /// The winnings computation does not fit in 64 bits.
    ArithmeticOverflow,
}

impl TransferError {
    /// A short text for the caller.
    pub fn message(&self) -> &'static str {
        match self {
            TransferError::PlayerNotEligibleForRefund => "Player not eligible for refund",
            TransferError::PlayerNotEligibleForPayout => "Player not eligible for payout",
            TransferError::ArithmeticOverflow => "Winnings computation overflowed",
        }
    }
}

/// Why the protocol configuration was refused.
#[derive(Clone, Copy, Debug, PartialEq, Eq, Structural)]
pub enum ProgramConfigCode {
    /// The fee parameter reached 10000 basis points or more.
    FeeBasisPointsTooHigh,
}

impl ProgramConfigCode {
    /// A short text for the caller.
    pub fn message(&self) -> &'static str {
        match self {
            ProgramConfigCode::FeeBasisPointsTooHigh => "Fee basis points too high",
        }
    }
}

} // verus!
