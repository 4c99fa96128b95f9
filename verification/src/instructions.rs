//! The operations a session exposes, one module each: creating the protocol
//! configuration and updating it, initializing a session, depositing an
//! entry fee, paying out or refunding a player, and closing the session.

pub mod close;
pub mod deposit;
pub mod initialize_game_session;
pub mod initialize_program_config;
pub mod transfer;
pub mod update_program_config;

pub use close::Close;
pub use deposit::Deposit;
pub use initialize_game_session::InitializeGameSession;
pub use initialize_program_config::InitializeProgramConfig;
pub use transfer::Transfer;
pub use update_program_config::UpdateProgramConfig;
