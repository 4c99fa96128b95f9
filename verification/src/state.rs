//! The data the engine keeps per session and per deployment: addresses,
//! player slots, the session ledger, and the protocol configuration.

pub mod address;
pub mod game_session;
pub mod player;
pub mod program_config;

pub use address::Address;
pub use game_session::GameSession;
pub use game_session::MAX_PLAYERS_PER_TEAM;
pub use game_session::MAX_TEAMS_LENGTH;
pub use player::Player;
pub use player::PlayerState;
pub use program_config::ProgramConfig;
