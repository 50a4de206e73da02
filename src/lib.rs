//! Ledger logic of a commitment pool: players stake a fixed fee to join a
//! time-boxed challenge, a trusted verifier attests who completed it, and
//! after the close the forfeited stakes are split between a charity and the
//! verified players.
pub mod address;
pub mod error;
pub mod lobby;
pub mod market;
pub mod payout;

pub use address::Address;
pub use error::ErrorCode;
pub use lobby::{
    claim_winnings, create_lobby, is_authorized_verifier, join_lobby, market_phase, resolve_market,
    verify_task, Lobby,
    MarketPhase, PlayerStatus,
};
pub use market::Market;
pub use payout::{compute_payout, Payout};
