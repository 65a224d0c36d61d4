//! On-chain badge registration: configuration of the transaction client and the
//! confirmation state machine that follows a submitted transaction to finality.

pub mod chain;
pub mod client;
pub mod cors;
pub mod error;
pub mod felt;
pub mod poller;
pub mod replay;
pub mod transaction;

pub use chain::StarkNetChain;
pub use client::{SigningIdentity, StarkNetClient};
pub use cors::{options_handler, CORS};
pub use error::{ConfigError, ConfirmationError};
pub use felt::Felt;
pub use poller::{ConfirmationPoller, PollAction, PollEvent, PollState, QueryOutcome};
pub use replay::{replay, PollReport};
pub use transaction::{Finality, TransactionHandle, TransactionStatus};
