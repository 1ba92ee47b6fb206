//! Hash-time-locked escrow for cross-ledger atomic swaps.
//!
//! Two parties exchange value across two ledgers that know nothing of each
//! other. On each ledger an escrow holds one side of the swap behind a
//! hashlock and three time windows; a factory creates the escrows, one for
//! each order.
//!
//! The library decides; it does not act. What the host ledger knows (who
//! calls, what time it is, what value is attached) comes in as a
//! [`CallContext`]; what the ledger is to do comes out as a [`Transfer`] or a
//! [`CreationPlan`].

pub mod account;
pub mod error;
pub mod escrow;
pub mod factory;
pub mod hashlock;
pub mod registry;
pub mod swap;
pub mod timelocks;

pub use account::AccountId;
pub use error::EscrowError;
pub use escrow::{Escrow, EscrowState};
pub use factory::{CreationPlan, CreationStatus, EscrowFactory, EscrowInfo};
pub use hashlock::CryptoUtils;
pub use registry::Registry;
pub use swap::{
    calculate_storage_deposit, Balance, CallContext, EscrowImmutables, EscrowType, Transfer,
};
pub use timelocks::{Timelocks, Timestamp};
