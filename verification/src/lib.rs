//! A shared treasury: spending proposals, and the payouts that approved proposals
//! trigger, paid at once or in installments at later blocks.
//!
//! A [`Pallet`] keeps the proposals and the queue of pending payouts. What it cannot
//! do itself it asks of the runtime that hosts it, through [`Config`]: moving funds,
//! telling whether a caller is the governance, pricing assets. It reaches the runtime
//! only through a `Host`, which keeps the record of every question and answer. The
//! pallet promises nothing about the runtime's answers; its contracts say what it
//! asked, in which order, and what it made of each answer.
//!
//! - `types`, `proposal`, `bounded`: the data.
//! - `percent`, `account`: percentage arithmetic and the treasury's account.
//! - `planner`: what a payout policy pays, and when.
//! - `registry`, `queue`: the proposals and the pending payouts.
//! - `config`, `host`: what a runtime provides, and the record of what it was asked.
//! - `model`: the state as the contracts see it, and what each operation does.
//! - `pallet`: the operations.
//! - `laws`: what holds across operations.

pub mod account;
pub mod benchmarking;
pub mod bounded;
pub mod config;
pub mod host;
pub mod laws;
pub mod model;
pub mod pallet;
pub mod percent;
pub mod planner;
pub mod proposal;
pub mod queue;
pub mod registry;
pub mod types;

pub use crate::benchmarking::BenchmarkHelper;
pub use crate::config::{AssetPriceLookup, Config};
pub use crate::pallet::Pallet;
pub use crate::proposal::{Event, SpendingProposal};
pub use crate::types::{
    Error, GenesisConfig, HoldReason, NumOfPeriodicPayouts, Origin, PayoutType,
    PeriodicPayoutInstance, PeriodicPayoutPercentage,
};
