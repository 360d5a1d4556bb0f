//! A library that "recites" mantras on a background worker while the host
//! program runs.  A recitation script — optional preparation text, a sequence
//! of mantras, optional conclusion text, with repeat counts and a per-unit
//! delay — is emitted unit by unit to an output sink by a single worker
//! thread, while any thread may start or stop the worker and observe a live
//! count of completed iterations.
//!
//! The verified core is split in two:
//! - [`script`]: the immutable script data and the pure emission algorithm,
//!   which plans the exact sequence of units a recitation writes;
//! - [`miner`]: the runner state machine — shared counter, cancellation
//!   channel, and the boundary decision the worker makes between iterations.
//!
//! Spawning the worker thread, sleeping between units, and writing to the
//! sink are left to the embedding, which drives the loop with the decisions
//! and unit plans this crate proves correct.

pub mod miner;
pub mod script;

pub use miner::BoundaryCheck;
pub use miner::MantraMiner;
pub use miner::MinerError;
pub use miner::WorkerTask;
pub use script::Mantra;
pub use script::MantraView;
pub use script::Options;
pub use script::OptionsView;
