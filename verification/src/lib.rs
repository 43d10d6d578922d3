//! Arbitration between a local and a remote execution of one build command.
//!
//! A command may be handed to a local runner, to a remote execution service,
//! or to both. This crate holds the rules that decide which of the two
//! attempts is authoritative: the single-winner claim, the cooperative
//! cancellation flag of the local attempt, the admission filter that bounds the
//! number of concurrent races, and the state machine that sequences an
//! attempt, its release and the fallback to the other side.
//!
//! Everything here is sequential and total. The executors themselves, and the
//! suspension points between their steps, belong to the caller: it performs
//! the action that a transition names and reports back what happened.
//!
//! Around these rules stand the configuration that selects them, the
//! attribute values of configured targets with their sum, and the tracker of
//! the spans that the build reports while it runs.

pub mod attrs;
pub mod claim;
pub mod executor_config;
pub mod hybrid;
pub mod linked_keys;
pub mod liveliness_manager;
pub mod low_pass_filter;
pub mod preference;
pub mod re_claim;
pub mod result;
pub mod span_tracker;
