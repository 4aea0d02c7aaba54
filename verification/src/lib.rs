//! A bridge between off-chain observation and a deterministic ledger.
//!
//! An off-chain task, triggered once per new ledger height, produces an
//! observation, wraps it together with the height in an unsigned
//! transaction, and submits it toward a shared transaction pool. A pure,
//! deterministic admission validator decides — from transaction content
//! alone — whether such a transaction may enter and propagate. Once an
//! admitted transaction is included by the execution path, a state
//! transition handler overwrites the single stored cell with the observation
//! and appends one event to the event stream.
//!
//! The pool itself, block production, propagation and the durable storage
//! backend are collaborators outside this crate; what stands here is the
//! logic that must be deterministic and access-controlled: the transaction
//! shape, the admission verdict, the state transition, and the per-height
//! task that builds submissions.

pub mod ledger;
pub mod runner;
pub mod transaction;
pub mod validator;
