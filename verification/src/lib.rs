//! A configurable synthetic microservice, as a library.
//!
//! A service definition binds each of three entry points to a workflow: a tree
//! of functions, operations and actions that sleep, fail by chance, call other
//! instances of the service and run side by side. This crate holds the workflow
//! model, its decoder, the rules by which a workflow succeeds or fails, and the
//! text form in which a trace context travels with an outbound call. Waiting,
//! sending and random draws are left to the caller, who performs what the
//! library directs and reports back what happened.
//!
//! # Driving an evaluation
//!
//! Every level of a workflow has one function that takes an evaluation one
//! step further, from where it stands and what the driver reports to where it
//! stands next and what the driver must do:
//!
//! - [`workflow::OptionalFunction::enact`] for a request to an entry point,
//! - [`workflow::Function::enact`] for the operations of a function, in order,
//! - [`workflow::Operation::enact`] for the branches of an operation and their
//!   join,
//! - [`workflow::Action::enact`] for a nested function, a call or a sleep.
//!
//! [`rehearsal`] plays a workflow through the same steps against recorded
//! observations, and states what a workflow ends in as a whole. [`laws`] holds
//! what is proved of both.

// The workflow model and its decoder.
pub mod decode;
pub mod json;
pub mod thespian_instance;
pub mod workflow;

// The trace context and its text forms.
pub mod get_trace_id;
pub mod hex;
pub mod trace_context;

// Evaluation, one step at a time.
pub mod action;
pub mod chance;
pub mod entry;
pub mod failure;
pub mod function;
pub mod join;
pub mod operation;
pub mod outbound;
pub mod protocol;
pub mod sleep;

// Evaluation as a whole, and what holds of it.
pub mod laws;
pub mod rehearsal;
