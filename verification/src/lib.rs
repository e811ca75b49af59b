//! Core of a conversational intake service: a form state machine that
//! collects a respondent's name, course and motivation, an operator-only
//! broadcast state machine, the validators both rely on, and an engine that
//! routes inbound chat events to the right machine.
//!
//! The chat transport, the durable store and the export formatter are
//! collaborators outside this crate; the engine consumes their answers as
//! plain values and hands back the actions they must perform.

pub mod broadcast;
pub mod engine;
pub mod form;
pub mod gate;
pub mod laws;
pub mod present;
pub mod repo;
pub mod router;
pub mod state;
pub mod store;
pub mod validate;
