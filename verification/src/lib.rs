//! Revertible-action core of an installer that mutates host service
//! registration: a plan/execute/revert lifecycle over actions that can be
//! previewed, applied, persisted mid-install, and undone.
//!
//! The lifecycle decisions are verified here. The external side effects a
//! step asks for (a file write, an init-system control command) are returned
//! as plain values; an unverified driver performs them and hands the outcome
//! back to the next step.

pub mod action;
pub mod configure;
pub mod descriptor;
pub mod init;
