//! A multi-party approval (multisig) governance engine.
//!
//! A bounded, named set of parties gates administrative changes and fund
//! movements behind a quorum of approvals. Board members and proposers create
//! actions, board members sign them, and once the number of approvers whose
//! role is still valid reaches the quorum, the action's effect is applied
//! exactly once and its record retired.
//!
//! The engine itself is pure state: caller identities arrive as plain
//! values from the entry layer, and outbound transfers are handed back to it
//! as instructions rather than dispatched here.

pub mod action;
pub mod multisig_state;
pub mod multisig_propose;
pub mod multisig_sign;
pub mod multisig_perform;
pub mod laws;
