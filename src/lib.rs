//! Request dispatch for payout operations: flow tags, authentication
//! strategies, the per-request pipeline that runs a handler only after
//! authentication, the payout creation stages, and the uniform response
//! envelope.

pub mod flow;
pub mod outcome;
pub mod auth;
pub mod pipeline;
pub mod payouts;
