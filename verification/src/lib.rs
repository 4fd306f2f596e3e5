//! A covered-option escrow: one option position, held by a neutral custodian,
//! moved through its lifecycle by commands that are each checked against the
//! stored record before anything is written or paid.

pub mod coin;
pub mod contract;
pub mod error;
pub mod laws;
pub mod model;
pub mod msg;
pub mod state;
