//! A verified model of a blockchain contract-call pipeline: typed on-chain
//! identifiers parsed from hexadecimal text, the exact diagnostic strings
//! produced when a step of the pipeline fails, and a session state machine
//! that sequences the pipeline's outside steps and aborts on the first error.

pub mod diag;
pub mod hexid;
pub mod plan;
pub mod session;
