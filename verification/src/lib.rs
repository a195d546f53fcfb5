//! A multi-party authorization core: a group of members jointly controls a
//! shared treasury by creating proposals, voting on them under a quorum rule,
//! and finalizing the outcome once a threshold or deadline is reached.
//!
//! The crate holds the record model, the fixed-width record codec, and the
//! state-transition rules that gate every operation. The host runtime that
//! stores records, verifies signatures, derives addresses and supplies the
//! clock sits outside this crate and hands every operation plain values.

pub mod dispatch;
pub mod errors;
pub mod state;
pub mod codec;
pub mod config;
pub mod laws;
pub mod proposal;
pub mod receipt;
