//! A value-custody proxy: it collects incoming donations, splits each between
//! an immediate beneficiary share and a pooled distribution, and coordinates
//! two-phase withdrawal and membership-proposal workflows against a downstream
//! distribution ledger and a membership registry. A time-gated rebalancer
//! periodically halves the internal weight metric that determines payout
//! shares.
//!
//! The handlers are pure state transitions: each takes the durable proxy
//! state, the caller identity and the request data, and returns the new state
//! together with a [`msg::Response`] describing the outbound calls and audit
//! attributes. The host environment performs storage, message encoding and
//! fund transfers around them.

pub mod contract;
pub mod error;
pub mod fraction;
pub mod msg;
pub mod payment;
pub mod state;
