//! State machine of a cross-chain asset bridge: an administrator-controlled
//! registry of bridgeable coins, burn-on-outbound / mint-on-inbound transfers,
//! and an append-only ledger of outbound transfers.
pub mod address;
pub mod contract;
pub mod msg;
pub mod state;
pub mod laws;
