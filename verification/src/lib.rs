//! Decisions of a tool that pins a path to IPFS and publishes the
//! resulting content identifier in a DNSLINK record.
//!
//! Nothing here talks to a network. Each remote answer is handed in as a
//! plain value and each remote request is handed out as one.

pub mod config;
pub mod dnslinkers;
pub mod pinners;
pub mod report;
pub mod text;
