//! Verified core of a trusted-setup ceremony: parameters, contributor queue
//! bookkeeping, client/server protocol decisions and wire framing.

pub mod params;
pub mod contributor;
pub mod clock;
pub mod store;
pub mod db;
pub mod queue_laws;
pub mod hexcodec;
pub mod keys;
pub mod hashing;
pub mod keypair;
pub mod error;
pub mod config;
pub mod messages;
pub mod handlers;
pub mod protocol_laws;
pub mod client;
pub mod transfer;
pub mod framing;
pub mod contribution;
pub mod storage;
pub mod cli;
pub mod report;
pub mod naming;
