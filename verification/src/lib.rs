//! Activity capture and persistence core of a desktop activity monitor.
//!
//! The crate holds the input counter ring, the focus-session state machine
//! with idle detection, the hash chain and daily Merkle commitment over the
//! persisted sessions, and the rules the poller and the query layer apply.
//! Verus proves every executable function against its contract. The
//! functions of the counter ring have none: what an atomic counter holds
//! depends on the threads that share it, and is stated on a model of the
//! operations instead.
//!
//! The crate reads no clock and touches no file, database or socket: every
//! operation takes the instant at which it happens, and what is to be stored
//! comes out as plain rows. The calls into other crates (SHA-256, Ed25519,
//! base64, hex, calendar formatting) stand behind small functions whose
//! contracts are taken on trust; each says so in its documentation.

pub mod activity_store;
pub mod aggregator;
pub mod bootstrap;
pub mod counters;
pub mod hashing;
pub mod keys;
pub mod media;
pub mod merkle;
pub mod pattern;
pub mod persist;
pub mod poller;
pub mod query;
pub mod responses;
pub mod signing;
pub mod text;
pub mod time;
pub mod types;
