//! Agent verification for a peer-to-peer relay mesh.
//!
//! Before a relay serves a peer, the peer proves that it is an autonomous
//! agent by solving a challenge. This library holds both sides of that
//! exchange:
//!
//! - [`session`]: the relay's store of pending challenges and issued tokens,
//!   with single-use challenges and tokens that expire;
//! - [`token`]: how a token is minted;
//! - [`challenge`], [`pattern`], [`questions`]: the solver that answers each
//!   task of a challenge;
//! - [`handshake`]: the agent's two round trips with the relay, as a state
//!   machine that the caller drives;
//! - [`api`], [`contact`], [`paths`]: the bodies and rules of the agent's own
//!   HTTP API;
//! - [`text`], [`keyed`]: the character-sequence and keyed-list toolkits the
//!   rest is built on.
//!
//! The library reads the clock and draws random values where a token is
//! issued, and does no other I/O. Scoring a response, applying a text operation,
//! the ratio rule of the pattern solver, sending requests and serialising
//! bodies are done by the caller, who hands the outcome in as plain values.

pub mod api;
pub mod challenge;
pub mod contact;
pub mod handshake;
pub mod keyed;
pub mod paths;
pub mod pattern;
pub mod questions;
pub mod session;
pub mod text;
pub mod token;
