//! SSL/TLS sessions on Secure Transport: the decisions, without the calls.
//!
//! Secure Transport does the cryptography. What is left to its users is a
//! good deal of care: which settings a session is given and in which order,
//! how a handshake that pauses goes on, when a server's certificate is good
//! enough, how bytes move over the user's stream, and which of several errors
//! is the one to report. This library holds that part, and each function
//! states in its contract what it decides.
//!
//! Nothing here calls the platform. An operation that needs it is a value
//! (see [`operation::Operation`]): it says which call comes next, and goes on
//! with the reply. Handshakes have steps of their own, because the stream is
//! in the platform's hands while it attempts one.
//!
//! - [`base`], [`types`]: statuses, errors and plain values.
//! - [`platform`], [`operation`]: calls, replies, and what operations are.
//! - [`context`]: what can be set on a session and asked of one.
//! - [`connection`]: the user's stream, and how bytes move over it.
//! - [`stream`]: sessions over a stream.
//! - [`trust`]: the judgement on a server's certificate.
//! - [`client`], [`handshake`]: the client side.
//! - [`server`]: the server side.
//! - [`session_laws`], [`stream_laws`], [`client_laws`]: what holds of the
//!   operations, whatever they return.
pub mod base;
pub mod client;
pub mod client_laws;
pub mod connection;
pub mod context;
pub mod handshake;
pub mod operation;
pub mod platform;
pub mod server;
pub mod session_laws;
pub mod stream;
pub mod stream_laws;
pub mod trust;
pub mod types;
