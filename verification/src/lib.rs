//! Links chat-platform accounts to game-platform accounts, keeps the link
//! unique in both directions, and evaluates access and operator flags for a
//! linked account against live directory-group membership.
//!
//! The crate holds the decision logic: the identity store and its upsert
//! contract, the link-command state machine, classification of resolver and
//! membership responses, access evaluation, and construction of the
//! user-facing replies and the outbound notification payload. Transport
//! (HTTP, database, the chat platform's interaction channel) lives outside.

pub mod access;
pub mod api;
pub mod command;
pub mod digits;
pub mod gameid;
pub mod membership;
pub mod notify;
pub mod resolver;
pub mod store;
