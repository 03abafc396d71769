//! Authentication and session issuance for a territory-control game server.
//!
//! A login runs through an identity provider, the user directory and the
//! security gate, and ends in two cookies: a user name, which identifies, and
//! signed claims, which authorize. The modules, leaves first:
//!
//! - `hex`, `wire`: text and byte layout of the claims token;
//! - `claims`: the claims codec;
//! - `provider`: what differs between the identity providers;
//! - `directory`: the user directory;
//! - `gate`: the audit log and the login policy;
//! - `session`: the login attempt as a state machine, and the cookies;
//! - `callback`: a whole attempt, run against stores in memory;
//! - `guard`: what a request is trusted with;
//! - `reddit`, `discord`: the routes of the two providers;
//! - `player`, `team`, `territory`: what the read-only routes decide.

pub mod hex;
pub mod wire;
pub mod claims;
pub mod provider;
pub mod directory;
pub mod gate;
pub mod session;
pub mod callback;
pub mod guard;
pub mod reddit;
pub mod discord;
pub mod player;
pub mod team;
pub mod territory;
