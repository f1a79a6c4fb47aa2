//! A bridge that shows podcasts to the fediverse as ActivityPub actors: a
//! podcast can be followed, its followers get a note for each new episode
//! and for each time it goes live, and they can reply to the notes.
//!
//! This library holds what the bridge decides; a server around it does the
//! talking. The parts, from the leaves up:
//!
//! - [`text`], [`urls`], [`base64`], [`query`]: texts, URLs and listings.
//! - [`crypto_rsa`]: RSA keys, their encodings, signing and verifying.
//! - [`http_signature`]: the signature that each outgoing request carries.
//! - [`dbif`]: the tables of actors, followers and replies.
//! - [`handler`]: the keys of the podcast actors, made when first asked for.
//! - [`inbox`], [`commands`]: what an arriving activity does.
//! - [`fanout`], [`delivery`]: one signed delivery for each shared inbox.
//! - [`tracker`]: when an episode or a live item is announced.
//! - [`notes`], [`profile`], [`endpoints`], [`activity`]: the documents.
//! - [`api`], [`podcastindex`]: the questions to the podcast index and its
//!   answers.
//! - [`boost`]: records of boosts.

pub mod activity;
pub mod api;
pub mod base64;
pub mod boost;
pub mod commands;
pub mod crypto_rsa;
pub mod dbif;
pub mod delivery;
pub mod endpoints;
pub mod fanout;
pub mod handler;
pub mod http_signature;
pub mod inbox;
pub mod notes;
pub mod podcastindex;
pub mod profile;
pub mod query;
pub mod text;
pub mod tracker;
pub mod urls;
