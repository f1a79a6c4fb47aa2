//! What the podcast index tells of feeds, episodes and live items, and what
//! its live stream sends, as plain data.

use vstd::prelude::*;

verus! {

/// A feed.
#[derive(Debug, Clone)]
pub struct PIFeed {
    pub id: u64,
    pub podcast_guid: String,
    pub medium: String,
    pub title: String,
    pub url: String,
    pub original_url: String,
    pub link: String,
    pub description: String,
    pub author: String,
    pub owner_name: String,
    pub image: String,
    pub artwork: String,
    pub episode_count: u64,
    pub funding: Option<PIFunding>,
}

/// How a feed asks for support.
#[derive(Debug, Clone)]
pub struct PIFunding {
    pub url: Option<String>,
    pub message: Option<String>,
}

/// The answer to a question for one feed.
#[derive(Debug, Clone)]
pub struct PIPodcast {
    pub status: String,
    pub feed: PIFeed,
}

/// An episode.
#[derive(Debug, Clone)]
pub struct PIItem {
    pub id: u64,
    pub title: String,
    pub link: String,
    pub description: String,
    pub guid: String,
    pub date_published: u64,
    pub date_published_pretty: String,
    pub enclosure_url: String,
    pub enclosure_type: String,
    pub duration: u64,
    pub image: String,
    pub feed_image: String,
    pub feed_url: String,
    pub podcast_guid: String,
    pub feed_id: u64,
    pub feed_itunes_id: Option<u64>,
    pub social_interact: Option<Vec<PISocialInteract>>,
    pub transcripts: Option<Vec<PITranscript>>,
}

/// A transcript of an episode.
#[derive(Debug, Clone)]
pub struct PITranscript {
    pub url: Option<String>,
    pub kind: Option<String>,
}

/// The protocol of a comment thread.
#[allow(non_camel_case_types)]
#[derive(Debug, Clone)]
pub enum PISocialInteractProtocol {
    activitypub,
    xmpp,
    bluesky,
    nostr,
    twitter,
}

/// Where an episode is discussed.
#[derive(Debug, Clone)]
pub struct PISocialInteract {
    pub uri: Option<String>,
    pub protocol: Option<PISocialInteractProtocol>,
    pub account_id: Option<String>,
    pub account_url: Option<String>,
    pub priority: Option<u64>,
}

/// The episodes of a feed, the newest first.
#[derive(Debug, Clone)]
pub struct PIEpisodes {
    pub status: String,
    pub items: Vec<PIItem>,
    pub count: u64,
}

/// The answer to a question for one episode.
#[derive(Debug, Clone)]
pub struct PIEpisode {
    pub status: String,
    pub episode: PIItem,
}

/// The live items of a feed.
#[derive(Debug, Clone)]
pub struct PILiveItems {
    pub status: String,
    pub live_items: Vec<PILiveItem>,
    pub count: u64,
    pub query: String,
    pub description: String,
}

/// A live item.
#[derive(Debug, Clone)]
pub struct PILiveItem {
    pub id: u64,
    pub title: String,
    pub link: String,
    pub description: String,
    pub guid: String,
    pub date_published: u64,
    pub date_published_pretty: String,
    pub enclosure_url: String,
    pub enclosure_type: String,
    pub start_time: Option<u64>,
    pub end_time: Option<u64>,
    pub status: String,
    pub content_link: String,
    pub image: String,
    pub feed_image: String,
    pub feed_id: u64,
    pub feed_url: String,
    pub podcast_guid: String,
    pub feed_itunes_id: Option<u64>,
}

/// A message of the live stream.
#[derive(Debug, Clone)]
pub struct SocketPayload {
    pub a: String,
    pub n: u64,
    pub o: u64,
    pub p: Vec<PodpingPayload>,
    pub t: String,
    pub v: u64,
}

/// One notice in a message of the live stream.
#[derive(Debug, Clone)]
pub struct PodpingPayload {
    pub a: String,
    pub i: String,
    pub p: Podping,
    pub t: String,
}

/// A notice that feeds changed, and why.
#[derive(Debug, Clone)]
pub struct Podping {
    pub iris: Vec<String>,
    pub medium: Option<String>,
    pub reason: String,
    pub session_id: Option<String>,
    pub timestamp_ns: Option<u64>,
    pub version: Option<String>,
}

/// The credentials for the podcast index.
#[derive(Debug, Clone)]
pub struct PIAuth {
    pub key: String,
    pub secret: String,
}

/// What the server knows of the connection that a request came by.
#[derive(Debug, Clone)]
pub struct AppState {
    pub state_thing: String,
    pub remote_ip: String,
}

} // verus!
