//! The two trackers: one asks the index for the episodes of each followed
//! podcast and announces an episode that is new, the other listens for
//! podcasts that go live.
//!
//! What is decided stands here; the waiting, the asking and the sending are
//! the server's.

use vstd::prelude::*;
use vstd::string::*;
use crate::dbif::{
    get_actor_from_db, get_actors_from_db, get_followers_from_db, lemma_with_cursor,
    update_actor_last_episode_guid_in_db, ActorRecord, ActorRecordView, Database, DatabaseView,
};
use crate::fanout::{delivery_targets, notify, texts};
use crate::podcastindex::{PIEpisodes, PILiveItem, PILiveItems, PodpingPayload, SocketPayload};
use crate::query::lemma_filter_step;
use crate::text::str_eq;

verus! {

broadcast use vstd::string::group_string_axioms;

/// Holds of the actors that the episode tracker asks the index about: each
/// actor with a follower.
pub open spec fn is_followed(db: DatabaseView) -> spec_fn(ActorRecordView) -> bool {
    |actor: ActorRecordView| db.followers_of(actor.pcid).len() > 0
}

/// The actors with at least one follower, in the order of their ids.
pub open spec fn actors_with_followers(db: DatabaseView) -> Seq<ActorRecordView> {
    db.listed_actors().filter(is_followed(db))
}

/// The actors with at least one follower.
pub fn list_actors_with_followers(db: &Database) -> (followed: Vec<ActorRecord>)
    ensures
        followed.deep_view() == actors_with_followers(db@),
{
    let ghost keep = is_followed(db@);
    let mut followed: Vec<ActorRecord> = Vec::new();
    let listed = match get_actors_from_db(db) {
        Ok(listed) => listed,
        Err(_) => {
            assert(db@.listed_actors().filter(keep) =~= Seq::empty()) by {
                reveal(Seq::filter);
            }
            return followed;
        },
    };
    let ghost rows = listed.deep_view();
    let mut i: usize = 0;
    assert(rows.take(0).filter(keep) =~= Seq::empty()) by {
        reveal(Seq::filter);
    }
    while i < listed.len()
        invariant
            i <= listed.len(),
            rows == listed.deep_view(),
            keep == is_followed(db@),
            followed.deep_view() == rows.take(i as int).filter(keep),
        decreases listed.len() - i,
    {
        proof {
            lemma_filter_step(rows, keep, i as int);
        }
        let followers = match get_followers_from_db(db, listed[i].pcid) {
            Ok(followers) => followers,
            Err(_) => Vec::new(),
        };
        if followers.len() > 0 {
            let ghost earlier = followed.deep_view();
            followed.push(listed[i].clone());
            assert(followed.deep_view() =~= earlier.push(rows[i as int]));
        }
        i += 1;
    }
    assert(rows.take(rows.len() as int) =~= rows);
    followed
}

/// The newest episode's guid, where the index knows an episode.
pub open spec fn newest_guid(episodes: PIEpisodes) -> Option<Seq<char>> {
    if episodes.items.len() > 0 {
        Some(episodes.items[0].guid@)
    } else {
        None
    }
}

/// Whether the newest episode is another than the last one announced.
pub open spec fn is_news(cursor: Seq<char>, episodes: PIEpisodes) -> bool {
    newest_guid(episodes) matches Some(guid) && guid != cursor
}

/// An episode to announce: the newest of actor `pcid`, to be delivered once
/// to each of `inboxes`.
#[derive(Debug)]
pub struct Announcement {
    pub pcid: u64,
    pub episode_guid: String,
    pub inboxes: Vec<String>,
}

/// Decides what to announce for actor `pcid`, given its episodes, the
/// newest first.
///
/// An announcement is due where the actor has a row and a follower, and
/// the newest episode is another than the last one announced. It goes to
/// the shared inbox of each follower, to each inbox once. After the
/// deliveries were tried, whatever came of each, [`episode_announced`]
/// records the episode. For an actor without followers nothing is
/// announced and nothing is recorded.
pub fn episode_tracker(db: &Database, pcid: u64, episodes: &PIEpisodes) -> (plan: Option<
    Announcement,
>)
    ensures
        plan is Some <==> db@.has_actor(pcid) && db@.followers_of(pcid).len() > 0 && is_news(
            db@.actor(pcid).last_episode_guid,
            *episodes,
        ),
        plan matches Some(announcement) ==> announcement.pcid == pcid
            && announcement.episode_guid@ == episodes.items[0].guid@ && texts(
            announcement.inboxes@,
        ) == delivery_targets(db@.followers_of(pcid)),
{
    let actor = match get_actor_from_db(db, pcid) {
        Ok(actor) => actor,
        Err(_) => {
            return None;
        },
    };
    if episodes.items.len() == 0 {
        return None;
    }
    if str_eq(actor.last_episode_guid.as_str(), episodes.items[0].guid.as_str()) {
        return None;
    }
    let followers = match get_followers_from_db(db, pcid) {
        Ok(followers) => followers,
        Err(_) => Vec::new(),
    };
    if followers.len() == 0 {
        return None;
    }
    let inboxes = notify(&followers);
    Some(Announcement { pcid, episode_guid: episodes.items[0].guid.clone(), inboxes })
}

/// Records that the episode of `announcement` was announced: it becomes
/// the last announced episode of its actor.
pub fn episode_announced(db: &mut Database, announcement: &Announcement)
    ensures
        final(db)@ == old(db)@.with_cursor(announcement.pcid, announcement.episode_guid@),
{
    let _ = update_actor_last_episode_guid_in_db(
        db,
        announcement.pcid,
        announcement.episode_guid.clone(),
    );
}

/// An episode is announced once: after it was recorded, the same newest
/// episode is no news, and recording it again changes nothing.
pub proof fn lemma_announced_is_no_news(db: DatabaseView, pcid: u64, episodes: PIEpisodes)
    requires
        db.has_actor(pcid),
        newest_guid(episodes) is Some,
    ensures
        db.with_cursor(pcid, newest_guid(episodes)->Some_0).has_actor(pcid),
        !is_news(
            db.with_cursor(pcid, newest_guid(episodes)->Some_0).actor(pcid).last_episode_guid,
            episodes,
        ),
        db.with_cursor(pcid, newest_guid(episodes)->Some_0).with_cursor(
            pcid,
            newest_guid(episodes)->Some_0,
        ) == db.with_cursor(pcid, newest_guid(episodes)->Some_0),
{
    let guid = newest_guid(episodes)->Some_0;
    lemma_with_cursor(db, pcid, guid);
    let once = db.with_cursor(pcid, guid);
    lemma_with_cursor(once, pcid, guid);
    crate::query::lemma_first_index(once.actors, crate::dbif::is_actor(pcid));
    let at = once.actor_index(pcid);
    assert(ActorRecordView { last_episode_guid: guid, ..once.actor(pcid) } == once.actors[at]);
    assert(once.with_cursor(pcid, guid).actors =~= once.actors);
}

/// The feeds that a message of the live stream reports as going live: of
/// each notice with the reason `live`, the first address, where it has
/// one.
pub open spec fn live_feeds(notices: Seq<PodpingPayload>) -> Seq<Seq<char>>
    decreases notices.len(),
{
    if notices.len() == 0 {
        Seq::empty()
    } else {
        let earlier = live_feeds(notices.drop_last());
        let notice = notices.last();
        if notice.p.reason@ == "live"@ && notice.p.iris.len() > 0 {
            earlier.push(notice.p.iris[0]@)
        } else {
            earlier
        }
    }
}

/// The feeds that a message of the live stream reports as going live, in
/// the order of the message. The server asks the index for the live items
/// of each and hands them to [`live_announcement`].
pub fn live_item_tracker(payload: &SocketPayload) -> (feeds: Vec<String>)
    ensures
        texts(feeds@) == live_feeds(payload.p@),
{
    let mut feeds: Vec<String> = Vec::new();
    let mut i: usize = 0;
    assert(texts(feeds@) =~= live_feeds(payload.p@.take(0)));
    while i < payload.p.len()
        invariant
            i <= payload.p.len(),
            texts(feeds@) == live_feeds(payload.p@.take(i as int)),
        decreases payload.p.len() - i,
    {
        assert(payload.p@.take(i + 1).drop_last() =~= payload.p@.take(i as int));
        assert(payload.p@.take(i + 1).last() == payload.p[i as int]);
        if str_eq(payload.p[i].p.reason.as_str(), "live") && payload.p[i].p.iris.len() > 0 {
            let ghost earlier = texts(feeds@);
            feeds.push(payload.p[i].p.iris[0].clone());
            assert(texts(feeds@) =~= earlier.push(payload.p[i as int].p.iris[0]@));
        }
        i += 1;
    }
    assert(payload.p@.take(payload.p@.len() as int) =~= payload.p@);
    feeds
}

/// Holds of the live items that are live now.
pub open spec fn is_live() -> spec_fn(PILiveItem) -> bool {
    |item: PILiveItem| item.status@ == "live"@
}

/// A live item to announce: the item at `index`, to be delivered once to
/// each of `inboxes`.
#[derive(Debug)]
pub struct LiveAnnouncement {
    pub index: usize,
    pub pcid: u64,
    pub inboxes: Vec<String>,
}

/// Decides what to announce for the live items of a feed: the first item
/// that is live, to the shared inbox of each follower of its feed, to each
/// inbox once. `None` where no item is live.
pub fn live_announcement(db: &Database, live_items: &PILiveItems) -> (plan: Option<
    LiveAnnouncement,
>)
    ensures
        plan is Some <==> crate::query::first_index(live_items.live_items@, is_live())
            < live_items.live_items.len(),
        plan matches Some(announcement) ==> announcement.index == crate::query::first_index(
            live_items.live_items@,
            is_live(),
        ) && announcement.pcid == live_items.live_items[announcement.index as int].feed_id
            && texts(announcement.inboxes@) == delivery_targets(
            db@.followers_of(announcement.pcid),
        ),
{
    let mut i: usize = 0;
    while i < live_items.live_items.len() && !str_eq(
        live_items.live_items[i].status.as_str(),
        "live",
    )
        invariant
            i <= live_items.live_items.len(),
            forall|k: int| 0 <= k < i ==> !is_live()(#[trigger] live_items.live_items@[k]),
        decreases live_items.live_items.len() - i,
    {
        i += 1;
    }
    proof {
        crate::query::lemma_first_index_found(live_items.live_items@, is_live(), i as int);
    }
    if i == live_items.live_items.len() {
        return None;
    }
    let pcid = live_items.live_items[i].feed_id;
    let followers = match get_followers_from_db(db, pcid) {
        Ok(followers) => followers,
        Err(_) => Vec::new(),
    };
    Some(LiveAnnouncement { index: i, pcid, inboxes: notify(&followers) })
}

} // verus!
