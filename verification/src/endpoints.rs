//! The documents that the server hands out: WebFinger, the profile of an
//! actor, its outbox, its pinned post, and single notes.
//!
//! The server reads the parameters of a request, asks the index where a
//! document needs it, and writes the document out as JSON. What the
//! document holds is decided here.

use vstd::prelude::*;
use vstd::string::*;
use crate::activity::{
    Actor, Featured, FeaturedItem, Item, Link, Object, OutboxConfig, OutboxPaged, Status,
    Webfinger,
};
use crate::dbif::Database;
use crate::fanout::texts;
use crate::handler::{ap_get_actor_keys, keys_outcome};
use crate::inbox::{podcast_guid_of, resource_guid, InboxReply};
use crate::notes::{
    build_episode_note_object, conversation_tag, episode_content, episode_image,
    is_image_attachment, is_public, iso8601, iso8601_text,
};
use crate::podcastindex::{PIEpisode, PIEpisodes, PIFeed, PIItem, PIPodcast};
use crate::profile::{ap_build_actor_object, is_podcast_actor};
use crate::text::{parse_u64, parsed_u64, str_eq, truncate, truncated, u64_to_string};
use crate::urls::option_view;

verus! {

broadcast use vstd::string::group_string_axioms;

/// Why a document is not handed out.
#[derive(Debug, Clone, Copy, PartialEq, Eq)]
pub enum EndpointError {
    /// The request names no podcast.
    NoResource,
    /// The request names no note.
    NoStatusId,
    /// The index gave no usable answer.
    ResponsePrep,
    /// The document could not be written.
    Encoding,
    /// The keys of the actor could not be had.
    KeyError,
    /// The profile could not be built.
    ActorObject,
}

impl EndpointError {
    /// The HTTP status of the refusal.
    pub open spec fn spec_status(self) -> u16 {
        match self {
            EndpointError::NoResource => 400,
            EndpointError::NoStatusId => 400,
            EndpointError::ResponsePrep => 501,
            _ => 500,
        }
    }

    /// The HTTP status of the refusal.
    #[verifier::when_used_as_spec(spec_status)]
    pub fn status(self) -> (code: u16)
        ensures
            code == self.spec_status(),
    {
        match self {
            EndpointError::NoResource => 400,
            EndpointError::NoStatusId => 400,
            EndpointError::ResponsePrep => 501,
            _ => 500,
        }
    }

    /// The body of the refusal.
    pub open spec fn spec_body(self) -> Seq<char> {
        match self {
            EndpointError::NoResource => "No resource given."@,
            EndpointError::NoStatusId => "No status id given."@,
            EndpointError::ResponsePrep => "Response prep error."@,
            EndpointError::Encoding => "Response prep error."@,
            EndpointError::KeyError => "Key error."@,
            EndpointError::ActorObject => "Actor obect error."@,
        }
    }

    /// The body of the refusal.
    pub fn body(self) -> (text: String)
        ensures
            text@ == self.spec_body(),
    {
        match self {
            EndpointError::NoResource => String::from_str("No resource given."),
            EndpointError::NoStatusId => String::from_str("No status id given."),
            EndpointError::ResponsePrep => String::from_str("Response prep error."),
            EndpointError::Encoding => String::from_str("Response prep error."),
            EndpointError::KeyError => String::from_str("Key error."),
            EndpointError::ActorObject => String::from_str("Actor obect error."),
        }
    }
}

/// The id that a request names: what its `id` parameter holds, or else
/// `fallback`, or else nothing.
pub open spec fn requested(resource: Option<Seq<char>>, fallback: Option<Seq<char>>) -> Option<
    Seq<char>,
> {
    match resource {
        Some(resource) => Some(resource_guid(resource)),
        None => fallback,
    }
}

/// The id that a request names. Without the `id` parameter it is
/// `fallback`, and the request is refused where there is no fallback.
pub fn requested_guid(resource: Option<&str>, fallback: Option<&str>) -> (guid: Result<
    String,
    EndpointError,
>)
    ensures
        guid matches Ok(id) ==> requested(
            match resource {
                Some(text) => Some(text@),
                None => None,
            },
            match fallback {
                Some(text) => Some(text@),
                None => None,
            },
        ) == Some(id@),
        guid matches Err(e) ==> e == EndpointError::NoResource && resource is None && fallback
            is None,
{
    match resource {
        Some(resource) => Ok(podcast_guid_of(resource)),
        None => match fallback {
            Some(fallback) => Ok(String::from_str(fallback)),
            None => Err(EndpointError::NoResource),
        },
    }
}

/// The address `page` of this server with the id `guid`.
pub open spec fn page_address(page: Seq<char>, guid: Seq<char>) -> Seq<char> {
    "https://ap.podcastindex.org/"@ + page + "?id="@ + guid
}

/// The address `page` of this server with the id `guid`.
pub fn page_url(page: &str, guid: &str) -> (url: String)
    ensures
        url@ == page_address(page@, guid@),
{
    let mut url = String::from_str("https://ap.podcastindex.org/");
    url.append(page);
    url.append("?id=");
    url.append(guid);
    url
}

/// `head`, `middle` and `tail` in a row.
fn joined(head: &str, middle: &str, tail: &str) -> (text: String)
    ensures
        text@ == head@ + middle@ + tail@,
{
    let mut text = String::from_str(head);
    text.append(middle);
    text.append(tail);
    text
}

/// Whether `link` is the link `rel` of the given type to `href`.
pub open spec fn is_link(link: Link, rel: Seq<char>, kind: Option<Seq<char>>, href: Seq<char>) -> bool {
    &&& link.rel@ == rel
    &&& option_view(link.kind) == kind
    &&& option_view(link.href) == Some(href)
    &&& link.template is None
}

/// Whether `document` is the WebFinger document of the podcast `guid`
/// with the image `image`.
pub open spec fn is_webfinger(document: Webfinger, guid: Seq<char>, image: Seq<char>) -> bool {
    &&& document.subject@ == "acct:"@ + guid + "@ap.podcastindex.org"@
    &&& texts(document.aliases@) == seq!["https://podcastindex.org/podcast/"@ + guid]
    &&& document.links.len() == 4
    &&& is_link(
        document.links[0],
        "http://webfinger.net/rel/profile-page"@,
        Some("text/html"@),
        page_address("profiles"@, guid),
    )
    &&& is_link(
        document.links[1],
        "self"@,
        Some("application/activity+json"@),
        page_address("podcasts"@, guid),
    )
    &&& is_link(document.links[2], "http://webfinger.net/rel/avatar"@, Some("image/png"@), image)
    &&& document.links[3].rel@ == "http://ostatus.org/schema/1.0/subscribe"@
    &&& document.links[3].kind is None
    &&& document.links[3].href is None
    &&& option_view(document.links[3].template) == Some(
        "https://ap.podcastindex.org/ostatus_subscribe?acct={uri}"@,
    )
}

/// Builds the WebFinger document of a podcast.
pub fn webfinger(podcast_guid: &str, podcast_data: &PIPodcast) -> (document: Webfinger)
    ensures
        is_webfinger(document, podcast_guid@, podcast_data.feed.image@),
{
    let mut aliases: Vec<String> = Vec::new();
    aliases.push(joined("https://podcastindex.org/podcast/", podcast_guid, ""));
    assert(texts(aliases@) =~= seq!["https://podcastindex.org/podcast/"@ + podcast_guid@]) by {
        reveal_strlit("");
        assert(aliases[0]@ =~= "https://podcastindex.org/podcast/"@ + podcast_guid@);
    }
    let mut links: Vec<Link> = Vec::new();
    links.push(
        Link {
            rel: String::from_str("http://webfinger.net/rel/profile-page"),
            kind: Some(String::from_str("text/html")),
            href: Some(page_url("profiles", podcast_guid)),
            template: None,
        },
    );
    links.push(
        Link {
            rel: String::from_str("self"),
            kind: Some(String::from_str("application/activity+json")),
            href: Some(page_url("podcasts", podcast_guid)),
            template: None,
        },
    );
    links.push(
        Link {
            rel: String::from_str("http://webfinger.net/rel/avatar"),
            kind: Some(String::from_str("image/png")),
            href: Some(podcast_data.feed.image.clone()),
            template: None,
        },
    );
    links.push(
        Link {
            rel: String::from_str("http://ostatus.org/schema/1.0/subscribe"),
            kind: None,
            href: None,
            template: Some(
                String::from_str("https://ap.podcastindex.org/ostatus_subscribe?acct={uri}"),
            ),
        },
    );
    Webfinger {
        subject: joined("acct:", podcast_guid, "@ap.podcastindex.org"),
        aliases,
        links,
    }
}

/// Whether `feed` is what stands for the server itself: the feed 0, named
/// after the bridge.
pub open spec fn is_instance_feed(feed: PIFeed) -> bool {
    &&& feed.id == 0
    &&& feed.podcast_guid@.len() == 0
    &&& feed.medium@.len() == 0
    &&& feed.title@ == "Podcast Index ActivityPub Bridge"@
    &&& feed.url@.len() == 0
    &&& feed.original_url@.len() == 0
    &&& feed.link@.len() == 0
    &&& feed.description@ == "Podcast Index ActivityPub Bridge"@
    &&& feed.author@ == "Podcastindex.org"@
    &&& feed.owner_name@ == "Podcastindex.org"@
    &&& feed.image@ == "https://noagendaassets.com/enc/1684513486.722_pcifeedimage.png"@
    &&& feed.artwork@ == "https://noagendaassets.com/enc/1684513486.722_pcifeedimage.png"@
    &&& feed.episode_count == 0
    &&& feed.funding is None
}

/// What stands in for the index's answer where the server itself is asked
/// for.
pub fn instance_podcast() -> (podcast: PIPodcast)
    ensures
        podcast.status@ == "true"@,
        is_instance_feed(podcast.feed),
{
    PIPodcast {
        status: String::from_str("true"),
        feed: PIFeed {
            id: 0,
            podcast_guid: String::new(),
            medium: String::new(),
            title: String::from_str("Podcast Index ActivityPub Bridge"),
            url: String::new(),
            original_url: String::new(),
            link: String::new(),
            description: String::from_str("Podcast Index ActivityPub Bridge"),
            author: String::from_str("Podcastindex.org"),
            owner_name: String::from_str("Podcastindex.org"),
            image: String::from_str(
                "https://noagendaassets.com/enc/1684513486.722_pcifeedimage.png",
            ),
            artwork: String::from_str(
                "https://noagendaassets.com/enc/1684513486.722_pcifeedimage.png",
            ),
            episode_count: 0,
            funding: None,
        },
    }
}

/// Whether the index is asked about the podcast `guid`: it is for every
/// id but `0`, which stands for the server itself.
pub fn needs_lookup(podcast_guid: &str) -> (needed: bool)
    ensures
        needed == (podcast_guid@ != "0"@),
{
    !str_eq(podcast_guid, "0")
}

/// The profile `built` as the server hands it out: without an id in the
/// request the address is that of the server, and the server itself is an
/// application that goes by its host name.
pub open spec fn served_actor(built: Actor, guid: Seq<char>, no_guid: bool, served: Actor) -> bool {
    &&& served.id@ == if no_guid {
        "https://ap.podcastindex.org/podcasts"@
    } else {
        built.id@
    }
    &&& served.kind@ == if guid == "0"@ {
        "Application"@
    } else {
        built.kind@
    }
    &&& option_view(served.name) == if guid == "0"@ {
        Some("ap.podcastindex.org"@)
    } else {
        option_view(built.name)
    }
    &&& option_view(served.preferred_username) == if guid == "0"@ {
        Some("ap.podcastindex.org"@)
    } else {
        option_view(built.preferred_username)
    }
    &&& served.at_context == built.at_context
    &&& served.discoverable == built.discoverable
    &&& served.indexable == built.indexable
    &&& served.published == built.published
    &&& served.memorial == built.memorial
    &&& served.devices == built.devices
    &&& served.inbox == built.inbox
    &&& served.outbox == built.outbox
    &&& served.featured == built.featured
    &&& served.followers == built.followers
    &&& served.following == built.following
    &&& served.icon == built.icon
    &&& served.summary == built.summary
    &&& served.url == built.url
    &&& served.manually_approves_followers == built.manually_approves_followers
    &&& served.attachment == built.attachment
    &&& served.public_key == built.public_key
    &&& served.endpoints == built.endpoints
}

/// Builds the profile of the actor `podcast_guid` from what the index
/// tells of the podcast. The actor gets its keys on the way, which are
/// made if it has none. An id that is no number names no actor.
pub fn podcasts(db: &mut Database, podcast_guid: &str, no_guid: bool, podcast_data: PIPodcast) -> (profile:
    Result<Actor, EndpointError>)
    ensures
        parsed_u64(podcast_guid@) is None ==> final(db)@ == old(db)@ && profile == Err::<
            Actor,
            EndpointError,
        >(EndpointError::NoResource),
        parsed_u64(podcast_guid@) matches Some(pcid) ==> exists|keys|
            {
                &&& #[trigger] keys_outcome(old(db)@, pcid, keys, final(db)@)
                &&& match keys {
                    Err(_) => profile == Err::<Actor, EndpointError>(EndpointError::KeyError),
                    Ok(found) => profile matches Ok(served) && exists|built: Actor|
                        #[trigger] is_podcast_actor(
                            built,
                            podcast_data.feed,
                            found.pem_public_key@,
                        ) && served_actor(built, podcast_guid@, no_guid, served),
                }
            },
{
    let pcid = match parse_u64(podcast_guid) {
        Some(pcid) => pcid,
        None => {
            return Err(EndpointError::NoResource);
        },
    };
    let keys = ap_get_actor_keys(db, pcid);
    let ghost asked = keys;
    assert(keys_outcome(old(db)@, pcid, asked, db@));
    let actor_keys = match keys {
        Ok(actor_keys) => actor_keys,
        Err(_) => {
            return Err(EndpointError::KeyError);
        },
    };
    let built = match ap_build_actor_object(podcast_data, actor_keys) {
        Ok(built) => built,
        Err(_) => {
            return Err(EndpointError::ActorObject);
        },
    };
    let ghost plain = built;
    let instance = !needs_lookup(podcast_guid);
    let served = Actor {
        at_context: built.at_context,
        id: if no_guid {
            String::from_str("https://ap.podcastindex.org/podcasts")
        } else {
            built.id
        },
        kind: if instance {
            String::from_str("Application")
        } else {
            built.kind
        },
        discoverable: built.discoverable,
        indexable: built.indexable,
        preferred_username: if instance {
            Some(String::from_str("ap.podcastindex.org"))
        } else {
            built.preferred_username
        },
        published: built.published,
        memorial: built.memorial,
        devices: built.devices,
        name: if instance {
            Some(String::from_str("ap.podcastindex.org"))
        } else {
            built.name
        },
        inbox: built.inbox,
        outbox: built.outbox,
        featured: built.featured,
        followers: built.followers,
        following: built.following,
        icon: built.icon,
        summary: built.summary,
        url: built.url,
        manually_approves_followers: built.manually_approves_followers,
        attachment: built.attachment,
        public_key: built.public_key,
        endpoints: built.endpoints,
    };
    assert(served_actor(plain, podcast_guid@, no_guid, served));
    Ok(served)
}

/// The page that shows a podcast to a browser.
pub open spec fn profile_page(
    title: Seq<char>,
    guid: Seq<char>,
    description: Seq<char>,
    image: Seq<char>,
) -> Seq<char> {
    "<!DOCTYPE html>\n<html lang='en'>\n  <head>\n    <meta charset='utf-8' />\n    <meta content='"@
        + title + "' property='og:title' />\n    <meta content='"@ + page_address(
        "podcasts"@,
        guid,
    ) + "' property='og:url' />\n    <meta content='"@ + description
        + "' property='og:description' />\n    <meta content='article' property='og:type' />\n    <meta content='"@
        + image
        + "' property='og:image' />\n    <meta content='150' property='og:image:width' />\n    <meta content='150' property='og:image:height' />\n  </head>\n  <body>\n    Empty\n  </body>\n  </html>"@
}

/// Builds the page that shows a podcast to a browser.
pub fn profiles(podcast_guid: &str, podcast_data: &PIPodcast) -> (page: String)
    ensures
        page@ == profile_page(
            podcast_data.feed.title@,
            podcast_guid@,
            podcast_data.feed.description@,
            podcast_data.feed.image@,
        ),
{
    let mut page = String::from_str(
        "<!DOCTYPE html>\n<html lang='en'>\n  <head>\n    <meta charset='utf-8' />\n    <meta content='",
    );
    page.append(podcast_data.feed.title.as_str());
    page.append("' property='og:title' />\n    <meta content='");
    let url = page_url("podcasts", podcast_guid);
    page.append(url.as_str());
    page.append("' property='og:url' />\n    <meta content='");
    page.append(podcast_data.feed.description.as_str());
    page.append(
        "' property='og:description' />\n    <meta content='article' property='og:type' />\n    <meta content='",
    );
    page.append(podcast_data.feed.image.as_str());
    page.append(
        "' property='og:image' />\n    <meta content='150' property='og:image:width' />\n    <meta content='150' property='og:image:height' />\n  </head>\n  <body>\n    Empty\n  </body>\n  </html>",
    );
    page
}

/// The address of the view `resource` of the note `status` of the podcast
/// `guid`, as the outbox names it.
pub open spec fn status_address(guid: Seq<char>, status: Seq<char>, resource: Seq<char>) -> Seq<
    char,
> {
    "https://ap.podcastindex.org/episodes?id="@ + guid + "&statusid="@ + status + "&resource="@
        + resource
}

/// The address of the view `resource` of a note, as the outbox names it.
fn status_url(guid: &str, status: &str, resource: &str) -> (url: String)
    ensures
        url@ == status_address(guid@, status@, resource@),
{
    let mut url = String::from_str("https://ap.podcastindex.org/episodes?id=");
    url.append(guid);
    url.append("&statusid=");
    url.append(status);
    url.append("&resource=");
    url.append(resource);
    url
}

/// Whether `document` tells of the outbox of the podcast `guid` with
/// `count` items.
pub open spec fn is_outbox_config(document: OutboxConfig, guid: Seq<char>, count: u64) -> bool {
    &&& document.context@ == "https://www.w3.org/ns/activitystreams"@
    &&& document.id@ == page_address("outbox"@, guid)
    &&& document.kind@ == "OrderedCollection"@
    &&& document.total_items == count
    &&& document.first@ == page_address("outbox"@, guid) + "&page=true"@
    &&& document.last@ == page_address("outbox"@, guid) + "&page=true&min_id=0"@
}

/// Builds the document that tells of the outbox of a podcast.
pub fn outbox_config(podcast_guid: &str, podcast_data: &PIEpisodes) -> (document: OutboxConfig)
    ensures
        is_outbox_config(document, podcast_guid@, podcast_data.count),
{
    let mut first = page_url("outbox", podcast_guid);
    first.append("&page=true");
    let mut last = page_url("outbox", podcast_guid);
    last.append("&page=true&min_id=0");
    OutboxConfig {
        context: String::from_str("https://www.w3.org/ns/activitystreams"),
        id: page_url("outbox", podcast_guid),
        kind: String::from_str("OrderedCollection"),
        total_items: podcast_data.count,
        first,
        last,
    }
}

/// The text of an episode in the outbox. Title and description are cut to
/// 128 characters.
pub open spec fn outbox_content(episode: PIItem) -> Seq<char> {
    "<p>"@ + truncated(episode.title@, 128) + "</p><p>"@ + truncated(episode.description@, 128)
        + "</p><p>Listen: "@ + episode.enclosure_url@ + "</p>"@
}

/// Whether `item` publishes `episode` in the outbox of the podcast `guid`.
pub open spec fn is_outbox_item(item: Item, guid: Seq<char>, episode: PIItem, published: Seq<char>) -> bool {
    &&& item.id@ == status_address(guid, episode.guid@, "activity"@)
    &&& item.kind@ == "Create"@
    &&& item.actor@ == page_address("podcasts"@, guid)
    &&& item.published@ == published
    &&& !item.direct_message
    &&& is_public(item.to@)
    &&& item.object.id@ == status_address(guid, episode.guid@, "post"@)
    &&& item.object.kind@ == "Note"@
    &&& item.object.summary is None
    &&& item.object.in_reply_to is None
    &&& item.object.published@ == published
    &&& item.object.url@ == status_address(guid, episode.guid@, "public"@)
    &&& item.object.attributed_to@ == page_address("podcasts"@, guid)
    &&& is_public(item.object.to@)
    &&& item.object.cc is None
    &&& !item.object.sensitive
    &&& item.object.conversation@ == conversation_tag(published, episode.guid@)
    &&& item.object.content@ == outbox_content(episode)
    &&& item.object.attachment.len() == 0
}

/// The public address, alone.
fn to_everybody() -> (addresses: Vec<String>)
    ensures
        is_public(addresses@),
{
    let mut addresses: Vec<String> = Vec::new();
    addresses.push(String::from_str("https://www.w3.org/ns/activitystreams#Public"));
    addresses
}

/// Builds the item that publishes `episode` in the outbox.
fn outbox_item(podcast_guid: &str, episode: &PIItem) -> (built: Option<Item>)
    ensures
        built is Some <==> iso8601_text(episode.date_published) is Some,
        built matches Some(item) ==> is_outbox_item(
            item,
            podcast_guid@,
            *episode,
            iso8601_text(episode.date_published)->Some_0,
        ),
{
    let published = match iso8601(episode.date_published) {
        Some(published) => published,
        None => {
            return None;
        },
    };
    let mut conversation = String::from_str("tag:ap.podcastindex.org,");
    conversation.append(published.as_str());
    conversation.append(":objectId=");
    conversation.append(episode.guid.as_str());
    conversation.append(":objectType=Conversation");
    let mut content = String::from_str("<p>");
    let title = truncate(episode.title.as_str(), 128);
    content.append(title.as_str());
    content.append("</p><p>");
    let description = truncate(episode.description.as_str(), 128);
    content.append(description.as_str());
    content.append("</p><p>Listen: ");
    content.append(episode.enclosure_url.as_str());
    content.append("</p>");
    Some(
        Item {
            id: status_url(podcast_guid, episode.guid.as_str(), "activity"),
            kind: String::from_str("Create"),
            actor: page_url("podcasts", podcast_guid),
            published: published.clone(),
            direct_message: false,
            to: to_everybody(),
            object: Object {
                id: status_url(podcast_guid, episode.guid.as_str(), "post"),
                kind: String::from_str("Note"),
                summary: None,
                in_reply_to: None,
                published,
                url: status_url(podcast_guid, episode.guid.as_str(), "public"),
                attributed_to: page_url("podcasts", podcast_guid),
                to: to_everybody(),
                cc: None,
                sensitive: false,
                conversation,
                content,
                attachment: Vec::new(),
            },
        },
    )
}

/// Whether every episode has a date that can be written.
pub open spec fn all_dated(episodes: Seq<PIItem>) -> bool {
    forall|i: int| 0 <= i < episodes.len() ==> iso8601_text(
        (#[trigger] episodes[i]).date_published,
    ) is Some
}

/// Whether `document` is the page of the outbox of the podcast `guid`
/// with the episodes of `podcast_data`, one item for each, in their order.
pub open spec fn is_outbox_page(document: OutboxPaged, guid: Seq<char>, podcast_data: PIEpisodes) -> bool {
    &&& document.context@ == "https://www.w3.org/ns/activitystreams"@
    &&& document.id@ == "https://www.w3.org/ns/activitystreams"@
    &&& document.kind@ == "OrderedCollectionPage"@
    &&& document.next@ == page_address("outbox"@, guid) + "&page=true&max_id=999999"@
    &&& document.prev@ == page_address("outbox"@, guid) + "&page=true&min_id=0"@
    &&& document.part_of@ == page_address("outbox"@, guid)
    &&& document.total_items == podcast_data.count
    &&& document.ordered_items matches Some(items)
    &&& items.len() == podcast_data.items.len()
    &&& forall|i: int|
        0 <= i < items.len() ==> is_outbox_item(
            #[trigger] items[i],
            guid,
            podcast_data.items[i],
            iso8601_text(podcast_data.items[i].date_published)->Some_0,
        )
}

/// Builds the page of the outbox of a podcast: one item for each episode.
/// An episode without a date that can be written fails the page.
pub fn outbox_page(podcast_guid: &str, podcast_data: &PIEpisodes) -> (page: Result<
    OutboxPaged,
    EndpointError,
>)
    ensures
        page is Ok <==> all_dated(podcast_data.items@),
        page matches Ok(document) ==> is_outbox_page(document, podcast_guid@, *podcast_data),
        page matches Err(e) ==> e == EndpointError::Encoding,
{
    let mut ordered_items: Vec<Item> = Vec::new();
    let mut i: usize = 0;
    while i < podcast_data.items.len()
        invariant
            i <= podcast_data.items.len(),
            ordered_items.len() == i,
            forall|k: int|
                0 <= k < i ==> iso8601_text((#[trigger] podcast_data.items[k]).date_published)
                    is Some,
            forall|k: int|
                0 <= k < i ==> is_outbox_item(
                    #[trigger] ordered_items[k],
                    podcast_guid@,
                    podcast_data.items[k],
                    iso8601_text(podcast_data.items[k].date_published)->Some_0,
                ),
        decreases podcast_data.items.len() - i,
    {
        match outbox_item(podcast_guid, &podcast_data.items[i]) {
            Some(item) => {
                ordered_items.push(item);
            },
            None => {
                return Err(EndpointError::Encoding);
            },
        }
        i += 1;
    }
    let mut next = page_url("outbox", podcast_guid);
    next.append("&page=true&max_id=999999");
    let mut prev = page_url("outbox", podcast_guid);
    prev.append("&page=true&min_id=0");
    Ok(
        OutboxPaged {
            context: String::from_str("https://www.w3.org/ns/activitystreams"),
            id: String::from_str("https://www.w3.org/ns/activitystreams"),
            kind: String::from_str("OrderedCollectionPage"),
            next,
            prev,
            part_of: page_url("outbox", podcast_guid),
            total_items: podcast_data.count,
            ordered_items: Some(ordered_items),
        },
    )
}

/// The outbox of a podcast without episodes: what the server itself has.
pub fn empty_episodes() -> (episodes: PIEpisodes)
    ensures
        episodes.status@ == "true"@,
        episodes.items.len() == 0,
        episodes.count == 0,
{
    PIEpisodes { status: String::from_str("true"), items: Vec::new(), count: 0 }
}

/// What the outbox hands out: what it holds, or a page of it.
#[derive(Debug)]
pub enum OutboxDocument {
    Config(OutboxConfig),
    Page(OutboxPaged),
}

/// Whether the request asks for a page of the outbox: it does where its
/// `page` parameter is `true`.
pub open spec fn is_paging(page: Option<Seq<char>>) -> bool {
    page matches Some(text) && text == "true"@
}

/// Builds what the outbox of a podcast hands out: a page with an item for
/// each episode where the request asks for a page, and else the document
/// that tells of the outbox.
pub fn outbox(podcast_guid: &str, page: Option<&str>, podcast_data: &PIEpisodes) -> (document:
    Result<OutboxDocument, EndpointError>)
    ensures
        !is_paging(
            match page {
                Some(text) => Some(text@),
                None => None,
            },
        ) ==> (document matches Ok(OutboxDocument::Config(config)) && is_outbox_config(
            config,
            podcast_guid@,
            podcast_data.count,
        )),
        is_paging(
            match page {
                Some(text) => Some(text@),
                None => None,
            },
        ) ==> {
            &&& document is Ok <==> all_dated(podcast_data.items@)
            &&& document matches Ok(found) ==> (found matches OutboxDocument::Page(paged)
                && is_outbox_page(paged, podcast_guid@, *podcast_data))
            &&& document matches Err(e) ==> e == EndpointError::Encoding
        },
{
    let paging = match page {
        Some(text) => str_eq(text, "true"),
        None => false,
    };
    if !paging {
        return Ok(OutboxDocument::Config(outbox_config(podcast_guid, podcast_data)));
    }
    match outbox_page(podcast_guid, podcast_data) {
        Ok(paged) => Ok(OutboxDocument::Page(paged)),
        Err(e) => Err(e),
    }
}

/// What the conversation of a note is served with: success, and nothing.
pub fn contexts() -> (reply: InboxReply)
    ensures
        reply == InboxReply::Accepted,
{
    InboxReply::Accepted
}

/// What the followers of a podcast are served with: success, and nothing.
pub fn followers() -> (reply: InboxReply)
    ensures
        reply == InboxReply::Accepted,
{
    InboxReply::Accepted
}

/// What the pinned post says.
pub open spec fn pinned_text() -> Seq<char> {
    "This account is a podcast.  Follow to see new episodes."@
}

/// When the pinned post was written.
pub open spec fn pinned_date() -> Seq<char> {
    "2023-11-09T15:56:28.495803Z"@
}

/// Whether `addresses` holds the followers of the podcast `guid` and no
/// other.
pub open spec fn is_followers(addresses: Option<Vec<String>>, guid: Seq<char>) -> bool {
    addresses matches Some(list) && list.len() == 1 && list[0]@ == page_address(
        "followers"@,
        guid,
    )
}

/// Whether `document` holds the pinned post of the podcast `guid`.
pub open spec fn is_featured(document: Featured, guid: Seq<char>) -> bool {
    &&& texts(document.at_context@) == seq!["https://www.w3.org/ns/activitystreams"@]
    &&& document.id@ == "https://www.w3.org/ns/activitystreams"@
    &&& document.kind@ == "OrderedCollection"@
    &&& document.total_items == 1
    &&& document.ordered_items matches Some(items)
    &&& items.len() == 1
    &&& texts(items[0].at_context@) == seq!["https://www.w3.org/ns/activitystreams"@]
    &&& items[0].actor@ == page_address("podcasts"@, guid)
    &&& items[0].attachment.len() == 0
    &&& items[0].attributed_to@ == page_address("podcasts"@, guid)
    &&& is_followers(items[0].cc, guid)
    &&& items[0].content@ == pinned_text()
    &&& items[0].context@ == page_address("contexts"@, guid) + "&statusid=0"@
    &&& items[0].conversation@ == page_address("contexts"@, guid) + "&statusid=0"@
    &&& items[0].id@ == page_address("episodes"@, guid) + "&statusid=0"@
    &&& items[0].published@ == pinned_date()
    &&& items[0].replies_count == 0
    &&& !items[0].sensitive
    &&& items[0].source@ == pinned_text()
    &&& option_view(items[0].summary) == Some(Seq::<char>::empty())
    &&& items[0].tag.len() == 0
    &&& is_public(items[0].to@)
    &&& items[0].kind@ == "Note"@
}

/// The context of ActivityStreams, alone.
fn activity_context() -> (context: Vec<String>)
    ensures
        texts(context@) == seq!["https://www.w3.org/ns/activitystreams"@],
{
    let mut context: Vec<String> = Vec::new();
    context.push(String::from_str("https://www.w3.org/ns/activitystreams"));
    assert(texts(context@) =~= seq!["https://www.w3.org/ns/activitystreams"@]);
    context
}

/// The followers of the podcast `guid`, alone.
fn to_followers(podcast_guid: &str) -> (addresses: Option<Vec<String>>)
    ensures
        is_followers(addresses, podcast_guid@),
{
    let mut addresses: Vec<String> = Vec::new();
    addresses.push(page_url("followers", podcast_guid));
    Some(addresses)
}

/// The address of the conversation of the pinned post.
fn pinned_context(page: &str, podcast_guid: &str) -> (url: String)
    ensures
        url@ == page_address(page@, podcast_guid@) + "&statusid=0"@,
{
    let mut url = page_url(page, podcast_guid);
    url.append("&statusid=0");
    url
}

/// Builds the collection of pinned posts of a podcast: the one post that
/// says what the account is.
pub fn featured(podcast_guid: &str) -> (document: Featured)
    ensures
        is_featured(document, podcast_guid@),
{
    let mut ordered_items: Vec<FeaturedItem> = Vec::new();
    ordered_items.push(
        FeaturedItem {
            at_context: activity_context(),
            actor: page_url("podcasts", podcast_guid),
            attachment: Vec::new(),
            attributed_to: page_url("podcasts", podcast_guid),
            cc: to_followers(podcast_guid),
            content: String::from_str("This account is a podcast.  Follow to see new episodes."),
            context: pinned_context("contexts", podcast_guid),
            conversation: pinned_context("contexts", podcast_guid),
            id: pinned_context("episodes", podcast_guid),
            published: String::from_str("2023-11-09T15:56:28.495803Z"),
            replies_count: 0,
            sensitive: false,
            source: String::from_str("This account is a podcast.  Follow to see new episodes."),
            summary: Some(String::new()),
            tag: Vec::new(),
            to: to_everybody(),
            kind: String::from_str("Note"),
        },
    );
    Featured {
        at_context: activity_context(),
        id: String::from_str("https://www.w3.org/ns/activitystreams"),
        kind: String::from_str("OrderedCollection"),
        total_items: 1,
        ordered_items: Some(ordered_items),
    }
}

/// Whether `status` is a public note of the podcast `guid` with the id
/// `status_id`, addressed to its followers in copy.
pub open spec fn is_status(
    status: Status,
    guid: Seq<char>,
    status_id: Seq<char>,
    published: Seq<char>,
    content: Seq<char>,
) -> bool {
    &&& texts(status.at_context@) == seq!["https://www.w3.org/ns/activitystreams"@]
    &&& status.id@ == page_address("episodes"@, guid) + "&statusid="@ + status_id
    &&& status.kind@ == "Note"@
    &&& status.summary is None
    &&& status.in_reply_to is None
    &&& status.published@ == published
    &&& status.url is None
    &&& status.attributed_to@ == page_address("podcasts"@, guid)
    &&& is_public(status.to@)
    &&& is_followers(status.cc, guid)
    &&& !status.sensitive
    &&& status.conversation@ == page_address("contexts"@, guid) + "&statusid="@ + status_id
    &&& status.content@ == content
    &&& status.attachment is Some
    &&& status.actor@ == page_address("podcasts"@, guid)
    &&& status.tag.len() == 0
    &&& status.replies is None
}

/// The address of a note or of its conversation.
fn status_page(page: &str, podcast_guid: &str, status_id: &str) -> (url: String)
    ensures
        url@ == page_address(page@, podcast_guid@) + "&statusid="@ + status_id@,
{
    let mut url = page_url(page, podcast_guid);
    url.append("&statusid=");
    url.append(status_id);
    url
}

/// Builds the pinned post of a podcast, as a note on its own.
pub fn pinned_status(podcast_guid: &str) -> (status: Status)
    ensures
        is_status(status, podcast_guid@, "0"@, pinned_date(), pinned_text()),
        status.attachment->Some_0.len() == 0,
{
    Status {
        at_context: activity_context(),
        id: status_page("episodes", podcast_guid, "0"),
        kind: String::from_str("Note"),
        summary: None,
        in_reply_to: None,
        published: String::from_str("2023-11-09T15:56:28.495803Z"),
        url: None,
        attributed_to: page_url("podcasts", podcast_guid),
        to: to_everybody(),
        cc: to_followers(podcast_guid),
        sensitive: false,
        conversation: status_page("contexts", podcast_guid, "0"),
        content: String::from_str("This account is a podcast.  Follow to see new episodes."),
        attachment: Some(Vec::new()),
        actor: page_url("podcasts", podcast_guid),
        tag: Vec::new(),
        replies: None,
    }
}

/// Whether the request asks for the pinned post: it does where the note
/// it names is `0`.
pub fn is_pinned(episode_guid: &str) -> (pinned: bool)
    ensures
        pinned == (episode_guid@ == "0"@),
{
    str_eq(episode_guid, "0")
}

/// Builds the note of an episode, as a note on its own, from what the
/// index tells of the episode. The text opens with `Title`, and the image
/// of the episode is attached. An id that is no number names no podcast,
/// and an episode without a date that can be written has no note.
pub fn episodes(podcast_guid: &str, episode_guid: &str, pi_data: &PIEpisode) -> (note: Result<
    Status,
    EndpointError,
>)
    ensures
        parsed_u64(podcast_guid@) is None ==> note == Err::<Status, EndpointError>(
            EndpointError::NoResource,
        ),
        parsed_u64(podcast_guid@) is Some && iso8601_text(pi_data.episode.date_published)
            is None ==> note == Err::<Status, EndpointError>(EndpointError::Encoding),
        parsed_u64(podcast_guid@) is Some && iso8601_text(pi_data.episode.date_published)
            is Some ==> (note matches Ok(status) && is_status(
            status,
            podcast_guid@,
            episode_guid@,
            iso8601_text(pi_data.episode.date_published)->Some_0,
            episode_content("Title"@, pi_data.episode),
        ) && is_image_attachment(status.attachment->Some_0@, episode_image(pi_data.episode))),
{
    let pcid = match parse_u64(podcast_guid) {
        Some(pcid) => pcid,
        None => {
            return Err(EndpointError::NoResource);
        },
    };
    let mut timestamp_param = String::from_str("&ts=");
    let number = u64_to_string(pi_data.episode.date_published);
    timestamp_param.append(number.as_str());
    let episode_object = match build_episode_note_object(
        &pi_data.episode,
        pcid,
        String::from_str("Title"),
        timestamp_param,
    ) {
        Ok(episode_object) => episode_object,
        Err(_) => {
            return Err(EndpointError::Encoding);
        },
    };
    Ok(
        Status {
            at_context: activity_context(),
            id: status_page("episodes", podcast_guid, episode_guid),
            kind: String::from_str("Note"),
            summary: None,
            in_reply_to: None,
            published: episode_object.published,
            url: None,
            attributed_to: page_url("podcasts", podcast_guid),
            to: to_everybody(),
            cc: to_followers(podcast_guid),
            sensitive: false,
            conversation: status_page("contexts", podcast_guid, episode_guid),
            content: episode_object.content,
            attachment: Some(episode_object.attachment),
            actor: page_url("podcasts", podcast_guid),
            tag: Vec::new(),
            replies: None,
        },
    )
}

} // verus!
