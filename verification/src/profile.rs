//! The profile of a podcast actor, as other servers read it.

use vstd::prelude::*;
use vstd::string::*;
use crate::activity::{Actor, ActorKeys, Attachment, Endpoints, Icon, PublicKey};
use crate::dbif::HydraError;
use crate::fanout::texts;
use crate::notes::{key_id, main_key_id, podcast_address, podcast_url};
use crate::podcastindex::{PIFeed, PIFunding, PIPodcast};
use crate::text::{decimal, truncate, truncated, u64_to_string};
use crate::urls::option_view;

verus! {

broadcast use vstd::string::group_string_axioms;

/// The address `page` of this server for podcast `podcast_guid`.
pub open spec fn server_address(page: Seq<char>, podcast_guid: u64) -> Seq<char> {
    "https://ap.podcastindex.org/"@ + page + "?id="@ + decimal(podcast_guid as nat)
}

/// The page of podcast `podcast_guid` at the index.
pub open spec fn index_page(podcast_guid: u64) -> Seq<char> {
    "https://podcastindex.org/podcast/"@ + decimal(podcast_guid as nat)
}

/// A link to `href` that shows `shown`.
pub open spec fn profile_link(href: Seq<char>, shown: Seq<char>) -> Seq<char> {
    "<a href='"@ + href + "' rel='ugc'>"@ + shown + "</a>"@
}

/// Whether `attachment` is the property `name` with the value `value`.
pub open spec fn is_property(attachment: Attachment, name: Seq<char>, value: Seq<char>) -> bool {
    &&& option_view(attachment.name) == Some(name)
    &&& attachment.kind@ == "PropertyValue"@
    &&& option_view(attachment.value) == Some(value)
}

/// Where a feed asks for support, and in which words: the words are the
/// address where none are given, and the address is empty where none is
/// given.
pub open spec fn funding_link(funding: PIFunding) -> Seq<char> {
    let url = match funding.url {
        Some(url) => url@,
        None => Seq::empty(),
    };
    let message = match funding.message {
        Some(message) => message@,
        None => url,
    };
    profile_link(url, message)
}

/// Whether `attachments` are the properties of `feed`: its page at the
/// index, its website, its feed and its guid, and how it asks for support
/// where it does.
pub open spec fn are_feed_properties(attachments: Seq<Attachment>, feed: PIFeed) -> bool {
    &&& attachments.len() == if feed.funding is Some {
        5int
    } else {
        4int
    }
    &&& is_property(attachments[0], "Index"@, profile_link(index_page(feed.id), index_page(feed.id)))
    &&& is_property(attachments[1], "Website"@, profile_link(feed.link@, feed.link@))
    &&& is_property(attachments[2], "RSS"@, profile_link(feed.url@, feed.url@))
    &&& is_property(attachments[3], "Podcast Guid"@, feed.podcast_guid@)
    &&& feed.funding matches Some(funding) ==> is_property(
        attachments[4],
        "Funding"@,
        funding_link(funding),
    )
}

/// Whether `actor` is the profile of the podcast `feed` with the public
/// key `public_key_pem`. The name is the title cut to 48 characters, the
/// summary the description cut to 96.
pub open spec fn is_podcast_actor(actor: Actor, feed: PIFeed, public_key_pem: Seq<char>) -> bool {
    let guid = feed.id;
    &&& texts(actor.at_context@) == seq![
        "https://www.w3.org/ns/activitystreams"@,
        "https://w3id.org/security/v1"@,
    ]
    &&& actor.id@ == podcast_address(guid)
    &&& actor.kind@ == "Service"@
    &&& actor.discoverable == Some(true)
    &&& actor.indexable == Some(true)
    &&& option_view(actor.preferred_username) == Some(decimal(guid as nat))
    &&& option_view(actor.published) == Some("2023-11-09T15:56:28.495803Z"@)
    &&& actor.memorial == Some(false)
    &&& actor.devices is None
    &&& option_view(actor.name) == Some(truncated(feed.title@, 48))
    &&& actor.inbox@ == server_address("inbox"@, guid)
    &&& actor.outbox@ == server_address("outbox"@, guid)
    &&& option_view(actor.featured) == Some(server_address("featured"@, guid))
    &&& option_view(actor.followers) == Some(server_address("followers"@, guid))
    &&& option_view(actor.following) == Some(server_address("following"@, guid))
    &&& actor.icon matches Some(icon) && icon.kind@ == "Image"@ && icon.media_type is None
        && icon.url@ == feed.image@
    &&& option_view(actor.summary) == Some(truncated(feed.description@, 96))
    &&& option_view(actor.url) == Some(index_page(guid))
    &&& actor.manually_approves_followers == Some(false)
    &&& actor.attachment matches Some(attachments) && are_feed_properties(attachments@, feed)
    &&& actor.public_key.id@ == main_key_id(guid)
    &&& actor.public_key.owner@ == podcast_address(guid)
    &&& actor.public_key.public_key_pem@ == public_key_pem
    &&& actor.endpoints matches Some(endpoints) && endpoints.shared_inbox@
        == "https://ap.podcastindex.org/inbox?id=0"@
}

/// The address `page` of this server for podcast `podcast_guid`.
pub fn server_url(page: &str, podcast_guid: u64) -> (url: String)
    ensures
        url@ == server_address(page@, podcast_guid),
{
    let mut url = String::from_str("https://ap.podcastindex.org/");
    url.append(page);
    url.append("?id=");
    let number = u64_to_string(podcast_guid);
    url.append(number.as_str());
    url
}

/// The page of podcast `podcast_guid` at the index.
pub fn index_url(podcast_guid: u64) -> (url: String)
    ensures
        url@ == index_page(podcast_guid),
{
    let mut url = String::from_str("https://podcastindex.org/podcast/");
    let number = u64_to_string(podcast_guid);
    url.append(number.as_str());
    url
}

/// The property `name` with the value `value`.
fn property(name: &str, value: String) -> (attachment: Attachment)
    ensures
        is_property(attachment, name@, value@),
{
    Attachment {
        name: Some(String::from_str(name)),
        kind: String::from_str("PropertyValue"),
        value: Some(value),
    }
}

/// A link to `href` that shows `shown`.
fn link(href: &str, shown: &str) -> (text: String)
    ensures
        text@ == profile_link(href@, shown@),
{
    let mut text = String::from_str("<a href='");
    text.append(href);
    text.append("' rel='ugc'>");
    text.append(shown);
    text.append("</a>");
    text
}

/// Builds the profile of a podcast actor from what the index tells of the
/// podcast, with the public key of the actor.
pub fn ap_build_actor_object(podcast_data: PIPodcast, actor_keys: ActorKeys) -> (built: Result<
    Actor,
    HydraError,
>)
    ensures
        built matches Ok(actor) && is_podcast_actor(
            actor,
            podcast_data.feed,
            actor_keys.pem_public_key@,
        ),
{
    let feed = &podcast_data.feed;
    let podcast_guid = feed.id;
    let page = index_url(podcast_guid);
    let mut attachments: Vec<Attachment> = Vec::new();
    attachments.push(property("Index", link(page.as_str(), page.as_str())));
    attachments.push(property("Website", link(feed.link.as_str(), feed.link.as_str())));
    attachments.push(property("RSS", link(feed.url.as_str(), feed.url.as_str())));
    attachments.push(property("Podcast Guid", feed.podcast_guid.clone()));
    match &feed.funding {
        Some(funding) => {
            let funding_url = match &funding.url {
                Some(url) => url.clone(),
                None => String::new(),
            };
            let funding_message = match &funding.message {
                Some(message) => message.clone(),
                None => funding_url.clone(),
            };
            attachments.push(
                property("Funding", link(funding_url.as_str(), funding_message.as_str())),
            );
        },
        None => {},
    }
    let mut at_context: Vec<String> = Vec::new();
    at_context.push(String::from_str("https://www.w3.org/ns/activitystreams"));
    at_context.push(String::from_str("https://w3id.org/security/v1"));
    assert(texts(at_context@) =~= seq![
        "https://www.w3.org/ns/activitystreams"@,
        "https://w3id.org/security/v1"@,
    ]);
    let actor = Actor {
        at_context,
        id: podcast_url(podcast_guid),
        kind: String::from_str("Service"),
        discoverable: Some(true),
        indexable: Some(true),
        preferred_username: Some(u64_to_string(podcast_guid)),
        published: Some(String::from_str("2023-11-09T15:56:28.495803Z")),
        memorial: Some(false),
        devices: None,
        name: Some(truncate(feed.title.as_str(), 48)),
        inbox: server_url("inbox", podcast_guid),
        outbox: server_url("outbox", podcast_guid),
        featured: Some(server_url("featured", podcast_guid)),
        followers: Some(server_url("followers", podcast_guid)),
        following: Some(server_url("following", podcast_guid)),
        icon: Some(
            Icon { kind: String::from_str("Image"), media_type: None, url: feed.image.clone() },
        ),
        summary: Some(truncate(feed.description.as_str(), 96)),
        url: Some(index_url(podcast_guid)),
        manually_approves_followers: Some(false),
        attachment: Some(attachments),
        public_key: PublicKey {
            id: key_id(podcast_guid),
            owner: podcast_url(podcast_guid),
            public_key_pem: actor_keys.pem_public_key,
        },
        endpoints: Some(
            Endpoints { shared_inbox: String::from_str("https://ap.podcastindex.org/inbox?id=0") },
        ),
    };
    Ok(actor)
}

} // verus!
