//! The notes that podcast actors publish: one for an episode, one for a
//! podcast that goes live, and plain ones in answer to a command.

use std::fmt::Write;
use vstd::prelude::*;
use vstd::string::*;
use vstd::utf8::encode_utf8;
use crate::activity::{Create, NoteAttachment, Object};
use crate::base64::{encode, standard_encoding};
use crate::dbif::HydraError;
use crate::podcastindex::{PIItem, PILiveItem};
use crate::text::{decimal, truncate, truncated, u64_to_string};
use crate::urls::option_view;

verus! {

broadcast use vstd::string::group_string_axioms;

/// The time `utime`, in seconds since 1970, as ISO 8601 text in UTC, such
/// as `2001-07-08T00:34:59+00:00`; `None` for a time that has no such
/// text.
pub uninterp spec fn iso8601_text(utime: u64) -> Option<Seq<char>>;

/// Writes a time as ISO 8601 text.
///
/// Trusted: `TimeZone::timestamp_opt` of `Utc` of `chrono`, on the
/// seconds as a signed number, formatted with `%+`; `None` where there
/// is no such time or it cannot be written. The result is a function of
/// the seconds alone and is named [`iso8601_text`].
#[verifier::external_body]
pub(crate) fn iso8601(utime: u64) -> (text: Option<String>)
    ensures
        text is Some <==> iso8601_text(utime) is Some,
        text matches Some(written) ==> iso8601_text(utime) == Some(written@),
{
    let time = ::chrono::TimeZone::timestamp_opt(&::chrono::Utc, utime as i64, 0).single()?;
    let mut written = String::new();
    write!(written, "{}", time.format("%+")).ok()?;
    Some(written)
}

/// The address that everybody reads.
pub open spec fn public_address() -> Seq<char> {
    "https://www.w3.org/ns/activitystreams#Public"@
}

/// The address of the actor of podcast `podcast_guid`.
pub open spec fn podcast_address(podcast_guid: u64) -> Seq<char> {
    "https://ap.podcastindex.org/podcasts?id="@ + decimal(podcast_guid as nat)
}

/// The id of the key of the actor of podcast `podcast_guid`.
pub open spec fn main_key_id(podcast_guid: u64) -> Seq<char> {
    podcast_address(podcast_guid) + "#main-key"@
}

/// The name of the conversation that `object` opened at `published`.
pub open spec fn conversation_tag(published: Seq<char>, object: Seq<char>) -> Seq<char> {
    "tag:ap.podcastindex.org,"@ + published + ":objectId="@ + object + ":objectType=Conversation"@
}

/// The address of the view `resource` of episode `episode_guid`.
pub open spec fn episode_address(
    podcast_guid: u64,
    episode_guid: Seq<char>,
    resource: Seq<char>,
    suffix: Seq<char>,
) -> Seq<char> {
    "https://ap.podcastindex.org/episodes?id="@ + decimal(podcast_guid as nat) + "&statusid="@
        + episode_guid + "&resource="@ + resource + suffix
}

/// The address of the view `resource` of the live item `episode_guid`
/// published at `date`.
pub open spec fn live_address(
    podcast_guid: u64,
    episode_guid: Seq<char>,
    date: u64,
    resource: Seq<char>,
) -> Seq<char> {
    "https://ap.podcastindex.org/episodes?id="@ + decimal(podcast_guid as nat) + "&statusid="@
        + episode_guid + "&date="@ + decimal(date as nat) + "&type=live&resource="@ + resource
}

/// The address of the view `resource` of the plain note that podcast
/// `podcast_guid` wrote at `now`.
pub open spec fn note_address(podcast_guid: u64, now: u64, resource: Seq<char>) -> Seq<char> {
    "https://ap.podcastindex.org/notes?id="@ + decimal(podcast_guid as nat) + "&statusid="@
        + decimal(now as nat) + "&resource="@ + resource
}

/// The number, or 0 where there is none.
pub open spec fn number_or_zero(number: Option<u64>) -> nat {
    match number {
        Some(n) => n as nat,
        None => 0,
    }
}

/// The link to the comments of an episode: to the first place where it is
/// discussed, where one is named.
pub open spec fn comments_display(episode: PIItem) -> Seq<char> {
    match episode.social_interact {
        Some(places) => if places.len() > 0 {
            "<p><a href=\""@ + (match places[0].uri {
                Some(uri) => uri@,
                None => Seq::empty(),
            }) + "\">Comments Thread</a></p>"@
        } else {
            Seq::empty()
        },
        None => Seq::empty(),
    }
}

/// The link to the transcript of an episode, where it has one.
pub open spec fn transcript_display(episode: PIItem) -> Seq<char> {
    match episode.transcripts {
        Some(transcripts) => if transcripts.len() > 0 {
            "<p><a href=\"https://steno.fm/show/"@ + episode.podcast_guid@ + "/episode/"@
                + standard_encoding(encode_utf8(episode.guid@)) + "\">Transcript</a></p>"@
        } else {
            Seq::empty()
        },
        None => Seq::empty(),
    }
}

/// The links by which an episode opens in the players.
pub open spec fn player_links(episode: PIItem) -> Seq<char> {
    let feed = episode.feed_url@;
    let itunes = decimal(number_or_zero(episode.feed_itunes_id));
    let id = decimal(episode.feed_id as nat);
    let guid = episode.podcast_guid@;
    "<p><a href=\"https://antennapod.org/deeplink/subscribe?url="@ + feed
        + "\">AntennaPod</a> | <a href=\"https://anytimeplayer.app/subscribe?url="@ + feed
        + "\">Anytime Player</a> | <a href=\"https://podcasts.apple.com/podcast/id"@ + itunes
        + "\">Apple Podcasts</a> | <a href=\"https://castamatic.com/guid/"@ + guid
        + "\">Castamatic</a> | <a href=\"https://curiocaster.com/podcast/pi"@ + id
        + "\">CurioCaster</a> | <a href=\"https://fountain.fm/show/"@ + id
        + "\">Fountain</a> | <a href=\"https://gpodder.net/subscribe?url="@ + feed
        + "\">gPodder</a> | <a href=\"https://overcast.fm/itunes"@ + itunes
        + "\">Overcast</a> | <a href=\"https://pcasts.in/feed/"@ + feed
        + "\">Pocket Casts</a> | <a href=\"https://podcastaddict.com/feed/"@ + feed
        + "\">Podcast Addict</a> | <a href=\"https://app.podcastguru.io/podcast/"@ + itunes
        + "\">Podcast Guru</a> | <a href=\"https://podnews.net/podcast/pi"@ + id
        + "\">Podnews</a> | <a href=\"https://api.podverse.fm/api/v1/podcast/podcastindex/"@ + id
        + "\">Podverse</a> | <a href=\"https://truefans.fm/"@ + guid + "\">Truefans</a></p>"@
}

/// The text of the note for an episode. Title and description are cut to
/// 256 characters.
pub open spec fn episode_content(intro: Seq<char>, episode: PIItem) -> Seq<char> {
    "<p>"@ + intro + ": <a href=\"https://podcastindex.org/podcast/"@ + decimal(
        episode.feed_id as nat,
    ) + "?episode="@ + decimal(episode.id as nat) + "\">"@ + truncated(episode.title@, 256)
        + "</a></p><p>Shownotes:<br>"@ + truncated(episode.description@, 256) + "</p>"@
        + comments_display(episode) + transcript_display(episode) + player_links(episode)
        + "<p>Or <a href=\""@ + episode.enclosure_url@ + "\">Listen</a> right here.</p>"@
}

/// The text of the note for a live item. The title is cut to 256
/// characters.
pub open spec fn live_content(episode: PILiveItem) -> Seq<char> {
    let id = decimal(episode.feed_id as nat);
    "<p>Listen Live!</p><p>"@ + truncated(episode.title@, 256)
        + "</p><p><a href=\"https://curiocaster.com/podcast/pi"@ + id
        + "\">CurioCaster</a><br><a href=\"https://fountain.fm/show/"@ + id
        + "\">Fountain</a><br><a href=\"https://podcastaddict.com/feed/"@ + episode.feed_url@
        + "\">Podcast Addict</a><br><a href=\"https://app.podcastguru.io/podcast/"@ + decimal(
        number_or_zero(episode.feed_itunes_id),
    ) + "\">Podcast Guru</a><br><a href=\"https://api.podverse.fm/api/v1/podcast/podcastindex/"@
        + id + "\">Podverse</a><br><a href=\"https://truefans.fm/"@ + episode.podcast_guid@
        + "\">Truefans</a></p><p>Or <a href=\""@ + episode.enclosure_url@
        + "\">Stream</a> here.</p>"@
}

/// Whether `attachments` is the one image `image`, 640 wide.
pub open spec fn is_image_attachment(attachments: Seq<NoteAttachment>, image: Seq<char>) -> bool {
    &&& attachments.len() == 1
    &&& option_view(attachments[0].kind) == Some("Document"@)
    &&& attachments[0].media_type is None
    &&& option_view(attachments[0].url) == Some(image)
    &&& attachments[0].name is None
    &&& attachments[0].blurhash is None
    &&& attachments[0].width == Some(640u64)
    &&& attachments[0].height is None
    &&& attachments[0].value is None
}

/// Whether `addresses` holds the public address and no other.
pub open spec fn is_public(addresses: Seq<String>) -> bool {
    addresses.len() == 1 && addresses[0]@ == public_address()
}

/// Whether `note` is the public note of podcast `podcast_guid` with these
/// parts, in reply to nothing.
pub open spec fn is_note(
    note: Object,
    podcast_guid: u64,
    id: Seq<char>,
    url: Seq<char>,
    published: Seq<char>,
    conversation: Seq<char>,
    content: Seq<char>,
) -> bool {
    &&& note.id@ == id
    &&& note.kind@ == "Note"@
    &&& note.summary is None
    &&& note.in_reply_to is None
    &&& note.published@ == published
    &&& note.url@ == url
    &&& note.attributed_to@ == podcast_address(podcast_guid)
    &&& is_public(note.to@)
    &&& note.cc is None
    &&& !note.sensitive
    &&& note.conversation@ == conversation
    &&& note.content@ == content
}

/// The image of an episode: its own, or that of the feed where it has
/// none.
pub open spec fn episode_image(episode: PIItem) -> Seq<char> {
    if episode.image@.len() == 0 {
        episode.feed_image@
    } else {
        episode.image@
    }
}

/// Whether `note` is the note for `episode` of podcast `podcast_guid`,
/// published at the time that `published` writes.
pub open spec fn is_episode_note(
    note: Object,
    episode: PIItem,
    podcast_guid: u64,
    intro: Seq<char>,
    suffix: Seq<char>,
    published: Seq<char>,
) -> bool {
    &&& is_note(
        note,
        podcast_guid,
        episode_address(podcast_guid, episode.guid@, "post"@, suffix),
        episode_address(podcast_guid, episode.guid@, "public"@, suffix),
        published,
        conversation_tag(published, episode.guid@),
        episode_content(intro, episode),
    )
    &&& is_image_attachment(note.attachment@, episode_image(episode))
}

/// Appends the decimal numeral of `n`.
fn append_number(s: &mut String, n: u64)
    ensures
        final(s)@ == old(s)@ + decimal(n as nat),
{
    let number = u64_to_string(n);
    s.append(number.as_str());
}

/// The address of the actor of podcast `podcast_guid`.
pub fn podcast_url(podcast_guid: u64) -> (url: String)
    ensures
        url@ == podcast_address(podcast_guid),
{
    let mut url = String::from_str("https://ap.podcastindex.org/podcasts?id=");
    append_number(&mut url, podcast_guid);
    url
}

/// The id of the key of the actor of podcast `podcast_guid`.
pub fn key_id(podcast_guid: u64) -> (id: String)
    ensures
        id@ == main_key_id(podcast_guid),
{
    let mut id = podcast_url(podcast_guid);
    id.append("#main-key");
    id
}

/// The name of the conversation that `object` opened at `published`.
fn conversation_name(published: &str, object: &str) -> (name: String)
    ensures
        name@ == conversation_tag(published@, object@),
{
    let mut name = String::from_str("tag:ap.podcastindex.org,");
    name.append(published);
    name.append(":objectId=");
    name.append(object);
    name.append(":objectType=Conversation");
    name
}

/// The address of the view `resource` of an episode.
fn episode_url(podcast_guid: u64, episode_guid: &str, resource: &str, suffix: &str) -> (url: String)
    ensures
        url@ == episode_address(podcast_guid, episode_guid@, resource@, suffix@),
{
    let mut url = String::from_str("https://ap.podcastindex.org/episodes?id=");
    append_number(&mut url, podcast_guid);
    url.append("&statusid=");
    url.append(episode_guid);
    url.append("&resource=");
    url.append(resource);
    url.append(suffix);
    url
}

/// The address of the view `resource` of a live item.
fn live_url(podcast_guid: u64, episode_guid: &str, date: u64, resource: &str) -> (url: String)
    ensures
        url@ == live_address(podcast_guid, episode_guid@, date, resource@),
{
    let mut url = String::from_str("https://ap.podcastindex.org/episodes?id=");
    append_number(&mut url, podcast_guid);
    url.append("&statusid=");
    url.append(episode_guid);
    url.append("&date=");
    append_number(&mut url, date);
    url.append("&type=live&resource=");
    url.append(resource);
    url
}

/// The address of the view `resource` of a plain note.
fn note_url(podcast_guid: u64, now: u64, resource: &str) -> (url: String)
    ensures
        url@ == note_address(podcast_guid, now, resource@),
{
    let mut url = String::from_str("https://ap.podcastindex.org/notes?id=");
    append_number(&mut url, podcast_guid);
    url.append("&statusid=");
    append_number(&mut url, now);
    url.append("&resource=");
    url.append(resource);
    url
}

/// The public address, alone.
fn to_public() -> (addresses: Vec<String>)
    ensures
        is_public(addresses@),
{
    let mut addresses: Vec<String> = Vec::new();
    addresses.push(String::from_str("https://www.w3.org/ns/activitystreams#Public"));
    addresses
}

/// The one image `image`, 640 wide.
fn image_attachment(image: String) -> (attachments: Vec<NoteAttachment>)
    ensures
        is_image_attachment(attachments@, image@),
{
    let mut attachments: Vec<NoteAttachment> = Vec::new();
    attachments.push(
        NoteAttachment {
            kind: Some(String::from_str("Document")),
            media_type: None,
            url: Some(image),
            name: None,
            blurhash: None,
            width: Some(640),
            height: None,
            value: None,
        },
    );
    attachments
}

/// The link to the comments of an episode.
fn comments_link(episode: &PIItem) -> (display: String)
    ensures
        display@ == comments_display(*episode),
{
    match &episode.social_interact {
        Some(places) => {
            if places.len() > 0 {
                let mut display = String::from_str("<p><a href=\"");
                match &places[0].uri {
                    Some(uri) => {
                        display.append(uri.as_str());
                    },
                    None => {
                        assert(display@ + Seq::<char>::empty() =~= display@);
                    },
                }
                display.append("\">Comments Thread</a></p>");
                display
            } else {
                String::new()
            }
        },
        None => String::new(),
    }
}

/// The link to the transcript of an episode.
fn transcript_link(episode: &PIItem) -> (display: String)
    ensures
        display@ == transcript_display(*episode),
{
    match &episode.transcripts {
        Some(transcripts) => {
            if transcripts.len() > 0 {
                let mut display = String::from_str("<p><a href=\"https://steno.fm/show/");
                display.append(episode.podcast_guid.as_str());
                display.append("/episode/");
                let encoded = encode(episode.guid.as_str().as_bytes());
                display.append(encoded.as_str());
                display.append("\">Transcript</a></p>");
                display
            } else {
                String::new()
            }
        },
        None => String::new(),
    }
}

/// The links by which an episode opens in the players.
fn players(episode: &PIItem) -> (links: String)
    ensures
        links@ == player_links(*episode),
{
    let feed = episode.feed_url.as_str();
    let itunes: u64 = match episode.feed_itunes_id {
        Some(n) => n,
        None => 0,
    };
    let id = episode.feed_id;
    let guid = episode.podcast_guid.as_str();
    let mut links = String::from_str("<p><a href=\"https://antennapod.org/deeplink/subscribe?url=");
    links.append(feed);
    links.append("\">AntennaPod</a> | <a href=\"https://anytimeplayer.app/subscribe?url=");
    links.append(feed);
    links.append("\">Anytime Player</a> | <a href=\"https://podcasts.apple.com/podcast/id");
    append_number(&mut links, itunes);
    links.append("\">Apple Podcasts</a> | <a href=\"https://castamatic.com/guid/");
    links.append(guid);
    links.append("\">Castamatic</a> | <a href=\"https://curiocaster.com/podcast/pi");
    append_number(&mut links, id);
    links.append("\">CurioCaster</a> | <a href=\"https://fountain.fm/show/");
    append_number(&mut links, id);
    links.append("\">Fountain</a> | <a href=\"https://gpodder.net/subscribe?url=");
    links.append(feed);
    links.append("\">gPodder</a> | <a href=\"https://overcast.fm/itunes");
    append_number(&mut links, itunes);
    links.append("\">Overcast</a> | <a href=\"https://pcasts.in/feed/");
    links.append(feed);
    links.append("\">Pocket Casts</a> | <a href=\"https://podcastaddict.com/feed/");
    links.append(feed);
    links.append("\">Podcast Addict</a> | <a href=\"https://app.podcastguru.io/podcast/");
    append_number(&mut links, itunes);
    links.append("\">Podcast Guru</a> | <a href=\"https://podnews.net/podcast/pi");
    append_number(&mut links, id);
    links.append(
        "\">Podnews</a> | <a href=\"https://api.podverse.fm/api/v1/podcast/podcastindex/",
    );
    append_number(&mut links, id);
    links.append("\">Podverse</a> | <a href=\"https://truefans.fm/");
    links.append(guid);
    links.append("\">Truefans</a></p>");
    links
}

/// The text of the note for an episode.
fn episode_text(intro: &str, episode: &PIItem) -> (content: String)
    ensures
        content@ == episode_content(intro@, *episode),
{
    let mut content = String::from_str("<p>");
    content.append(intro);
    content.append(": <a href=\"https://podcastindex.org/podcast/");
    append_number(&mut content, episode.feed_id);
    content.append("?episode=");
    append_number(&mut content, episode.id);
    content.append("\">");
    let title = truncate(episode.title.as_str(), 256);
    content.append(title.as_str());
    content.append("</a></p><p>Shownotes:<br>");
    let description = truncate(episode.description.as_str(), 256);
    content.append(description.as_str());
    content.append("</p>");
    let comments = comments_link(episode);
    content.append(comments.as_str());
    let transcript = transcript_link(episode);
    content.append(transcript.as_str());
    let links = players(episode);
    content.append(links.as_str());
    content.append("<p>Or <a href=\"");
    content.append(episode.enclosure_url.as_str());
    content.append("\">Listen</a> right here.</p>");
    content
}

/// The text of the note for a live item.
fn live_text(episode: &PILiveItem) -> (content: String)
    ensures
        content@ == live_content(*episode),
{
    let id = episode.feed_id;
    let itunes: u64 = match episode.feed_itunes_id {
        Some(n) => n,
        None => 0,
    };
    let mut content = String::from_str("<p>Listen Live!</p><p>");
    let title = truncate(episode.title.as_str(), 256);
    content.append(title.as_str());
    content.append("</p><p><a href=\"https://curiocaster.com/podcast/pi");
    append_number(&mut content, id);
    content.append("\">CurioCaster</a><br><a href=\"https://fountain.fm/show/");
    append_number(&mut content, id);
    content.append("\">Fountain</a><br><a href=\"https://podcastaddict.com/feed/");
    content.append(episode.feed_url.as_str());
    content.append("\">Podcast Addict</a><br><a href=\"https://app.podcastguru.io/podcast/");
    append_number(&mut content, itunes);
    content.append(
        "\">Podcast Guru</a><br><a href=\"https://api.podverse.fm/api/v1/podcast/podcastindex/",
    );
    append_number(&mut content, id);
    content.append("\">Podverse</a><br><a href=\"https://truefans.fm/");
    content.append(episode.podcast_guid.as_str());
    content.append("\">Truefans</a></p><p>Or <a href=\"");
    content.append(episode.enclosure_url.as_str());
    content.append("\">Stream</a> here.</p>");
    content
}

/// Builds the note for an episode.
///
/// `intro_text` opens the note. `timestamp_param` ends the id and the
/// address of the note: a note that was asked for carries the time there,
/// so that it counts as new where it arrives. The note fails for an
/// episode published at a time that has no ISO 8601 text.
pub fn build_episode_note_object(
    episode: &PIItem,
    podcast_guid: u64,
    intro_text: String,
    timestamp_param: String,
) -> (built: Result<Object, HydraError>)
    ensures
        built is Ok <==> iso8601_text(episode.date_published) is Some,
        built matches Ok(note) ==> is_episode_note(
            note,
            *episode,
            podcast_guid,
            intro_text@,
            timestamp_param@,
            iso8601_text(episode.date_published)->Some_0,
        ),
{
    let published = match iso8601(episode.date_published) {
        Some(published) => published,
        None => {
            return Err(HydraError(String::from_str("The episode has no date.")));
        },
    };
    let episode_image = if episode.image.as_str().is_empty() {
        episode.feed_image.clone()
    } else {
        episode.image.clone()
    };
    Ok(
        Object {
            id: episode_url(
                podcast_guid,
                episode.guid.as_str(),
                "post",
                timestamp_param.as_str(),
            ),
            kind: String::from_str("Note"),
            summary: None,
            in_reply_to: None,
            url: episode_url(
                podcast_guid,
                episode.guid.as_str(),
                "public",
                timestamp_param.as_str(),
            ),
            attributed_to: podcast_url(podcast_guid),
            to: to_public(),
            cc: None,
            sensitive: false,
            conversation: conversation_name(published.as_str(), episode.guid.as_str()),
            published,
            content: episode_text(intro_text.as_str(), episode),
            attachment: image_attachment(episode_image),
        },
    )
}

/// Whether `activity` publishes `note` in the name of podcast
/// `podcast_guid`, to everybody.
pub open spec fn is_create(
    activity: Create,
    podcast_guid: u64,
    id: Seq<char>,
    published: Seq<char>,
) -> bool {
    &&& activity.at_context@ == "https://www.w3.org/ns/activitystreams"@
    &&& activity.id@ == id
    &&& activity.kind@ == "Create"@
    &&& activity.actor@ == podcast_address(podcast_guid)
    &&& activity.published@ == published
    &&& is_public(activity.to@)
    &&& activity.cc is None
}

/// The note `note`, as a reply to `in_reply_to` where that names
/// something.
pub open spec fn in_reply(note: Object, in_reply_to: Option<String>) -> Object {
    match in_reply_to {
        Some(parent) => Object { in_reply_to: Some(parent), ..note },
        None => note,
    }
}

/// The end of the id of an episode note: the time for a note that was
/// asked for, nothing for one that announces a new episode.
pub open spec fn timestamp_suffix(requested: bool, now: u64) -> Seq<char> {
    if requested {
        "&ts="@ + decimal(now as nat)
    } else {
        Seq::empty()
    }
}

/// How an episode note opens.
pub open spec fn episode_intro(requested: bool) -> Seq<char> {
    if requested {
        "Latest Episode"@
    } else {
        "New Episode"@
    }
}

/// Whether `activity` publishes the note for `episode`.
pub open spec fn is_episode_create(
    activity: Create,
    podcast_guid: u64,
    episode: PIItem,
    requested: bool,
    in_reply_to: Option<String>,
    now: u64,
    published: Seq<char>,
) -> bool {
    let suffix = timestamp_suffix(requested, now);
    &&& is_create(
        activity,
        podcast_guid,
        episode_address(podcast_guid, episode.guid@, "activity"@, suffix),
        published,
    )
    &&& exists|note: Object|
        is_episode_note(note, episode, podcast_guid, episode_intro(requested), suffix, published)
            && activity.object == in_reply(note, in_reply_to)
}

/// Builds the activity that publishes the note for an episode.
///
/// A note that was `requested` opens with `Latest Episode` and carries the
/// time `now` in its ids; one that announces opens with `New Episode`.
/// With `in_reply_to`, the note replies to that object.
pub fn build_episode_create(
    podcast_guid: u64,
    episode: &PIItem,
    requested: bool,
    in_reply_to: Option<String>,
    now: u64,
) -> (built: Result<Create, HydraError>)
    ensures
        built is Ok <==> iso8601_text(episode.date_published) is Some,
        built matches Ok(activity) ==> is_episode_create(
            activity,
            podcast_guid,
            *episode,
            requested,
            in_reply_to,
            now,
            iso8601_text(episode.date_published)->Some_0,
        ),
{
    let mut intro_text = String::from_str("New Episode");
    let mut timestamp_param = String::new();
    if requested {
        timestamp_param = String::from_str("&ts=");
        append_number(&mut timestamp_param, now);
        intro_text = String::from_str("Latest Episode");
    }
    let id = episode_url(
        podcast_guid,
        episode.guid.as_str(),
        "activity",
        timestamp_param.as_str(),
    );
    let note = match build_episode_note_object(episode, podcast_guid, intro_text, timestamp_param) {
        Ok(note) => note,
        Err(e) => {
            return Err(e);
        },
    };
    let published = note.published.clone();
    let ghost plain = note;
    let object = match in_reply_to {
        Some(parent) => Object {
            id: note.id,
            kind: note.kind,
            summary: note.summary,
            in_reply_to: Some(parent),
            published: note.published,
            url: note.url,
            attributed_to: note.attributed_to,
            to: note.to,
            cc: note.cc,
            sensitive: note.sensitive,
            conversation: note.conversation,
            content: note.content,
            attachment: note.attachment,
        },
        None => note,
    };
    assert(object == in_reply(plain, in_reply_to));
    Ok(
        Create {
            at_context: String::from_str("https://www.w3.org/ns/activitystreams"),
            id,
            kind: String::from_str("Create"),
            actor: podcast_url(podcast_guid),
            published,
            to: to_public(),
            cc: None,
            object,
        },
    )
}

/// Whether `activity` publishes the plain note `text` that podcast
/// `podcast_guid` wrote at `now`.
pub open spec fn is_note_create(
    activity: Create,
    podcast_guid: u64,
    text: Seq<char>,
    in_reply_to: Option<String>,
    now: u64,
    published: Seq<char>,
) -> bool {
    &&& is_create(activity, podcast_guid, note_address(podcast_guid, now, "activity"@), published)
    &&& exists|note: Object|
        is_note(
            note,
            podcast_guid,
            note_address(podcast_guid, now, "post"@),
            note_address(podcast_guid, now, "public"@),
            published,
            conversation_tag(published, decimal(now as nat)),
            text,
        ) && note.attachment.len() == 0 && activity.object == in_reply(note, in_reply_to)
}

/// Builds the activity that publishes a plain note, written at `now`.
pub fn build_note_create(podcast_guid: u64, note: String, in_reply_to: Option<String>, now: u64) -> (built:
    Result<Create, HydraError>)
    ensures
        built is Ok <==> iso8601_text(now) is Some,
        built matches Ok(activity) ==> is_note_create(
            activity,
            podcast_guid,
            note@,
            in_reply_to,
            now,
            iso8601_text(now)->Some_0,
        ),
{
    let published = match iso8601(now) {
        Some(published) => published,
        None => {
            return Err(HydraError(String::from_str("The note has no date.")));
        },
    };
    let written = u64_to_string(now);
    let plain = Object {
        id: note_url(podcast_guid, now, "post"),
        kind: String::from_str("Note"),
        summary: None,
        in_reply_to: None,
        published: published.clone(),
        url: note_url(podcast_guid, now, "public"),
        attributed_to: podcast_url(podcast_guid),
        to: to_public(),
        cc: None,
        sensitive: false,
        conversation: conversation_name(published.as_str(), written.as_str()),
        content: note,
        attachment: Vec::new(),
    };
    let ghost unanswered = plain;
    let object = match in_reply_to {
        Some(parent) => Object {
            id: plain.id,
            kind: plain.kind,
            summary: plain.summary,
            in_reply_to: Some(parent),
            published: plain.published,
            url: plain.url,
            attributed_to: plain.attributed_to,
            to: plain.to,
            cc: plain.cc,
            sensitive: plain.sensitive,
            conversation: plain.conversation,
            content: plain.content,
            attachment: plain.attachment,
        },
        None => plain,
    };
    assert(object == in_reply(unanswered, in_reply_to));
    Ok(
        Create {
            at_context: String::from_str("https://www.w3.org/ns/activitystreams"),
            id: note_url(podcast_guid, now, "activity"),
            kind: String::from_str("Create"),
            actor: podcast_url(podcast_guid),
            published,
            to: to_public(),
            cc: None,
            object,
        },
    )
}

/// Whether `activity` publishes the note for the live item `episode`.
pub open spec fn is_live_create(
    activity: Create,
    podcast_guid: u64,
    episode: PILiveItem,
    published: Seq<char>,
) -> bool {
    let date = episode.date_published;
    &&& is_create(
        activity,
        podcast_guid,
        live_address(podcast_guid, episode.guid@, date, "activity"@),
        published,
    )
    &&& is_note(
        activity.object,
        podcast_guid,
        live_address(podcast_guid, episode.guid@, date, "post"@),
        live_address(podcast_guid, episode.guid@, date, "public"@),
        published,
        conversation_tag(published, episode.guid@),
        live_content(episode),
    )
    &&& is_image_attachment(activity.object.attachment@, episode.feed_image@)
}

/// Builds the activity that publishes the note for a live item.
pub fn build_live_create(podcast_guid: u64, episode: &PILiveItem) -> (built: Result<
    Create,
    HydraError,
>)
    ensures
        built is Ok <==> iso8601_text(episode.date_published) is Some,
        built matches Ok(activity) ==> is_live_create(
            activity,
            podcast_guid,
            *episode,
            iso8601_text(episode.date_published)->Some_0,
        ),
{
    let published = match iso8601(episode.date_published) {
        Some(published) => published,
        None => {
            return Err(HydraError(String::from_str("The live item has no date.")));
        },
    };
    let guid = episode.guid.as_str();
    let date = episode.date_published;
    Ok(
        Create {
            at_context: String::from_str("https://www.w3.org/ns/activitystreams"),
            id: live_url(podcast_guid, guid, date, "activity"),
            kind: String::from_str("Create"),
            actor: podcast_url(podcast_guid),
            published: published.clone(),
            to: to_public(),
            cc: None,
            object: Object {
                id: live_url(podcast_guid, guid, date, "post"),
                kind: String::from_str("Note"),
                summary: None,
                in_reply_to: None,
                url: live_url(podcast_guid, guid, date, "public"),
                attributed_to: podcast_url(podcast_guid),
                to: to_public(),
                cc: None,
                sensitive: false,
                conversation: conversation_name(published.as_str(), guid),
                published,
                content: live_text(episode),
                attachment: image_attachment(episode.feed_image.clone()),
            },
        },
    )
}

} // verus!
