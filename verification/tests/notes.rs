use ap_bridge::activity::ActorKeys;
use ap_bridge::notes::{
    build_episode_create, build_episode_note_object, build_live_create, build_note_create, key_id,
    podcast_url,
};
use ap_bridge::podcastindex::{
    PIFeed, PIFunding, PIItem, PILiveItem, PIPodcast, PISocialInteract, PITranscript,
};
use ap_bridge::profile::{ap_build_actor_object, index_url, server_url};

fn episode() -> PIItem {
    PIItem {
        id: 16795090,
        title: "Episode 1".to_string(),
        link: "https://pod.example/1".to_string(),
        description: "About things".to_string(),
        guid: "guid-1".to_string(),
        date_published: 1700000000,
        date_published_pretty: "November 14, 2023".to_string(),
        enclosure_url: "https://pod.example/1.mp3".to_string(),
        enclosure_type: "audio/mpeg".to_string(),
        duration: 60,
        image: "".to_string(),
        feed_image: "https://pod.example/feed.png".to_string(),
        feed_url: "https://pod.example/feed.xml".to_string(),
        podcast_guid: "pg-1".to_string(),
        feed_id: 920666,
        feed_itunes_id: Some(123),
        social_interact: None,
        transcripts: None,
    }
}

const LINKS: &str = "<p><a href=\"https://antennapod.org/deeplink/subscribe?url=https://pod.example/feed.xml\">AntennaPod</a> | <a href=\"https://anytimeplayer.app/subscribe?url=https://pod.example/feed.xml\">Anytime Player</a> | <a href=\"https://podcasts.apple.com/podcast/id123\">Apple Podcasts</a> | <a href=\"https://castamatic.com/guid/pg-1\">Castamatic</a> | <a href=\"https://curiocaster.com/podcast/pi920666\">CurioCaster</a> | <a href=\"https://fountain.fm/show/920666\">Fountain</a> | <a href=\"https://gpodder.net/subscribe?url=https://pod.example/feed.xml\">gPodder</a> | <a href=\"https://overcast.fm/itunes123\">Overcast</a> | <a href=\"https://pcasts.in/feed/https://pod.example/feed.xml\">Pocket Casts</a> | <a href=\"https://podcastaddict.com/feed/https://pod.example/feed.xml\">Podcast Addict</a> | <a href=\"https://app.podcastguru.io/podcast/123\">Podcast Guru</a> | <a href=\"https://podnews.net/podcast/pi920666\">Podnews</a> | <a href=\"https://api.podverse.fm/api/v1/podcast/podcastindex/920666\">Podverse</a> | <a href=\"https://truefans.fm/pg-1\">Truefans</a></p>";

#[test]
fn addresses_are_built_from_the_id() {
    assert_eq!(podcast_url(42), "https://ap.podcastindex.org/podcasts?id=42");
    assert_eq!(key_id(42), "https://ap.podcastindex.org/podcasts?id=42#main-key");
    assert_eq!(server_url("inbox", 42), "https://ap.podcastindex.org/inbox?id=42");
    assert_eq!(index_url(42), "https://podcastindex.org/podcast/42");
}

#[test]
fn an_episode_note_has_its_parts() {
    let note = build_episode_note_object(&episode(), 920666, "New Episode".to_string(), "".to_string()).unwrap();
    assert_eq!(note.id, "https://ap.podcastindex.org/episodes?id=920666&statusid=guid-1&resource=post");
    assert_eq!(note.kind, "Note");
    assert_eq!(note.summary, None);
    assert_eq!(note.in_reply_to, None);
    assert_eq!(note.published, "2023-11-14T22:13:20+00:00");
    assert_eq!(note.url, "https://ap.podcastindex.org/episodes?id=920666&statusid=guid-1&resource=public");
    assert_eq!(note.attributed_to, "https://ap.podcastindex.org/podcasts?id=920666");
    assert_eq!(note.to, vec!["https://www.w3.org/ns/activitystreams#Public"]);
    assert_eq!(note.cc, None);
    assert_eq!(note.sensitive, false);
    assert_eq!(note.conversation, "tag:ap.podcastindex.org,2023-11-14T22:13:20+00:00:objectId=guid-1:objectType=Conversation");
    assert_eq!(
        note.content,
        format!(
            "<p>New Episode: <a href=\"https://podcastindex.org/podcast/920666?episode=16795090\">Episode 1</a></p><p>Shownotes:<br>About things</p>{}<p>Or <a href=\"https://pod.example/1.mp3\">Listen</a> right here.</p>",
            LINKS
        )
    );
    assert_eq!(note.attachment.len(), 1);
    let attachment = &note.attachment[0];
    assert_eq!(attachment.kind, Some("Document".to_string()));
    assert_eq!(attachment.url, Some("https://pod.example/feed.png".to_string()));
    assert_eq!(attachment.width, Some(640));
    assert!(attachment.media_type.is_none() && attachment.name.is_none() && attachment.blurhash.is_none());
    assert!(attachment.height.is_none() && attachment.value.is_none());
}

#[test]
fn an_episode_note_links_comments_and_transcript_and_shows_its_own_image() {
    let mut episode = episode();
    episode.image = "https://pod.example/1.png".to_string();
    episode.feed_itunes_id = None;
    episode.title = "t".repeat(300);
    episode.description = "d".repeat(257);
    episode.social_interact = Some(vec![
        PISocialInteract { uri: Some("https://social.example/1".to_string()), protocol: None, account_id: None, account_url: None, priority: None },
        PISocialInteract { uri: Some("https://social.example/2".to_string()), protocol: None, account_id: None, account_url: None, priority: None },
    ]);
    episode.transcripts = Some(vec![PITranscript { url: None, kind: None }]);
    let note = build_episode_note_object(&episode, 920666, "Title".to_string(), "&ts=5".to_string()).unwrap();
    assert_eq!(note.id, "https://ap.podcastindex.org/episodes?id=920666&statusid=guid-1&resource=post&ts=5");
    assert_eq!(note.url, "https://ap.podcastindex.org/episodes?id=920666&statusid=guid-1&resource=public&ts=5");
    assert_eq!(note.attachment[0].url, Some("https://pod.example/1.png".to_string()));
    let links = LINKS.replace("id123", "id0").replace("itunes123", "itunes0").replace("podcast/123", "podcast/0");
    assert_eq!(
        note.content,
        format!(
            "<p>Title: <a href=\"https://podcastindex.org/podcast/920666?episode=16795090\">{}</a></p><p>Shownotes:<br>{}</p><p><a href=\"https://social.example/1\">Comments Thread</a></p><p><a href=\"https://steno.fm/show/pg-1/episode/Z3VpZC0x\">Transcript</a></p>{}<p>Or <a href=\"https://pod.example/1.mp3\">Listen</a> right here.</p>",
            "t".repeat(256),
            "d".repeat(256),
            links
        )
    );
}

#[test]
fn empty_lists_of_comments_and_transcripts_show_nothing() {
    let mut episode = episode();
    episode.social_interact = Some(vec![]);
    episode.transcripts = Some(vec![]);
    let plain = build_episode_note_object(&self::episode(), 1, "x".to_string(), "".to_string()).unwrap();
    let note = build_episode_note_object(&episode, 1, "x".to_string(), "".to_string()).unwrap();
    assert_eq!(note.content, plain.content);
    episode.social_interact = Some(vec![PISocialInteract { uri: None, protocol: None, account_id: None, account_url: None, priority: None }]);
    let note = build_episode_note_object(&episode, 1, "x".to_string(), "".to_string()).unwrap();
    assert!(note.content.contains("<p><a href=\"\">Comments Thread</a></p>"));
}

#[test]
fn an_episode_without_a_date_has_no_note() {
    let mut episode = episode();
    episode.date_published = 1 << 62;
    assert!(build_episode_note_object(&episode, 1, "x".to_string(), "".to_string()).is_err());
    assert!(build_episode_create(1, &episode, false, None, 5).is_err());
}

#[test]
fn an_announcement_of_an_episode_is_a_create() {
    let activity = build_episode_create(920666, &episode(), false, None, 1700000500).unwrap();
    assert_eq!(activity.at_context, "https://www.w3.org/ns/activitystreams");
    assert_eq!(activity.id, "https://ap.podcastindex.org/episodes?id=920666&statusid=guid-1&resource=activity");
    assert_eq!(activity.kind, "Create");
    assert_eq!(activity.actor, "https://ap.podcastindex.org/podcasts?id=920666");
    assert_eq!(activity.published, "2023-11-14T22:13:20+00:00");
    assert_eq!(activity.to, vec!["https://www.w3.org/ns/activitystreams#Public"]);
    assert_eq!(activity.cc, None);
    assert_eq!(activity.object.id, "https://ap.podcastindex.org/episodes?id=920666&statusid=guid-1&resource=post");
    assert_eq!(activity.object.in_reply_to, None);
    assert!(activity.object.content.starts_with("<p>New Episode: "));
}

#[test]
fn a_requested_episode_carries_the_time_and_replies() {
    let activity = build_episode_create(920666, &episode(), true, Some("https://remote.example/1".to_string()), 1700000500).unwrap();
    assert_eq!(activity.id, "https://ap.podcastindex.org/episodes?id=920666&statusid=guid-1&resource=activity&ts=1700000500");
    assert_eq!(activity.object.id, "https://ap.podcastindex.org/episodes?id=920666&statusid=guid-1&resource=post&ts=1700000500");
    assert_eq!(activity.object.in_reply_to, Some("https://remote.example/1".to_string()));
    assert!(activity.object.content.starts_with("<p>Latest Episode: "));
    assert_eq!(activity.object.attachment.len(), 1);
}

#[test]
fn a_plain_note_is_a_create() {
    let activity = build_note_create(42, "Done.".to_string(), Some("https://remote.example/2".to_string()), 1700000000).unwrap();
    assert_eq!(activity.id, "https://ap.podcastindex.org/notes?id=42&statusid=1700000000&resource=activity");
    assert_eq!(activity.kind, "Create");
    assert_eq!(activity.actor, "https://ap.podcastindex.org/podcasts?id=42");
    assert_eq!(activity.published, "2023-11-14T22:13:20+00:00");
    let note = activity.object;
    assert_eq!(note.id, "https://ap.podcastindex.org/notes?id=42&statusid=1700000000&resource=post");
    assert_eq!(note.url, "https://ap.podcastindex.org/notes?id=42&statusid=1700000000&resource=public");
    assert_eq!(note.kind, "Note");
    assert_eq!(note.in_reply_to, Some("https://remote.example/2".to_string()));
    assert_eq!(note.conversation, "tag:ap.podcastindex.org,2023-11-14T22:13:20+00:00:objectId=1700000000:objectType=Conversation");
    assert_eq!(note.content, "Done.");
    assert!(note.attachment.is_empty());
    assert_eq!(note.to, vec!["https://www.w3.org/ns/activitystreams#Public"]);
    let unanswered = build_note_create(42, "x".to_string(), None, 0).unwrap();
    assert_eq!(unanswered.object.in_reply_to, None);
    assert_eq!(unanswered.published, "1970-01-01T00:00:00+00:00");
}

#[test]
fn a_live_item_is_announced() {
    let item = PILiveItem {
        id: 5,
        title: "Live show".to_string(),
        link: "l".to_string(),
        description: "d".to_string(),
        guid: "live-1".to_string(),
        date_published: 1700000000,
        date_published_pretty: "p".to_string(),
        enclosure_url: "https://pod.example/live.mp3".to_string(),
        enclosure_type: "audio/mpeg".to_string(),
        start_time: None,
        end_time: None,
        status: "live".to_string(),
        content_link: "c".to_string(),
        image: "i".to_string(),
        feed_image: "https://pod.example/feed.png".to_string(),
        feed_id: 920666,
        feed_url: "https://pod.example/feed.xml".to_string(),
        podcast_guid: "pg-1".to_string(),
        feed_itunes_id: None,
    };
    let activity = build_live_create(920666, &item).unwrap();
    assert_eq!(activity.id, "https://ap.podcastindex.org/episodes?id=920666&statusid=live-1&date=1700000000&type=live&resource=activity");
    assert_eq!(activity.published, "2023-11-14T22:13:20+00:00");
    let note = activity.object;
    assert_eq!(note.id, "https://ap.podcastindex.org/episodes?id=920666&statusid=live-1&date=1700000000&type=live&resource=post");
    assert_eq!(note.url, "https://ap.podcastindex.org/episodes?id=920666&statusid=live-1&date=1700000000&type=live&resource=public");
    assert_eq!(note.conversation, "tag:ap.podcastindex.org,2023-11-14T22:13:20+00:00:objectId=live-1:objectType=Conversation");
    assert_eq!(
        note.content,
        "<p>Listen Live!</p><p>Live show</p><p><a href=\"https://curiocaster.com/podcast/pi920666\">CurioCaster</a><br><a href=\"https://fountain.fm/show/920666\">Fountain</a><br><a href=\"https://podcastaddict.com/feed/https://pod.example/feed.xml\">Podcast Addict</a><br><a href=\"https://app.podcastguru.io/podcast/0\">Podcast Guru</a><br><a href=\"https://api.podverse.fm/api/v1/podcast/podcastindex/920666\">Podverse</a><br><a href=\"https://truefans.fm/pg-1\">Truefans</a></p><p>Or <a href=\"https://pod.example/live.mp3\">Stream</a> here.</p>"
    );
    assert_eq!(note.attachment[0].url, Some("https://pod.example/feed.png".to_string()));
    assert_eq!(note.attachment[0].width, Some(640));
}

fn podcast(funding: Option<PIFunding>) -> PIPodcast {
    PIPodcast {
        status: "true".to_string(),
        feed: PIFeed {
            id: 920666,
            podcast_guid: "pg-1".to_string(),
            medium: "podcast".to_string(),
            title: "T".repeat(50),
            url: "https://pod.example/feed.xml".to_string(),
            original_url: "o".to_string(),
            link: "https://pod.example".to_string(),
            description: "D".repeat(100),
            author: "a".to_string(),
            owner_name: "o".to_string(),
            image: "https://pod.example/feed.png".to_string(),
            artwork: "art".to_string(),
            episode_count: 3,
            funding,
        },
    }
}

#[test]
fn the_profile_of_a_podcast_is_built() {
    let keys = ActorKeys { pem_private_key: "private".to_string(), pem_public_key: "public".to_string() };
    let actor = ap_build_actor_object(podcast(None), keys).unwrap();
    assert_eq!(actor.at_context, vec!["https://www.w3.org/ns/activitystreams", "https://w3id.org/security/v1"]);
    assert_eq!(actor.id, "https://ap.podcastindex.org/podcasts?id=920666");
    assert_eq!(actor.kind, "Service");
    assert_eq!(actor.discoverable, Some(true));
    assert_eq!(actor.indexable, Some(true));
    assert_eq!(actor.preferred_username, Some("920666".to_string()));
    assert_eq!(actor.published, Some("2023-11-09T15:56:28.495803Z".to_string()));
    assert_eq!(actor.memorial, Some(false));
    assert_eq!(actor.devices, None);
    assert_eq!(actor.name, Some("T".repeat(48)));
    assert_eq!(actor.inbox, "https://ap.podcastindex.org/inbox?id=920666");
    assert_eq!(actor.outbox, "https://ap.podcastindex.org/outbox?id=920666");
    assert_eq!(actor.featured, Some("https://ap.podcastindex.org/featured?id=920666".to_string()));
    assert_eq!(actor.followers, Some("https://ap.podcastindex.org/followers?id=920666".to_string()));
    assert_eq!(actor.following, Some("https://ap.podcastindex.org/following?id=920666".to_string()));
    let icon = actor.icon.unwrap();
    assert_eq!(icon.kind, "Image");
    assert_eq!(icon.media_type, None);
    assert_eq!(icon.url, "https://pod.example/feed.png");
    assert_eq!(actor.summary, Some("D".repeat(96)));
    assert_eq!(actor.url, Some("https://podcastindex.org/podcast/920666".to_string()));
    assert_eq!(actor.manually_approves_followers, Some(false));
    assert_eq!(actor.public_key.id, "https://ap.podcastindex.org/podcasts?id=920666#main-key");
    assert_eq!(actor.public_key.owner, "https://ap.podcastindex.org/podcasts?id=920666");
    assert_eq!(actor.public_key.public_key_pem, "public");
    assert_eq!(actor.endpoints.unwrap().shared_inbox, "https://ap.podcastindex.org/inbox?id=0");
    let attachments = actor.attachment.unwrap();
    assert_eq!(attachments.len(), 4);
    let shown: Vec<(String, String, String)> = attachments.into_iter()
        .map(|a| (a.name.unwrap(), a.kind, a.value.unwrap())).collect();
    assert_eq!(shown[0], ("Index".to_string(), "PropertyValue".to_string(), "<a href='https://podcastindex.org/podcast/920666' rel='ugc'>https://podcastindex.org/podcast/920666</a>".to_string()));
    assert_eq!(shown[1], ("Website".to_string(), "PropertyValue".to_string(), "<a href='https://pod.example' rel='ugc'>https://pod.example</a>".to_string()));
    assert_eq!(shown[2], ("RSS".to_string(), "PropertyValue".to_string(), "<a href='https://pod.example/feed.xml' rel='ugc'>https://pod.example/feed.xml</a>".to_string()));
    assert_eq!(shown[3], ("Podcast Guid".to_string(), "PropertyValue".to_string(), "pg-1".to_string()));
}

#[test]
fn the_profile_shows_how_the_podcast_asks_for_support() {
    let keys = ActorKeys { pem_private_key: "private".to_string(), pem_public_key: "public".to_string() };
    let funding = PIFunding { url: Some("https://pay.example".to_string()), message: Some("Support us".to_string()) };
    let attachments = ap_build_actor_object(podcast(Some(funding)), keys.clone()).unwrap().attachment.unwrap();
    assert_eq!(attachments.len(), 5);
    assert_eq!(attachments[4].name, Some("Funding".to_string()));
    assert_eq!(attachments[4].value, Some("<a href='https://pay.example' rel='ugc'>Support us</a>".to_string()));
    let funding = PIFunding { url: Some("https://pay.example".to_string()), message: None };
    let attachments = ap_build_actor_object(podcast(Some(funding)), keys.clone()).unwrap().attachment.unwrap();
    assert_eq!(attachments[4].value, Some("<a href='https://pay.example' rel='ugc'>https://pay.example</a>".to_string()));
    let funding = PIFunding { url: None, message: None };
    let attachments = ap_build_actor_object(podcast(Some(funding)), keys).unwrap().attachment.unwrap();
    assert_eq!(attachments[4].value, Some("<a href='' rel='ugc'></a>".to_string()));
}
