use ap_bridge::api::{
    api_block_get_episodes, api_block_get_live_items, api_get_episode, api_get_episodes,
    api_get_podcast, api_hub_rescan, build_api_headers, to_hex_lower,
};
use ap_bridge::dbif::Database;
use ap_bridge::endpoints::{
    contexts, empty_episodes, episodes, featured, followers, instance_podcast, is_pinned,
    needs_lookup, outbox, outbox_config, outbox_page, page_url, pinned_status, podcasts,
    profiles, requested_guid, webfinger, EndpointError, OutboxDocument,
};
use ap_bridge::inbox::InboxReply;
use ap_bridge::podcastindex::{PIEpisode, PIEpisodes, PIFeed, PIItem, PIPodcast};
use sha1::Digest;

fn podcast() -> PIPodcast {
    PIPodcast {
        status: "true".to_string(),
        feed: PIFeed {
            id: 920666,
            podcast_guid: "pg-1".to_string(),
            medium: "podcast".to_string(),
            title: "The Show".to_string(),
            url: "https://pod.example/feed.xml".to_string(),
            original_url: "o".to_string(),
            link: "https://pod.example".to_string(),
            description: "About the show".to_string(),
            author: "a".to_string(),
            owner_name: "o".to_string(),
            image: "https://pod.example/feed.png".to_string(),
            artwork: "art".to_string(),
            episode_count: 3,
            funding: None,
        },
    }
}

fn episode(guid: &str, date: u64) -> PIItem {
    PIItem {
        id: 1,
        title: "T".repeat(130),
        link: "l".to_string(),
        description: "About".to_string(),
        guid: guid.to_string(),
        date_published: date,
        date_published_pretty: "p".to_string(),
        enclosure_url: "https://pod.example/1.mp3".to_string(),
        enclosure_type: "audio/mpeg".to_string(),
        duration: 1,
        image: "https://pod.example/1.png".to_string(),
        feed_image: "f".to_string(),
        feed_url: "u".to_string(),
        podcast_guid: "g".to_string(),
        feed_id: 920666,
        feed_itunes_id: None,
        social_interact: None,
        transcripts: None,
    }
}

#[test]
fn refusals_have_their_status_and_body() {
    assert_eq!(EndpointError::NoResource.status(), 400);
    assert_eq!(EndpointError::NoResource.body(), "No resource given.");
    assert_eq!(EndpointError::NoStatusId.status(), 400);
    assert_eq!(EndpointError::NoStatusId.body(), "No status id given.");
    assert_eq!(EndpointError::ResponsePrep.status(), 501);
    assert_eq!(EndpointError::ResponsePrep.body(), "Response prep error.");
    assert_eq!(EndpointError::Encoding.status(), 500);
    assert_eq!(EndpointError::Encoding.body(), "Response prep error.");
    assert_eq!(EndpointError::KeyError.status(), 500);
    assert_eq!(EndpointError::KeyError.body(), "Key error.");
    assert_eq!(EndpointError::ActorObject.status(), 500);
    assert_eq!(EndpointError::ActorObject.body(), "Actor obect error.");
}

#[test]
fn the_id_of_a_request_is_read_or_defaulted() {
    assert_eq!(requested_guid(Some("acct:920666@ap.podcastindex.org"), None), Ok("920666".to_string()));
    assert_eq!(requested_guid(Some("5"), Some("0")), Ok("5".to_string()));
    assert_eq!(requested_guid(None, Some("0")), Ok("0".to_string()));
    assert_eq!(requested_guid(None, None), Err(EndpointError::NoResource));
    assert_eq!(page_url("outbox", "5"), "https://ap.podcastindex.org/outbox?id=5");
    assert!(needs_lookup("5") && !needs_lookup("0"));
    assert!(is_pinned("0") && !is_pinned("00"));
}

#[test]
fn the_outbox_hands_out_a_page_where_one_is_asked_for() {
    let data = PIEpisodes { status: "true".to_string(), items: vec![episode("E2", 1700000000)], count: 1 };
    assert!(matches!(outbox("5", None, &data), Ok(OutboxDocument::Config(_))));
    assert!(matches!(outbox("5", Some("True"), &data), Ok(OutboxDocument::Config(_))));
    match outbox("5", Some("true"), &data) {
        Ok(OutboxDocument::Page(page)) => assert_eq!(page.ordered_items.unwrap().len(), 1),
        other => panic!("{:?}", other),
    }
    let undated = PIEpisodes { status: "true".to_string(), items: vec![episode("E2", 1 << 62)], count: 1 };
    assert!(matches!(outbox("5", Some("true"), &undated), Err(EndpointError::Encoding)));
    assert!(matches!(outbox("5", None, &undated), Ok(OutboxDocument::Config(_))));
}

#[test]
fn conversations_and_followers_are_served_empty() {
    assert_eq!(contexts(), InboxReply::Accepted);
    assert_eq!(followers(), InboxReply::Accepted);
    assert_eq!(contexts().status(), 200);
    assert_eq!(followers().body(), "");
}

#[test]
fn the_webfinger_document_links_profile_actor_and_avatar() {
    let document = webfinger("920666", &podcast());
    assert_eq!(document.subject, "acct:920666@ap.podcastindex.org");
    assert_eq!(document.aliases, vec!["https://podcastindex.org/podcast/920666"]);
    let links: Vec<(String, Option<String>, Option<String>, Option<String>)> = document.links.into_iter()
        .map(|l| (l.rel, l.kind, l.href, l.template)).collect();
    assert_eq!(links, vec![
        ("http://webfinger.net/rel/profile-page".to_string(), Some("text/html".to_string()), Some("https://ap.podcastindex.org/profiles?id=920666".to_string()), None),
        ("self".to_string(), Some("application/activity+json".to_string()), Some("https://ap.podcastindex.org/podcasts?id=920666".to_string()), None),
        ("http://webfinger.net/rel/avatar".to_string(), Some("image/png".to_string()), Some("https://pod.example/feed.png".to_string()), None),
        ("http://ostatus.org/schema/1.0/subscribe".to_string(), None, None, Some("https://ap.podcastindex.org/ostatus_subscribe?acct={uri}".to_string())),
    ]);
}

#[test]
fn the_profile_of_a_podcast_is_served_with_its_key() {
    let mut db = Database::new();
    let actor = podcasts(&mut db, "920666", false, podcast()).unwrap();
    assert_eq!(actor.id, "https://ap.podcastindex.org/podcasts?id=920666");
    assert_eq!(actor.kind, "Service");
    assert_eq!(actor.name, Some("The Show".to_string()));
    assert_eq!(actor.preferred_username, Some("920666".to_string()));
    assert!(actor.public_key.public_key_pem.starts_with("-----BEGIN RSA PUBLIC KEY-----\n"));
    assert_eq!(db.actors().len(), 1);
    assert_eq!(db.actors()[0].pcid, 920666);
    assert_eq!(db.actors()[0].pem_public_key, actor.public_key.public_key_pem);
    assert_eq!(podcasts(&mut db, "show", false, podcast()).unwrap_err(), EndpointError::NoResource);
}

#[test]
fn the_server_itself_is_an_application() {
    let mut db = Database::new();
    let instance = instance_podcast();
    assert_eq!(instance.status, "true");
    assert_eq!(instance.feed.id, 0);
    assert_eq!(instance.feed.title, "Podcast Index ActivityPub Bridge");
    assert_eq!(instance.feed.description, "Podcast Index ActivityPub Bridge");
    assert_eq!(instance.feed.author, "Podcastindex.org");
    assert_eq!(instance.feed.owner_name, "Podcastindex.org");
    assert_eq!(instance.feed.image, "https://noagendaassets.com/enc/1684513486.722_pcifeedimage.png");
    assert_eq!(instance.feed.artwork, "https://noagendaassets.com/enc/1684513486.722_pcifeedimage.png");
    assert_eq!(instance.feed.episode_count, 0);
    assert!(instance.feed.funding.is_none());
    let actor = podcasts(&mut db, "0", true, instance).unwrap();
    assert_eq!(actor.id, "https://ap.podcastindex.org/podcasts");
    assert_eq!(actor.kind, "Application");
    assert_eq!(actor.name, Some("ap.podcastindex.org".to_string()));
    assert_eq!(actor.preferred_username, Some("ap.podcastindex.org".to_string()));
    assert_eq!(actor.inbox, "https://ap.podcastindex.org/inbox?id=0");
    let named = podcasts(&mut db, "0", false, instance_podcast()).unwrap();
    assert_eq!(named.id, "https://ap.podcastindex.org/podcasts?id=0");
    assert_eq!(named.kind, "Application");
}

#[test]
fn the_profile_page_shows_title_address_description_and_image() {
    assert_eq!(
        profiles("920666", &podcast()),
        "<!DOCTYPE html>
<html lang='en'>
  <head>
    <meta charset='utf-8' />
    <meta content='The Show' property='og:title' />
    <meta content='https://ap.podcastindex.org/podcasts?id=920666' property='og:url' />
    <meta content='About the show' property='og:description' />
    <meta content='article' property='og:type' />
    <meta content='https://pod.example/feed.png' property='og:image' />
    <meta content='150' property='og:image:width' />
    <meta content='150' property='og:image:height' />
  </head>
  <body>
    Empty
  </body>
  </html>"
    );
}

#[test]
fn the_outbox_tells_of_its_pages() {
    let data = PIEpisodes { status: "true".to_string(), items: vec![], count: 7 };
    let document = outbox_config("920666", &data);
    assert_eq!(document.context, "https://www.w3.org/ns/activitystreams");
    assert_eq!(document.id, "https://ap.podcastindex.org/outbox?id=920666");
    assert_eq!(document.kind, "OrderedCollection");
    assert_eq!(document.total_items, 7);
    assert_eq!(document.first, "https://ap.podcastindex.org/outbox?id=920666&page=true");
    assert_eq!(document.last, "https://ap.podcastindex.org/outbox?id=920666&page=true&min_id=0");
    let none = empty_episodes();
    assert_eq!(none.status, "true");
    assert!(none.items.is_empty());
    assert_eq!(none.count, 0);
}

#[test]
fn a_page_of_the_outbox_has_an_item_for_each_episode() {
    let data = PIEpisodes { status: "true".to_string(), items: vec![episode("E2", 1700000000), episode("E1", 0)], count: 2 };
    let page = outbox_page("920666", &data).unwrap();
    assert_eq!(page.context, "https://www.w3.org/ns/activitystreams");
    assert_eq!(page.id, "https://www.w3.org/ns/activitystreams");
    assert_eq!(page.kind, "OrderedCollectionPage");
    assert_eq!(page.next, "https://ap.podcastindex.org/outbox?id=920666&page=true&max_id=999999");
    assert_eq!(page.prev, "https://ap.podcastindex.org/outbox?id=920666&page=true&min_id=0");
    assert_eq!(page.part_of, "https://ap.podcastindex.org/outbox?id=920666");
    assert_eq!(page.total_items, 2);
    let items = page.ordered_items.unwrap();
    assert_eq!(items.len(), 2);
    let item = &items[0];
    assert_eq!(item.id, "https://ap.podcastindex.org/episodes?id=920666&statusid=E2&resource=activity");
    assert_eq!(item.kind, "Create");
    assert_eq!(item.actor, "https://ap.podcastindex.org/podcasts?id=920666");
    assert_eq!(item.published, "2023-11-14T22:13:20+00:00");
    assert_eq!(item.direct_message, false);
    assert_eq!(item.to, vec!["https://www.w3.org/ns/activitystreams#Public"]);
    assert_eq!(item.object.id, "https://ap.podcastindex.org/episodes?id=920666&statusid=E2&resource=post");
    assert_eq!(item.object.url, "https://ap.podcastindex.org/episodes?id=920666&statusid=E2&resource=public");
    assert_eq!(item.object.kind, "Note");
    assert_eq!(item.object.published, "2023-11-14T22:13:20+00:00");
    assert_eq!(item.object.attributed_to, "https://ap.podcastindex.org/podcasts?id=920666");
    assert_eq!(item.object.conversation, "tag:ap.podcastindex.org,2023-11-14T22:13:20+00:00:objectId=E2:objectType=Conversation");
    assert_eq!(item.object.content, format!("<p>{}</p><p>About</p><p>Listen: https://pod.example/1.mp3</p>", "T".repeat(128)));
    assert!(item.object.attachment.is_empty());
    assert!(item.object.summary.is_none() && item.object.in_reply_to.is_none() && item.object.cc.is_none());
    assert_eq!(items[1].published, "1970-01-01T00:00:00+00:00");
    let undated = PIEpisodes { status: "true".to_string(), items: vec![episode("E2", 1 << 62)], count: 1 };
    assert_eq!(outbox_page("920666", &undated).unwrap_err(), EndpointError::Encoding);
    assert!(outbox_page("0", &empty_episodes()).unwrap().ordered_items.unwrap().is_empty());
}

#[test]
fn the_pinned_post_says_what_the_account_is() {
    let document = featured("920666");
    assert_eq!(document.at_context, vec!["https://www.w3.org/ns/activitystreams"]);
    assert_eq!(document.id, "https://www.w3.org/ns/activitystreams");
    assert_eq!(document.kind, "OrderedCollection");
    assert_eq!(document.total_items, 1);
    let items = document.ordered_items.unwrap();
    assert_eq!(items.len(), 1);
    let item = &items[0];
    assert_eq!(item.at_context, vec!["https://www.w3.org/ns/activitystreams"]);
    assert_eq!(item.actor, "https://ap.podcastindex.org/podcasts?id=920666");
    assert!(item.attachment.is_empty());
    assert_eq!(item.attributed_to, "https://ap.podcastindex.org/podcasts?id=920666");
    assert_eq!(item.cc, Some(vec!["https://ap.podcastindex.org/followers?id=920666".to_string()]));
    assert_eq!(item.content, "This account is a podcast.  Follow to see new episodes.");
    assert_eq!(item.context, "https://ap.podcastindex.org/contexts?id=920666&statusid=0");
    assert_eq!(item.conversation, "https://ap.podcastindex.org/contexts?id=920666&statusid=0");
    assert_eq!(item.id, "https://ap.podcastindex.org/episodes?id=920666&statusid=0");
    assert_eq!(item.published, "2023-11-09T15:56:28.495803Z");
    assert_eq!(item.replies_count, 0);
    assert_eq!(item.sensitive, false);
    assert_eq!(item.source, "This account is a podcast.  Follow to see new episodes.");
    assert_eq!(item.summary, Some(String::new()));
    assert!(item.tag.is_empty());
    assert_eq!(item.to, vec!["https://www.w3.org/ns/activitystreams#Public"]);
    assert_eq!(item.kind, "Note");

    let status = pinned_status("920666");
    assert_eq!(status.id, "https://ap.podcastindex.org/episodes?id=920666&statusid=0");
    assert_eq!(status.kind, "Note");
    assert_eq!(status.published, "2023-11-09T15:56:28.495803Z");
    assert_eq!(status.content, "This account is a podcast.  Follow to see new episodes.");
    assert_eq!(status.conversation, "https://ap.podcastindex.org/contexts?id=920666&statusid=0");
    assert_eq!(status.cc, Some(vec!["https://ap.podcastindex.org/followers?id=920666".to_string()]));
    assert_eq!(status.attachment.map(|a| a.len()), Some(0));
    assert_eq!(status.actor, "https://ap.podcastindex.org/podcasts?id=920666");
    assert!(status.url.is_none() && status.replies.is_none() && status.summary.is_none());
}

#[test]
fn an_episode_is_served_as_a_note() {
    let data = PIEpisode { status: "true".to_string(), episode: episode("E2", 1700000000) };
    let status = episodes("920666", "E2", &data).unwrap();
    assert_eq!(status.at_context, vec!["https://www.w3.org/ns/activitystreams"]);
    assert_eq!(status.id, "https://ap.podcastindex.org/episodes?id=920666&statusid=E2");
    assert_eq!(status.kind, "Note");
    assert_eq!(status.published, "2023-11-14T22:13:20+00:00");
    assert_eq!(status.attributed_to, "https://ap.podcastindex.org/podcasts?id=920666");
    assert_eq!(status.to, vec!["https://www.w3.org/ns/activitystreams#Public"]);
    assert_eq!(status.cc, Some(vec!["https://ap.podcastindex.org/followers?id=920666".to_string()]));
    assert_eq!(status.conversation, "https://ap.podcastindex.org/contexts?id=920666&statusid=E2");
    assert!(status.content.starts_with("<p>Title: <a href=\"https://podcastindex.org/podcast/920666?episode=1\">"));
    assert_eq!(status.attachment.unwrap()[0].url, Some("https://pod.example/1.png".to_string()));
    assert_eq!(status.actor, "https://ap.podcastindex.org/podcasts?id=920666");
    assert!(status.tag.is_empty());
    assert_eq!(episodes("show", "E2", &data).unwrap_err(), EndpointError::NoResource);
    let undated = PIEpisode { status: "true".to_string(), episode: episode("E2", 1 << 62) };
    assert_eq!(episodes("920666", "E2", &undated).unwrap_err(), EndpointError::Encoding);
}

#[test]
fn requests_to_the_index_carry_key_time_and_token() {
    let token = format!("{:x}", sha1::Sha1::digest(b"keysecret1700000000"));
    let expected = vec![
        ("User-Agent".to_string(), "Rust-podcastindex-org-example/v1.0".to_string()),
        ("X-Auth-Date".to_string(), "1700000000".to_string()),
        ("X-Auth-Key".to_string(), "key".to_string()),
        ("Authorization".to_string(), token),
    ];
    assert_eq!(build_api_headers("key", "secret", 1700000000), expected);
    assert_eq!(expected[3].1.len(), 40);
    let request = api_get_podcast("key", "secret", "920666", 1700000000);
    assert_eq!(request.url, "https://api.podcastindex.org/api/1.0/podcasts/byfeedid?id=920666");
    assert_eq!(request.headers, expected);
    assert_eq!(api_hub_rescan("key", "secret", "920666", 1).url, "https://hub.podcastindex.org/pubnotify?id=920666");
    assert_eq!(api_get_episodes("key", "secret", "9 2", 1).url, "https://api.podcastindex.org/api/1.0/episodes/byfeedid?id=9%202");
    assert_eq!(api_block_get_episodes("key", "secret", "920666", 1).url, "https://api.podcastindex.org/api/1.0/episodes/byfeedid?id=920666");
    assert_eq!(
        api_get_episode("key", "secret", "920666", "a/b?c=d&é~", 1).url,
        "https://api.podcastindex.org/api/1.0/episodes/byguid?guid=a%2Fb%3Fc%3Dd%26%C3%A9~&feedid=920666"
    );
    assert_eq!(
        api_block_get_live_items("key", "secret", "https://pod.example/feed.xml", 1).url,
        "https://api.podcastindex.org/api/1.0/live/byfeedurl?url=https%3A%2F%2Fpod.example%2Ffeed.xml"
    );
}

#[test]
fn bytes_are_written_in_small_hexadecimal() {
    assert_eq!(to_hex_lower(&[0x00, 0xab, 0xff, 0x09, 0x1a]), "00abff091a");
    assert_eq!(to_hex_lower(&[]), "");
}
