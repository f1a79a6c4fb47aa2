use ap_bridge::activity::{Actor, PublicKey};
use ap_bridge::commands::{
    command_episodes_fetched, command_rescanned, command_sender_fetched, command_started,
    CommandStep,
};
use ap_bridge::crypto_rsa::{generate_weak_rsa_key, rsa_private_key_to_pkcs1_pem};
use ap_bridge::dbif::{add_actor_to_db, ActorRecord, Database, HydraError};
use ap_bridge::inbox::Command;
use ap_bridge::podcastindex::{PIEpisodes, PIItem};

fn sender() -> Actor {
    Actor {
        at_context: vec![],
        id: "https://remote.example/users/dave".to_string(),
        kind: "Person".to_string(),
        discoverable: None,
        indexable: None,
        preferred_username: None,
        published: None,
        memorial: None,
        devices: None,
        name: None,
        inbox: "https://remote.example/users/dave/inbox".to_string(),
        outbox: "out".to_string(),
        featured: None,
        followers: None,
        following: None,
        icon: None,
        summary: None,
        url: None,
        manually_approves_followers: None,
        attachment: None,
        public_key: PublicKey { id: "k".to_string(), owner: "o".to_string(), public_key_pem: "p".to_string() },
        endpoints: None,
    }
}

fn episode(guid: &str) -> PIItem {
    PIItem {
        id: 1,
        title: "t".to_string(),
        link: "l".to_string(),
        description: "d".to_string(),
        guid: guid.to_string(),
        date_published: 1700000000,
        date_published_pretty: "p".to_string(),
        enclosure_url: "e".to_string(),
        enclosure_type: "audio/mpeg".to_string(),
        duration: 1,
        image: "i".to_string(),
        feed_image: "f".to_string(),
        feed_url: "u".to_string(),
        podcast_guid: "g".to_string(),
        feed_id: 42,
        feed_itunes_id: None,
        social_interact: None,
        transcripts: None,
    }
}

fn database() -> Database {
    let mut db = Database::new();
    let key = generate_weak_rsa_key().unwrap();
    add_actor_to_db(&mut db, ActorRecord {
        pcid: 42,
        guid: String::new(),
        pem_private_key: rsa_private_key_to_pkcs1_pem(&key).unwrap(),
        pem_public_key: "public".to_string(),
        last_episode_guid: String::new(),
    }).unwrap();
    db
}

fn failure() -> HydraError {
    HydraError("failed".to_string())
}

#[test]
fn a_rescan_asks_the_hub_and_then_answers_the_sender() {
    let sender_url = Some("https://remote.example/users/dave".to_string());
    assert!(matches!(command_started(42, Command::Rescan, &sender_url), CommandStep::Rescan { podcast_guid: 42 }));
    assert!(matches!(command_started(42, Command::Rescan, &None), CommandStep::Rescan { podcast_guid: 42 }));
    match command_rescanned(&sender_url) {
        CommandStep::FetchSender { actor_url } => assert_eq!(actor_url, "https://remote.example/users/dave"),
        other => panic!("{:?}", other),
    }
    assert!(matches!(command_rescanned(&None), CommandStep::Done));
    let mut db = database();
    match command_sender_fetched(&mut db, 42, Command::Rescan, Ok(sender()), "https://remote.example/2".to_string(), 1700000000) {
        CommandStep::Send(delivery) => {
            assert_eq!(delivery.inbox_url, "https://remote.example/users/dave/inbox");
            assert_eq!(delivery.key_id, "https://ap.podcastindex.org/podcasts?id=42#main-key");
            assert_eq!(delivery.activity.object.content, "Done.");
            assert_eq!(delivery.activity.object.in_reply_to, Some("https://remote.example/2".to_string()));
            assert_eq!(delivery.activity.id, "https://ap.podcastindex.org/notes?id=42&statusid=1700000000&resource=activity");
        }
        other => panic!("{:?}", other),
    }
}

#[test]
fn the_latest_episode_goes_to_the_sender() {
    let sender_url = Some("https://remote.example/users/dave".to_string());
    match command_started(42, Command::Latest, &sender_url) {
        CommandStep::FetchSender { actor_url } => assert_eq!(actor_url, "https://remote.example/users/dave"),
        other => panic!("{:?}", other),
    }
    assert!(matches!(command_started(42, Command::Latest, &None), CommandStep::Done));
    let mut db = database();
    let inbox_url = match command_sender_fetched(&mut db, 42, Command::Latest, Ok(sender()), "o".to_string(), 5) {
        CommandStep::FetchEpisodes { podcast_guid, inbox_url } => {
            assert_eq!(podcast_guid, 42);
            inbox_url
        }
        other => panic!("{:?}", other),
    };
    assert_eq!(inbox_url, "https://remote.example/users/dave/inbox");
    let episodes = PIEpisodes { status: "true".to_string(), items: vec![episode("E2"), episode("E1")], count: 2 };
    match command_episodes_fetched(&mut db, 42, inbox_url, "https://remote.example/2".to_string(), Ok(episodes), 1700000500) {
        CommandStep::Send(delivery) => {
            assert_eq!(delivery.inbox_url, "https://remote.example/users/dave/inbox");
            assert_eq!(delivery.activity.id, "https://ap.podcastindex.org/episodes?id=42&statusid=E2&resource=activity&ts=1700000500");
            assert_eq!(delivery.activity.object.in_reply_to, Some("https://remote.example/2".to_string()));
            assert!(delivery.activity.object.content.starts_with("<p>Latest Episode: "));
        }
        other => panic!("{:?}", other),
    }
}

#[test]
fn nothing_is_sent_without_sender_episodes_or_command() {
    let mut db = database();
    let sender_url = Some("https://remote.example/users/dave".to_string());
    assert!(matches!(command_started(42, Command::Unsupported, &sender_url), CommandStep::Done));
    assert!(matches!(command_sender_fetched(&mut db, 42, Command::Rescan, Err(failure()), "o".to_string(), 5), CommandStep::Done));
    assert!(matches!(command_sender_fetched(&mut db, 42, Command::Latest, Err(failure()), "o".to_string(), 5), CommandStep::Done));
    assert!(matches!(command_sender_fetched(&mut db, 42, Command::Unsupported, Ok(sender()), "o".to_string(), 5), CommandStep::Done));
    assert!(matches!(command_sender_fetched(&mut db, 42, Command::Rescan, Ok(sender()), "o".to_string(), 1 << 62), CommandStep::Done));
    assert!(matches!(command_episodes_fetched(&mut db, 42, "i".to_string(), "o".to_string(), Err(failure()), 5), CommandStep::Done));
    let none = PIEpisodes { status: "true".to_string(), items: vec![], count: 0 };
    assert!(matches!(command_episodes_fetched(&mut db, 42, "i".to_string(), "o".to_string(), Ok(none), 5), CommandStep::Done));
    assert_eq!(db.actors().len(), 1);
}
