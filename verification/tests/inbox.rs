use ap_bridge::activity::{
    d_blank_inboxrequest, Actor, Endpoints, InboxRequestObject, InboxRequestWithObject, PublicKey,
};
use ap_bridge::dbif::{add_follower_to_db, add_reply_to_db, Database, FollowerRecord, HydraError, ReplyRecord};
use ap_bridge::handler::ap_build_follow_accept;
use ap_bridge::inbox::{
    classify, find_command_target, inbound_activity, inbox, inbox_follow_accepted,
    inbox_follow_fetched, podcast_guid_of, read_command, Command, FollowStep, InboundActivity,
    InboxReply, InboxStep,
};

fn activity(kind: &str, actor: Option<&str>, object: InboxRequestObject) -> InboxRequestWithObject {
    InboxRequestWithObject {
        id: "https://remote.example/activities/1".to_string(),
        kind: kind.to_string(),
        actor: actor.map(|a| a.to_string()),
        object,
    }
}

fn note(id: &str) -> InboxRequestObject {
    let mut object = InboxRequestObject::from_str(id);
    object.kind = Some("Note".to_string());
    object.content = Some("<p>hello</p>".to_string());
    object.attributed_to = Some("https://remote.example/users/dave".to_string());
    object
}

fn remote_actor(shared: Option<&str>) -> Actor {
    Actor {
        at_context: vec![],
        id: "https://remote.example/users/dave".to_string(),
        kind: "Person".to_string(),
        discoverable: None,
        indexable: None,
        preferred_username: Some("dave".to_string()),
        published: None,
        memorial: None,
        devices: None,
        name: None,
        inbox: "https://remote.example/users/dave/inbox".to_string(),
        outbox: "https://remote.example/users/dave/outbox".to_string(),
        featured: None,
        followers: None,
        following: None,
        icon: None,
        summary: None,
        url: None,
        manually_approves_followers: None,
        attachment: None,
        public_key: PublicKey {
            id: "https://remote.example/users/dave#main-key".to_string(),
            owner: "https://remote.example/users/dave".to_string(),
            public_key_pem: "pem".to_string(),
        },
        endpoints: shared.map(|s| Endpoints { shared_inbox: s.to_string() }),
    }
}

fn stored_reply(pcid: u64, statusid: &str, objectid: &str, received: u64, conversation: &str) -> ReplyRecord {
    ReplyRecord {
        pcid,
        statusid: statusid.to_string(),
        objectid: objectid.to_string(),
        objecttype: "Note".to_string(),
        attributedto: "x".to_string(),
        content: "c".to_string(),
        sensitive: 0,
        published: "p".to_string(),
        received,
        conversation: conversation.to_string(),
    }
}

fn is_reply(step: &InboxStep, reply: InboxReply) -> bool {
    matches!(step, InboxStep::Reply(r) if *r == reply)
}

#[test]
fn types_are_told_apart_whatever_their_case() {
    assert_eq!(inbound_activity("Follow"), InboundActivity::Follow);
    assert_eq!(inbound_activity("UNDO"), InboundActivity::Undo);
    assert_eq!(inbound_activity("create"), InboundActivity::Create);
    assert_eq!(inbound_activity("Delete"), InboundActivity::Delete);
    assert_eq!(inbound_activity("Announce"), InboundActivity::Unknown);
    assert_eq!(inbound_activity(""), InboundActivity::Unknown);
    assert_eq!(classify("follow"), InboundActivity::Follow);
    assert_eq!(classify("Follow"), InboundActivity::Unknown);
}

#[test]
fn the_id_is_read_from_the_resource() {
    assert_eq!(podcast_guid_of("6594066"), "6594066");
    assert_eq!(podcast_guid_of("acct:6594066@ap.podcastindex.org"), "6594066");
    assert_eq!(podcast_guid_of("@x"), "");
}

#[test]
fn replies_have_their_status_and_body() {
    assert_eq!(InboxReply::Accepted.status(), 200);
    assert_eq!(InboxReply::Accepted.body(), "");
    assert_eq!(InboxReply::Accepted.content_type(), Some("application/activity+json; charset=utf-8".to_string()));
    assert_eq!(InboxReply::NoResource.status(), 400);
    assert_eq!(InboxReply::NoResource.body(), "No resource given.");
    assert_eq!(InboxReply::NoResource.content_type(), None);
    assert_eq!(InboxReply::InvalidFormat.body(), "Invalid request format.");
    assert_eq!(InboxReply::BadActor.body(), "Bad actor.");
    assert_eq!(InboxReply::AcknowledgingFailed.body(), "Acknowledging failed.");
    assert_eq!(InboxReply::SaveFailed.body(), "Unable to save follow state.");
    assert_eq!(InboxReply::SaveFailed.status(), 400);
    assert_eq!(InboxReply::AcceptBuildError.status(), 500);
    assert_eq!(InboxReply::AcceptBuildError.body(), "Accept build error.");
    assert_eq!(InboxReply::AcceptEncodeError.status(), 500);
    assert_eq!(InboxReply::AcceptEncodeError.body(), "Accept encode error.");
}

#[test]
fn a_request_without_resource_is_refused() {
    let mut db = Database::new();
    let step = inbox(&mut db, None, Ok(activity("Follow", Some("a"), d_blank_inboxrequest())), 1);
    assert!(is_reply(&step, InboxReply::NoResource));
}

#[test]
fn a_body_that_is_no_activity_is_refused() {
    let mut db = Database::new();
    let step = inbox(&mut db, Some("42"), Err("expected value".to_string()), 1);
    assert!(is_reply(&step, InboxReply::InvalidFormat));
}

#[test]
fn delete_and_unknown_types_change_nothing() {
    let mut db = Database::new();
    add_reply_to_db(&mut db, stored_reply(1, "E", "o1", 1, "C")).unwrap();
    let step = inbox(&mut db, Some("42"), Ok(activity("Delete", Some("a"), InboxRequestObject::from_str("o1"))), 1);
    assert!(is_reply(&step, InboxReply::Accepted));
    let step = inbox(&mut db, Some("42"), Ok(activity("Like", None, d_blank_inboxrequest())), 1);
    assert!(is_reply(&step, InboxReply::Accepted));
    assert_eq!(db.replies().len(), 1);
}

#[test]
fn a_follow_is_accepted_and_stored() {
    let mut db = Database::new();
    let follow = activity("Follow", Some("https://remote.example/users/dave"), InboxRequestObject::from_str("https://ap.podcastindex.org/podcasts?id=42"));
    let step = inbox(&mut db, Some("acct:42@ap.podcastindex.org"), Ok(follow), 1);
    let (podcast_guid, follow, actor_url) = match step {
        InboxStep::FetchFollower { podcast_guid, follow, actor_url } => (podcast_guid, follow, actor_url),
        other => panic!("{:?}", other),
    };
    assert_eq!(podcast_guid, 42);
    assert_eq!(actor_url, "https://remote.example/users/dave");
    assert!(db.followers().is_empty());

    let step = inbox_follow_fetched(podcast_guid, follow, Ok(remote_actor(Some("https://remote.example/inbox"))));
    let (accept, inbox_url, follower) = match step {
        FollowStep::SendAccept { podcast_guid, accept, inbox_url, follower } => {
            assert_eq!(podcast_guid, 42);
            (accept, inbox_url, follower)
        }
        other => panic!("{:?}", other),
    };
    assert_eq!(inbox_url, "https://remote.example/users/dave/inbox");
    assert_eq!(accept.at_context, "https://www.w3.org/ns/activitystreams");
    assert_eq!(accept.id, "https://ap.podcastindex.org/podcasts?id=42&context=accept");
    assert_eq!(accept.kind, "Accept");
    assert_eq!(accept.actor, "https://ap.podcastindex.org/podcasts?id=42");
    assert_eq!(accept.object.id, "https://remote.example/activities/1");
    assert_eq!(accept.object.kind, "Follow");
    assert_eq!(accept.object.actor, "https://remote.example/users/dave");
    assert_eq!(accept.object.object, "https://ap.podcastindex.org/podcasts?id=42");
    assert_eq!(follower.pcid, 42);
    assert_eq!(follower.actor, "https://remote.example/users/dave");
    assert_eq!(follower.instance, "remote.example");
    assert_eq!(follower.inbox, "https://remote.example/users/dave/inbox");
    assert_eq!(follower.shared_inbox, "https://remote.example/inbox");
    assert_eq!(follower.status, "active");

    let reply = inbox_follow_accepted(&mut db, follower, Ok(String::new()));
    assert_eq!(reply, InboxReply::Accepted);
    let rows = db.followers();
    assert_eq!(rows.len(), 1);
    assert_eq!(rows[0].actor, "https://remote.example/users/dave");
}

#[test]
fn the_shared_inbox_defaults_to_the_inbox() {
    let follow = activity("Follow", Some("https://remote.example/users/dave"), InboxRequestObject::from_str("x"));
    match inbox_follow_fetched(42, follow, Ok(remote_actor(None))) {
        FollowStep::SendAccept { follower, .. } => {
            assert_eq!(follower.shared_inbox, "https://remote.example/users/dave/inbox");
        }
        other => panic!("{:?}", other),
    }
}

#[test]
fn a_follow_fails_without_profile_or_delivery() {
    let mut db = Database::new();
    let follow = activity("Follow", Some("https://remote.example/users/dave"), InboxRequestObject::from_str("x"));
    let step = inbox_follow_fetched(42, follow.clone(), Err(HydraError("Getting remote actor failed.".to_string())));
    assert!(matches!(step, FollowStep::Reply(InboxReply::BadActor)));
    let mut hostless = remote_actor(None);
    hostless.inbox = "not a url".to_string();
    let step = inbox_follow_fetched(42, follow, Ok(hostless));
    assert!(matches!(step, FollowStep::Reply(InboxReply::AcknowledgingFailed)));
    let follower = FollowerRecord {
        pcid: 42,
        actor: "a".to_string(),
        instance: "i".to_string(),
        inbox: "in".to_string(),
        shared_inbox: "s".to_string(),
        status: "active".to_string(),
    };
    let reply = inbox_follow_accepted(&mut db, follower, Err(HydraError("Accepting the follow request failed.".to_string())));
    assert_eq!(reply, InboxReply::AcknowledgingFailed);
    assert!(db.followers().is_empty());
}

#[test]
fn a_follow_needs_an_actor_and_a_numbered_resource() {
    let mut db = Database::new();
    let step = inbox(&mut db, Some("42"), Ok(activity("Follow", None, d_blank_inboxrequest())), 1);
    assert!(is_reply(&step, InboxReply::BadActor));
    let step = inbox(&mut db, Some("podcast"), Ok(activity("Follow", Some("a"), d_blank_inboxrequest())), 1);
    assert!(is_reply(&step, InboxReply::NoResource));
    assert!(ap_build_follow_accept(activity("Follow", None, d_blank_inboxrequest()), 42).is_err());
}

#[test]
fn an_undo_of_a_follow_removes_the_follower() {
    let mut db = Database::new();
    for actor in ["https://remote.example/users/dave", "https://remote.example/users/eve"] {
        add_follower_to_db(&mut db, FollowerRecord {
            pcid: 42,
            actor: actor.to_string(),
            instance: "remote.example".to_string(),
            inbox: "i".to_string(),
            shared_inbox: "s".to_string(),
            status: "active".to_string(),
        }).unwrap();
    }
    let mut object = InboxRequestObject::from_str("https://remote.example/activities/0");
    object.kind = Some("Follow".to_string());
    let step = inbox(&mut db, Some("42"), Ok(activity("Undo", Some("https://remote.example/users/dave"), object)), 1);
    assert!(is_reply(&step, InboxReply::Accepted));
    let rows = db.followers();
    assert_eq!(rows.len(), 1);
    assert_eq!(rows[0].actor, "https://remote.example/users/eve");
}

#[test]
fn an_undo_without_a_follow_leaves_the_table_empty_and_succeeds() {
    let mut db = Database::new();
    let mut object = InboxRequestObject::from_str("https://remote.example/activities/0");
    object.kind = Some("Follow".to_string());
    let step = inbox(&mut db, Some("42"), Ok(activity("Undo", Some("https://remote.example/users/dave"), object)), 1);
    assert!(is_reply(&step, InboxReply::Accepted));
    assert!(db.followers().is_empty());
}

#[test]
fn an_undo_of_something_else_changes_nothing() {
    let mut db = Database::new();
    add_follower_to_db(&mut db, FollowerRecord {
        pcid: 42,
        actor: "a".to_string(),
        instance: "i".to_string(),
        inbox: "in".to_string(),
        shared_inbox: "s".to_string(),
        status: "active".to_string(),
    }).unwrap();
    let mut object = InboxRequestObject::from_str("x");
    object.kind = Some("Like".to_string());
    let step = inbox(&mut db, Some("42"), Ok(activity("Undo", Some("a"), object)), 1);
    assert!(is_reply(&step, InboxReply::Accepted));
    let step = inbox(&mut db, Some("42"), Ok(activity("Undo", Some("a"), InboxRequestObject::from_str("x"))), 1);
    assert!(is_reply(&step, InboxReply::Accepted));
    assert_eq!(db.followers().len(), 1);
}

#[test]
fn a_reply_to_an_episode_is_stored() {
    let mut db = Database::new();
    let mut object = note("https://remote.example/users/dave/statuses/1");
    object.in_reply_to = Some("https://ap.podcastindex.org/episodes?id=6594066&statusid=E7&resource=post".to_string());
    object.conversation = Some("C1".to_string());
    object.published = Some("2024-01-03T03:49:36Z".to_string());
    let step = inbox(&mut db, Some("0"), Ok(activity("Create", Some("https://remote.example/users/dave"), object)), 1700000000);
    assert!(is_reply(&step, InboxReply::Accepted));
    let rows = db.replies();
    assert_eq!(rows.len(), 1);
    assert_eq!(rows[0].pcid, 6594066);
    assert_eq!(rows[0].statusid, "E7");
    assert_eq!(rows[0].objectid, "https://remote.example/users/dave/statuses/1");
    assert_eq!(rows[0].objecttype, "Note");
    assert_eq!(rows[0].attributedto, "https://remote.example/users/dave");
    assert_eq!(rows[0].content, "<p>hello</p>");
    assert_eq!(rows[0].sensitive, 0);
    assert_eq!(rows[0].published, "2024-01-03T03:49:36Z");
    assert_eq!(rows[0].received, 1700000000);
    assert_eq!(rows[0].conversation, "C1");
}

#[test]
fn a_reply_without_dates_or_conversation_gets_defaults() {
    let mut db = Database::new();
    let mut object = InboxRequestObject::from_str("o1");
    object.content = Some("hi".to_string());
    object.in_reply_to = Some("https://ap.podcastindex.org/episodes?id=5&statusid=E1".to_string());
    inbox(&mut db, Some("0"), Ok(activity("Create", None, object)), 77);
    let rows = db.replies();
    assert_eq!(rows.len(), 1);
    assert_eq!(rows[0].published, "77");
    assert_eq!(rows[0].conversation, "");
    assert_eq!(rows[0].objecttype, "");
    assert_eq!(rows[0].attributedto, "");
}

#[test]
fn a_note_inherits_the_episode_of_its_conversation() {
    let mut db = Database::new();
    add_reply_to_db(&mut db, stored_reply(6594066, "E7", "o1", 10, "C1")).unwrap();
    add_reply_to_db(&mut db, stored_reply(1, "E9", "o2", 20, "C2")).unwrap();
    let mut object = note("o3");
    object.in_reply_to = Some("https://remote.example/users/dave/statuses/1".to_string());
    object.conversation = Some("C1".to_string());
    let step = inbox(&mut db, Some("0"), Ok(activity("Create", None, object)), 30);
    assert!(is_reply(&step, InboxReply::Accepted));
    let rows = db.replies();
    assert_eq!(rows.len(), 3);
    assert_eq!(rows[2].objectid, "o3");
    assert_eq!(rows[2].pcid, 6594066);
    assert_eq!(rows[2].statusid, "E7");
    assert_eq!(rows[2].conversation, "C1");
}

#[test]
fn a_note_of_an_unknown_conversation_is_not_stored() {
    let mut db = Database::new();
    add_reply_to_db(&mut db, stored_reply(6594066, "E7", "o1", 10, "C1")).unwrap();
    let mut object = note("o3");
    object.in_reply_to = Some("https://remote.example/users/dave/statuses/1".to_string());
    object.conversation = Some("C5".to_string());
    inbox(&mut db, Some("0"), Ok(activity("Create", None, object)), 30);
    let mut unreadable = note("o4");
    unreadable.in_reply_to = Some("no url".to_string());
    inbox(&mut db, Some("0"), Ok(activity("Create", None, unreadable)), 30);
    let mut unnumbered = note("o5");
    unnumbered.in_reply_to = Some("https://ap.podcastindex.org/episodes?id=abc&statusid=E7".to_string());
    inbox(&mut db, Some("0"), Ok(activity("Create", None, unnumbered)), 30);
    assert_eq!(db.replies().len(), 1);
}

#[test]
fn a_note_without_content_is_not_stored() {
    let mut db = Database::new();
    let mut object = InboxRequestObject::from_str("o1");
    object.in_reply_to = Some("https://ap.podcastindex.org/episodes?id=5&statusid=E1".to_string());
    let step = inbox(&mut db, Some("0"), Ok(activity("Create", None, object)), 77);
    assert!(is_reply(&step, InboxReply::Accepted));
    assert!(db.replies().is_empty());
}

#[test]
fn a_reply_arriving_twice_is_stored_once() {
    let mut db = Database::new();
    for received in [1u64, 2] {
        let mut object = note("o1");
        object.in_reply_to = Some("https://ap.podcastindex.org/episodes?id=5&statusid=E1".to_string());
        inbox(&mut db, Some("0"), Ok(activity("Create", None, object)), received);
    }
    let rows = db.replies();
    assert_eq!(rows.len(), 1);
    assert_eq!(rows[0].received, 1);
}

#[test]
fn a_direct_note_is_a_command_to_the_first_actor_in_copy() {
    let mut db = Database::new();
    let mut object = note("https://remote.example/users/dave/statuses/2");
    object.content = Some("  rescan\n ".to_string());
    object.cc = Some(vec![
        "https://www.w3.org/ns/activitystreams#Public".to_string(),
        "nothing".to_string(),
        "https://ap.podcastindex.org/podcasts?id=0".to_string(),
        "https://ap.podcastindex.org/podcasts?id=6594066".to_string(),
        "https://ap.podcastindex.org/podcasts?id=77".to_string(),
    ]);
    let step = inbox(&mut db, Some("0"), Ok(activity("Create", None, object)), 1);
    match step {
        InboxStep::Command { podcast_guid, command, sender, object_id } => {
            assert_eq!(podcast_guid, 6594066);
            assert_eq!(command, Command::Rescan);
            assert_eq!(sender, Some("https://remote.example/users/dave".to_string()));
            assert_eq!(object_id, "https://remote.example/users/dave/statuses/2");
        }
        other => panic!("{:?}", other),
    }
    assert!(db.replies().is_empty());
}

#[test]
fn commands_are_read_from_the_text() {
    assert_eq!(read_command("rescan"), Command::Rescan);
    assert_eq!(read_command(" \t rescan\r\n"), Command::Rescan);
    assert_eq!(read_command("latest"), Command::Latest);
    assert_eq!(read_command("\u{a0}latest\u{2003}"), Command::Latest);
    assert_eq!(read_command("latest please"), Command::Unsupported);
    assert_eq!(read_command("the latest rescan"), Command::Unsupported);
    assert_eq!(read_command("<p>rescan</p>"), Command::Unsupported);
    assert_eq!(read_command("res can"), Command::Unsupported);
    assert_eq!(read_command("Rescan"), Command::Unsupported);
    assert_eq!(read_command(""), Command::Unsupported);
    assert_eq!(find_command_target(&vec![]), None);
    assert_eq!(find_command_target(&vec!["https://x.example/?id=+9".to_string()]), None);
    assert_eq!(find_command_target(&vec!["https://x.example/?id=9".to_string()]), Some(9));
}

#[test]
fn a_reply_in_copy_to_an_actor_is_no_command() {
    let mut db = Database::new();
    let mut object = note("o1");
    object.content = Some("latest".to_string());
    object.cc = Some(vec!["https://ap.podcastindex.org/podcasts?id=6594066".to_string()]);
    object.in_reply_to = Some("https://ap.podcastindex.org/episodes?id=5&statusid=E1".to_string());
    let step = inbox(&mut db, Some("0"), Ok(activity("Create", None, object)), 1);
    assert!(is_reply(&step, InboxReply::Accepted));
    assert_eq!(db.replies().len(), 1);
    let mut unaddressed = note("o2");
    unaddressed.content = Some("latest".to_string());
    let step = inbox(&mut db, Some("0"), Ok(activity("Create", None, unaddressed)), 1);
    assert!(is_reply(&step, InboxReply::Accepted));
}

#[test]
fn a_reference_is_an_object_with_its_id_alone() {
    let blank = d_blank_inboxrequest();
    assert_eq!(blank.id, "");
    assert!(blank.kind.is_none() && blank.content.is_none() && blank.cc.is_none());
    let reference = InboxRequestObject::from_str("https://x.example/1");
    assert_eq!(reference.id, "https://x.example/1");
    assert!(reference.kind.is_none() && reference.in_reply_to.is_none() && reference.replies.is_none());
}

#[test]
fn a_note_that_holds_a_command_word_among_others_asks_for_nothing() {
    let mut db = Database::new();
    let mut object = note("o1");
    object.content = Some("please rescan now".to_string());
    object.cc = Some(vec!["https://ap.podcastindex.org/podcasts?id=6594066".to_string()]);
    match inbox(&mut db, Some("0"), Ok(activity("Create", None, object)), 1) {
        InboxStep::Command { podcast_guid, command, .. } => {
            assert_eq!(podcast_guid, 6594066);
            assert_eq!(command, Command::Unsupported);
        }
        other => panic!("{:?}", other),
    }
    assert!(db.replies().is_empty());
}

#[test]
fn a_note_that_names_no_conversation_inherits_no_episode() {
    let mut db = Database::new();
    add_reply_to_db(&mut db, stored_reply(6594066, "E7", "o1", 10, "")).unwrap();
    let mut object = note("o2");
    object.in_reply_to = Some("https://remote.example/users/dave/statuses/1".to_string());
    inbox(&mut db, Some("0"), Ok(activity("Create", None, object)), 30);
    let mut object = note("o3");
    object.in_reply_to = Some("https://remote.example/users/dave/statuses/1".to_string());
    object.conversation = Some(String::new());
    inbox(&mut db, Some("0"), Ok(activity("Create", None, object)), 30);
    let mut object = note("o4");
    object.conversation = None;
    inbox(&mut db, Some("0"), Ok(activity("Create", None, object)), 30);
    assert_eq!(db.replies().len(), 1);
}

#[test]
fn a_note_without_in_reply_to_joins_the_thread_of_its_conversation() {
    let mut db = Database::new();
    add_reply_to_db(&mut db, stored_reply(6594066, "E7", "o1", 10, "C1")).unwrap();
    add_reply_to_db(&mut db, stored_reply(6594066, "E8", "o2", 20, "C1")).unwrap();
    let mut object = note("o3");
    object.conversation = Some("C1".to_string());
    inbox(&mut db, Some("0"), Ok(activity("Create", None, object)), 30);
    let rows = db.replies();
    assert_eq!(rows.len(), 3);
    assert_eq!(rows[2].statusid, "E8");
    assert_eq!(rows[2].pcid, 6594066);
}
