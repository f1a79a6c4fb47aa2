use ap_bridge::dbif::{
    add_actor_to_db, add_follower_to_db, add_reply_to_db, get_a_reply_by_conversation,
    get_actor_from_db, get_actors_from_db, get_followers_from_db,
    get_replies_from_db_by_episode, remove_follower_from_db, remove_reply_from_db,
    update_actor_last_episode_guid_in_db, ActorRecord, Database, FollowerRecord, HydraError,
    ReplyRecord,
};

fn actor(pcid: u64) -> ActorRecord {
    ActorRecord {
        pcid,
        guid: format!("guid-{}", pcid),
        pem_private_key: format!("private-{}", pcid),
        pem_public_key: format!("public-{}", pcid),
        last_episode_guid: String::new(),
    }
}

fn follower(pcid: u64, actor: &str, instance: &str, shared: &str) -> FollowerRecord {
    FollowerRecord {
        pcid,
        actor: actor.to_string(),
        instance: instance.to_string(),
        inbox: format!("{}/inbox", actor),
        shared_inbox: shared.to_string(),
        status: "active".to_string(),
    }
}

fn reply(pcid: u64, statusid: &str, objectid: &str, received: u64, conversation: &str) -> ReplyRecord {
    ReplyRecord {
        pcid,
        statusid: statusid.to_string(),
        objectid: objectid.to_string(),
        objecttype: "Note".to_string(),
        attributedto: "https://a.example/users/x".to_string(),
        content: "hello".to_string(),
        sensitive: 0,
        published: "2024-01-03T03:49:36Z".to_string(),
        received,
        conversation: conversation.to_string(),
    }
}

#[test]
fn hydra_error_is_shown_with_its_prefix() {
    assert_eq!(HydraError("boom".to_string()).to_string(), "Fatal error: boom");
}

#[test]
fn new_database_is_empty() {
    let db = Database::new();
    assert!(db.actors().is_empty());
    assert!(db.followers().is_empty());
    assert!(db.replies().is_empty());
    assert_eq!(get_actors_from_db(&db).unwrap_err().0, "Failed to get any actors.");
    assert!(get_followers_from_db(&db, 1).unwrap().is_empty());
}

#[test]
fn actors_are_kept_in_the_order_of_their_ids() {
    let mut db = Database::new();
    for pcid in [42u64, 7, 1000, 0, 8] {
        assert_eq!(add_actor_to_db(&mut db, actor(pcid)).unwrap(), true);
    }
    let ids: Vec<u64> = get_actors_from_db(&db).unwrap().iter().map(|a| a.pcid).collect();
    assert_eq!(ids, vec![0, 7, 8, 42, 1000]);
    assert_eq!(get_actor_from_db(&db, 42).unwrap().pem_public_key, "public-42");
}

#[test]
fn an_actor_is_added_once() {
    let mut db = Database::new();
    add_actor_to_db(&mut db, actor(42)).unwrap();
    let mut second = actor(42);
    second.pem_private_key = "other".to_string();
    let refused = add_actor_to_db(&mut db, second).unwrap_err();
    assert_eq!(refused.0, "Failed to add actor: [42].");
    assert_eq!(db.actors().len(), 1);
    assert_eq!(get_actor_from_db(&db, 42).unwrap().pem_private_key, "private-42");
}

#[test]
fn a_missing_actor_is_an_error() {
    let db = Database::new();
    assert_eq!(get_actor_from_db(&db, 5).unwrap_err().0, "Failed to get actor: [5].");
}

#[test]
fn at_most_a_thousand_actors_are_listed() {
    let mut db = Database::new();
    for pcid in 0..1005u64 {
        add_actor_to_db(&mut db, actor(pcid)).unwrap();
    }
    let listed = get_actors_from_db(&db).unwrap();
    assert_eq!(listed.len(), 1000);
    assert_eq!(listed[999].pcid, 999);
    assert_eq!(db.actors().len(), 1005);
}

#[test]
fn the_cursor_of_an_actor_is_updated() {
    let mut db = Database::new();
    add_actor_to_db(&mut db, actor(1)).unwrap();
    add_actor_to_db(&mut db, actor(2)).unwrap();
    assert_eq!(update_actor_last_episode_guid_in_db(&mut db, 2, "E1".to_string()).unwrap(), true);
    assert_eq!(get_actor_from_db(&db, 2).unwrap().last_episode_guid, "E1");
    assert_eq!(get_actor_from_db(&db, 1).unwrap().last_episode_guid, "");
    assert_eq!(update_actor_last_episode_guid_in_db(&mut db, 9, "E1".to_string()).unwrap(), true);
    assert_eq!(db.actors().len(), 2);
}

#[test]
fn a_follower_added_twice_has_one_row() {
    let mut db = Database::new();
    add_follower_to_db(&mut db, follower(42, "https://a.example/users/x", "a.example", "https://a.example/inbox")).unwrap();
    add_follower_to_db(&mut db, follower(42, "https://a.example/users/x", "a.example", "https://a.example/shared")).unwrap();
    let rows = get_followers_from_db(&db, 42).unwrap();
    assert_eq!(rows.len(), 1);
    assert_eq!(rows[0].shared_inbox, "https://a.example/shared");
    add_follower_to_db(&mut db, follower(43, "https://a.example/users/x", "a.example", "https://a.example/inbox")).unwrap();
    assert_eq!(db.followers().len(), 2);
}

#[test]
fn removing_a_follower_that_is_not_there_changes_nothing() {
    let mut db = Database::new();
    assert_eq!(remove_follower_from_db(&mut db, follower(42, "https://a.example/users/x", "", "")).unwrap(), true);
    assert!(db.followers().is_empty());
    add_follower_to_db(&mut db, follower(42, "https://a.example/users/y", "a.example", "s")).unwrap();
    assert_eq!(remove_follower_from_db(&mut db, follower(42, "https://a.example/users/x", "", "")).unwrap(), true);
    assert_eq!(remove_follower_from_db(&mut db, follower(41, "https://a.example/users/y", "", "")).unwrap(), true);
    assert_eq!(db.followers().len(), 1);
    assert_eq!(remove_follower_from_db(&mut db, follower(42, "https://a.example/users/y", "", "")).unwrap(), true);
    assert!(db.followers().is_empty());
}

#[test]
fn followers_are_listed_by_instance_from_last_to_first() {
    let mut db = Database::new();
    add_follower_to_db(&mut db, follower(1, "a1", "b.example", "s1")).unwrap();
    add_follower_to_db(&mut db, follower(1, "a2", "c.example", "s2")).unwrap();
    add_follower_to_db(&mut db, follower(2, "a3", "z.example", "s3")).unwrap();
    add_follower_to_db(&mut db, follower(1, "a4", "a.example", "s4")).unwrap();
    add_follower_to_db(&mut db, follower(1, "a5", "c.example", "s5")).unwrap();
    add_follower_to_db(&mut db, follower(1, "a6", "b", "s6")).unwrap();
    let listed: Vec<String> = get_followers_from_db(&db, 1).unwrap().into_iter().map(|f| f.actor).collect();
    assert_eq!(listed, vec!["a2", "a5", "a1", "a6", "a4"]);
}

#[test]
fn at_most_a_thousand_followers_are_listed() {
    let mut db = Database::new();
    for i in 0..1002u64 {
        add_follower_to_db(&mut db, follower(1, &format!("actor-{}", i), "same.example", "s")).unwrap();
    }
    let listed = get_followers_from_db(&db, 1).unwrap();
    assert_eq!(listed.len(), 1000);
    assert_eq!(listed[0].actor, "actor-0");
    assert_eq!(listed[999].actor, "actor-999");
}

#[test]
fn a_reply_is_stored_once() {
    let mut db = Database::new();
    assert_eq!(add_reply_to_db(&mut db, reply(1, "E7", "o1", 10, "C1")).unwrap(), true);
    let refused = add_reply_to_db(&mut db, reply(2, "E8", "o1", 11, "C2")).unwrap_err();
    assert_eq!(refused.0, "Failed to add reply: [o1].");
    let rows = db.replies();
    assert_eq!(rows.len(), 1);
    assert_eq!(rows[0].statusid, "E7");
}

#[test]
fn replies_are_listed_with_the_latest_first() {
    let mut db = Database::new();
    add_reply_to_db(&mut db, reply(1, "E7", "o1", 10, "C1")).unwrap();
    add_reply_to_db(&mut db, reply(1, "E7", "o2", 30, "C1")).unwrap();
    add_reply_to_db(&mut db, reply(1, "E8", "o3", 40, "C1")).unwrap();
    add_reply_to_db(&mut db, reply(2, "E7", "o4", 50, "C2")).unwrap();
    add_reply_to_db(&mut db, reply(1, "E7", "o5", 20, "C3")).unwrap();
    add_reply_to_db(&mut db, reply(1, "E7", "o6", 30, "C3")).unwrap();
    let by_episode: Vec<String> = get_replies_from_db_by_episode(&db, 1, "E7".to_string())
        .unwrap().into_iter().map(|r| r.objectid).collect();
    assert_eq!(by_episode, vec!["o2", "o6", "o5", "o1"]);
    let by_conversation: Vec<String> = get_a_reply_by_conversation(&db, "C1".to_string())
        .unwrap().into_iter().map(|r| r.objectid).collect();
    assert_eq!(by_conversation, vec!["o3", "o2", "o1"]);
    assert!(get_a_reply_by_conversation(&db, "C9".to_string()).unwrap().is_empty());
}

#[test]
fn a_reply_is_removed_by_its_object_id() {
    let mut db = Database::new();
    add_reply_to_db(&mut db, reply(1, "E7", "o1", 10, "C1")).unwrap();
    add_reply_to_db(&mut db, reply(1, "E7", "o2", 30, "C1")).unwrap();
    assert_eq!(remove_reply_from_db(&mut db, reply(9, "", "o1", 0, "")).unwrap(), true);
    assert_eq!(remove_reply_from_db(&mut db, reply(9, "", "o7", 0, "")).unwrap(), true);
    let rows = db.replies();
    assert_eq!(rows.len(), 1);
    assert_eq!(rows[0].objectid, "o2");
}

#[test]
fn a_database_is_made_of_rows_that_keep_the_promises() {
    let db = Database::from_rows(
        vec![actor(1), actor(5)],
        vec![follower(1, "a", "x", "s"), follower(1, "b", "x", "s"), follower(5, "a", "x", "s")],
        vec![reply(1, "E", "o1", 1, "C"), reply(1, "E", "o2", 1, "C")],
    )
    .unwrap();
    assert_eq!(db.actors().len(), 2);
    assert_eq!(db.followers().len(), 3);
    assert_eq!(db.replies().len(), 2);
    assert_eq!(db.followers()[1].actor, "b");
    assert!(Database::from_rows(vec![], vec![], vec![]).is_some());
    assert!(Database::from_rows(vec![actor(5), actor(1)], vec![], vec![]).is_none());
    assert!(Database::from_rows(vec![actor(5), actor(5)], vec![], vec![]).is_none());
    assert!(Database::from_rows(
        vec![],
        vec![follower(1, "a", "x", "s"), follower(2, "b", "x", "s"), follower(1, "a", "y", "t")],
        vec![]
    )
    .is_none());
    assert!(Database::from_rows(
        vec![],
        vec![],
        vec![reply(1, "E", "o1", 1, "C"), reply(2, "F", "o1", 2, "D")]
    )
    .is_none());
}
