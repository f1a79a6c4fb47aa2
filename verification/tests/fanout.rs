use ap_bridge::dbif::FollowerRecord;
use ap_bridge::fanout::{holds_text, notify, Fanout};

fn follower(actor: &str, shared: &str) -> FollowerRecord {
    FollowerRecord {
        pcid: 42,
        actor: actor.to_string(),
        instance: "x".to_string(),
        inbox: format!("{}/inbox", actor),
        shared_inbox: shared.to_string(),
        status: "active".to_string(),
    }
}

#[test]
fn three_followers_of_one_inbox_and_one_of_another_make_two_deliveries() {
    let followers = vec![
        follower("a", "https://big.example/inbox"),
        follower("b", "https://big.example/inbox"),
        follower("c", "https://small.example/users/c/inbox"),
        follower("d", "https://big.example/inbox"),
    ];
    let targets = notify(&followers);
    assert_eq!(targets, vec!["https://big.example/inbox", "https://small.example/users/c/inbox"]);
}

#[test]
fn no_followers_make_no_delivery() {
    assert!(notify(&Vec::new()).is_empty());
}

#[test]
fn each_inbox_is_a_target_in_the_order_of_its_first_follower() {
    let followers = vec![follower("a", "s3"), follower("b", "s1"), follower("c", "s3"), follower("d", "s2"), follower("e", "s1")];
    assert_eq!(notify(&followers), vec!["s3", "s1", "s2"]);
}

#[test]
fn holds_text_finds_what_is_there() {
    let strings = vec!["a".to_string(), "bc".to_string()];
    assert!(holds_text(&strings, "bc"));
    assert!(!holds_text(&strings, "b"));
    assert!(!holds_text(&Vec::new(), ""));
}

#[test]
fn each_inbox_has_its_turn_whatever_came_of_the_others() {
    let mut run = Fanout::start(vec!["s1".to_string(), "s2".to_string(), "s3".to_string()]);
    assert_eq!(run.attempted(), 0);
    assert_eq!(run.outcome(0), None);
    assert_eq!(run.next(), Some("s1".to_string()));
    assert_eq!(run.next(), Some("s1".to_string()));
    run.record(false);
    assert_eq!(run.next(), Some("s2".to_string()));
    run.record(true);
    assert_eq!(run.next(), Some("s3".to_string()));
    run.record(false);
    assert_eq!(run.next(), None);
    run.record(true);
    assert_eq!(run.attempted(), 3);
    assert_eq!(run.outcome(0), Some(false));
    assert_eq!(run.outcome(1), Some(true));
    assert_eq!(run.outcome(2), Some(false));
    assert_eq!(run.outcome(3), None);
    let mut none = Fanout::start(Vec::new());
    assert_eq!(none.next(), None);
    none.record(true);
    assert_eq!(none.attempted(), 0);
}
