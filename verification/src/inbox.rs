//! The inbox: what an arriving activity does to the tables, and what has to
//! be done for it outside.
//!
//! The server hands each request to [`inbox`]. A Follow needs two pieces of
//! outside work, the profile of the follower and the delivery of the
//! Accept; the server does them and hands each result on, to
//! [`inbox_follow_fetched`] and to [`inbox_follow_accepted`]. A command
//! that a note gives is carried out step by step as [`crate::commands`]
//! says.

use vstd::prelude::*;
use vstd::string::*;
use crate::activity::{Actor, InboxRequestAccept, InboxRequestObject, InboxRequestWithObject};
use crate::dbif::{
    add_follower_to_db, add_reply_to_db, get_a_reply_by_conversation, remove_follower_from_db,
    Database, DatabaseView, FollowerRecord, FollowerRecordView, HydraError, ReplyRecord,
    ReplyRecordView,
};
use crate::fanout::texts;
use crate::handler::{ap_build_follow_accept, is_follow_accept};
use crate::text::{
    before, decimal, lowercase, parse_u64, parsed_u64, remove_all, str_eq, take_before,
    to_lowercase, trim, trimmed, u64_to_string, without,
};
use crate::urls::{
    get_host_from_url, get_id_from_url, get_statusid_from_url, option_view, query_value,
    url_parts, url_query_value,
};

verus! {

broadcast use vstd::string::group_string_axioms;

/// The kinds of activity that the inbox tells apart.
#[derive(Debug, Clone, Copy, PartialEq, Eq)]
pub enum InboundActivity {
    Follow,
    Undo,
    Create,
    Delete,
    Unknown,
}

/// The kind that a type names, once the type is in lower case.
pub open spec fn classified(lowered: Seq<char>) -> InboundActivity {
    if lowered == "delete"@ {
        InboundActivity::Delete
    } else if lowered == "follow"@ {
        InboundActivity::Follow
    } else if lowered == "undo"@ {
        InboundActivity::Undo
    } else if lowered == "create"@ {
        InboundActivity::Create
    } else {
        InboundActivity::Unknown
    }
}

/// The kind of an activity of type `kind`: upper and lower case count the
/// same.
pub open spec fn activity_kind(kind: Seq<char>) -> InboundActivity {
    classified(lowercase(kind))
}

/// The kind that a type in lower case names.
pub fn classify(lowered: &str) -> (kind: InboundActivity)
    ensures
        kind == classified(lowered@),
{
    if str_eq(lowered, "delete") {
        InboundActivity::Delete
    } else if str_eq(lowered, "follow") {
        InboundActivity::Follow
    } else if str_eq(lowered, "undo") {
        InboundActivity::Undo
    } else if str_eq(lowered, "create") {
        InboundActivity::Create
    } else {
        InboundActivity::Unknown
    }
}

/// The kind of an activity of type `kind`.
pub fn inbound_activity(kind: &str) -> (found: InboundActivity)
    ensures
        found == activity_kind(kind@),
{
    let lowered = to_lowercase(kind);
    classify(lowered.as_str())
}

/// The answers of the inbox.
#[derive(Debug, Clone, Copy, PartialEq, Eq)]
pub enum InboxReply {
    /// The activity was taken, whatever it did.
    Accepted,
    /// The request names no actor of this server.
    NoResource,
    /// The body is no activity.
    InvalidFormat,
    /// The profile of the follower could not be had.
    BadActor,
    /// The Accept could not be delivered.
    AcknowledgingFailed,
    /// The follower could not be stored.
    SaveFailed,
    /// The Accept could not be built.
    AcceptBuildError,
    /// The Accept could not be written.
    AcceptEncodeError,
}

impl InboxReply {
    /// The HTTP status of the answer.
    pub open spec fn spec_status(self) -> u16 {
        match self {
            InboxReply::Accepted => 200,
            InboxReply::AcceptBuildError => 500,
            InboxReply::AcceptEncodeError => 500,
            _ => 400,
        }
    }

    /// The HTTP status of the answer.
    #[verifier::when_used_as_spec(spec_status)]
    pub fn status(self) -> (code: u16)
        ensures
            code == self.spec_status(),
    {
        match self {
            InboxReply::Accepted => 200,
            InboxReply::AcceptBuildError => 500,
            InboxReply::AcceptEncodeError => 500,
            _ => 400,
        }
    }

    /// The body of the answer.
    pub open spec fn spec_body(self) -> Seq<char> {
        match self {
            InboxReply::Accepted => ""@,
            InboxReply::NoResource => "No resource given."@,
            InboxReply::InvalidFormat => "Invalid request format."@,
            InboxReply::BadActor => "Bad actor."@,
            InboxReply::AcknowledgingFailed => "Acknowledging failed."@,
            InboxReply::SaveFailed => "Unable to save follow state."@,
            InboxReply::AcceptBuildError => "Accept build error."@,
            InboxReply::AcceptEncodeError => "Accept encode error."@,
        }
    }

    /// The body of the answer.
    pub fn body(self) -> (text: String)
        ensures
            text@ == self.spec_body(),
    {
        match self {
            InboxReply::Accepted => String::from_str(""),
            InboxReply::NoResource => String::from_str("No resource given."),
            InboxReply::InvalidFormat => String::from_str("Invalid request format."),
            InboxReply::BadActor => String::from_str("Bad actor."),
            InboxReply::AcknowledgingFailed => String::from_str("Acknowledging failed."),
            InboxReply::SaveFailed => String::from_str("Unable to save follow state."),
            InboxReply::AcceptBuildError => String::from_str("Accept build error."),
            InboxReply::AcceptEncodeError => String::from_str("Accept encode error."),
        }
    }

    /// The content type of the answer, where it names one.
    pub fn content_type(self) -> (named: Option<String>)
        ensures
            self == InboxReply::Accepted ==> (named matches Some(text) && text@
                == "application/activity+json; charset=utf-8"@),
            self != InboxReply::Accepted ==> named is None,
    {
        match self {
            InboxReply::Accepted => Some(
                String::from_str("application/activity+json; charset=utf-8"),
            ),
            _ => None,
        }
    }
}

/// What a note to a podcast actor asks for.
#[derive(Debug, Clone, Copy, PartialEq, Eq)]
pub enum Command {
    /// Read the feed anew, and answer `Done.`.
    Rescan,
    /// Send the latest episode to the sender.
    Latest,
    /// Anything else: nothing is done.
    Unsupported,
}

/// What the server does next for a request.
#[derive(Debug)]
pub enum InboxStep {
    /// Answer the request.
    Reply(InboxReply),
    /// Fetch the profile at `actor_url` and hand the result, with
    /// `podcast_guid` and `follow`, to [`inbox_follow_fetched`].
    FetchFollower { podcast_guid: u64, follow: InboxRequestWithObject, actor_url: String },
    /// Carry out `command` for actor `podcast_guid`, then answer
    /// [`InboxReply::Accepted`]. What is sent goes to the inbox of `sender`,
    /// as a reply to `object_id`; nothing is sent where there is no sender.
    Command { podcast_guid: u64, command: Command, sender: Option<String>, object_id: String },
}

/// What the server does next for a Follow.
#[derive(Debug)]
pub enum FollowStep {
    /// Answer the request.
    Reply(InboxReply),
    /// Deliver `accept`, signed by actor `podcast_guid`, to `inbox_url`,
    /// and hand the result, with `follower`, to [`inbox_follow_accepted`].
    SendAccept {
        podcast_guid: u64,
        accept: InboxRequestAccept,
        inbox_url: String,
        follower: FollowerRecord,
    },
}

/// The id in the `id` parameter `resource` of a request: the text without
/// each `acct:`, up to the first `@`.
pub open spec fn resource_guid(resource: Seq<char>) -> Seq<char> {
    before(without(resource, "acct:"@), '@')
}

/// The actor of this server that `resource` names; `None` where the id is
/// no number.
pub open spec fn resource_owner(resource: Seq<char>) -> Option<u64> {
    parsed_u64(resource_guid(resource))
}

/// The id in the `id` parameter of a request.
pub fn podcast_guid_of(resource: &str) -> (guid: String)
    ensures
        guid@ == resource_guid(resource@),
{
    let rest = remove_all(resource, "acct:");
    take_before(rest.as_str(), '@')
}

/// The text of an optional string, empty where there is none.
pub open spec fn text_or_empty(text: Option<String>) -> Seq<char> {
    match text {
        Some(s) => s@,
        None => Seq::empty(),
    }
}

/// A copy of the text, or the empty string.
fn text_or_empty_of(text: &Option<String>) -> (copy: String)
    ensures
        copy@ == text_or_empty(*text),
{
    match text {
        Some(s) => s.clone(),
        None => String::new(),
    }
}

/// The episode that `in_reply_to` points at: the owner and the status id in
/// the query of the URL, where both are given and the owner is a number.
pub open spec fn resolved_thread(in_reply_to: Option<Seq<char>>) -> Option<(u64, Seq<char>)> {
    match in_reply_to {
        None => None,
        Some(url) => match url_parts(url) {
            None => None,
            Some(parts) => {
                let id = query_value(parts.query, "id"@);
                let statusid = query_value(parts.query, "statusid"@);
                if id.len() > 0 && statusid.len() > 0 && parsed_u64(id) is Some {
                    Some((parsed_u64(id)->Some_0, statusid))
                } else {
                    None
                }
            },
        },
    }
}

/// Whether a note names its conversation: it gives one, and not the empty
/// text.
pub open spec fn names_conversation(object: InboxRequestObject) -> bool {
    object.conversation matches Some(conversation) && conversation@.len() > 0
}

/// The episode that a note belongs to: the one it replies to, or else the
/// one of the reply of its conversation that is listed first, which is one
/// that was received last. `None` where neither is known; a note that
/// names no conversation belongs to none.
pub open spec fn thread_of(db: DatabaseView, object: InboxRequestObject) -> Option<
    (u64, Seq<char>),
> {
    match resolved_thread(option_view(object.in_reply_to)) {
        Some(thread) => Some(thread),
        None => {
            let known = db.conversation_replies(text_or_empty(object.conversation));
            if names_conversation(object) && known.len() > 0 {
                Some((known[0].pcid, known[0].statusid))
            } else {
                None
            }
        },
    }
}

/// The row of a reply to the episode `thread`.
pub open spec fn reply_row(thread: (u64, Seq<char>), object: InboxRequestObject, received: u64) -> ReplyRecordView {
    ReplyRecordView {
        pcid: thread.0,
        statusid: thread.1,
        objectid: object.id@,
        objecttype: text_or_empty(object.kind),
        attributedto: text_or_empty(object.attributed_to),
        content: text_or_empty(object.content),
        sensitive: 0,
        published: match object.published {
            Some(published) => published@,
            None => decimal(received as nat),
        },
        received,
        conversation: text_or_empty(object.conversation),
    }
}

/// The reply that a Create stores: none without content, and none where
/// the note belongs to no known episode.
pub open spec fn stored_reply(db: DatabaseView, object: InboxRequestObject, received: u64) -> Option<
    ReplyRecordView,
> {
    if object.content is None {
        None
    } else {
        match thread_of(db, object) {
            Some(thread) => Some(reply_row(thread, object, received)),
            None => None,
        }
    }
}

/// The tables after a Create with `object` arrived at time `received`.
pub open spec fn after_create(db: DatabaseView, object: InboxRequestObject, received: u64) -> DatabaseView {
    match stored_reply(db, object, received) {
        Some(row) => if db.has_reply(row.objectid) {
            db
        } else {
            db.with_reply(row)
        },
        None => db,
    }
}

/// Whether an Undo takes a Follow back.
pub open spec fn undoes_follow(activity: InboxRequestWithObject) -> bool {
    activity.object.kind matches Some(kind) && lowercase(kind@) == "follow"@
}

/// The tables after an Undo for the actor that `resource` names.
pub open spec fn after_undo(db: DatabaseView, resource: Seq<char>, activity: InboxRequestWithObject) -> DatabaseView {
    if undoes_follow(activity) && resource_owner(resource) is Some && activity.actor is Some {
        db.without_follower(resource_owner(resource)->Some_0, activity.actor->Some_0@)
    } else {
        db
    }
}

/// The tables after a request to the inbox.
pub open spec fn inbox_effect(
    db: DatabaseView,
    resource: Option<Seq<char>>,
    activity: Result<InboxRequestWithObject, String>,
    received: u64,
) -> DatabaseView {
    match (resource, activity) {
        (Some(resource), Ok(activity)) => match activity_kind(activity.kind@) {
            InboundActivity::Undo => after_undo(db, resource, activity),
            InboundActivity::Create => after_create(db, activity.object, received),
            _ => db,
        },
        _ => db,
    }
}

/// The actor of this server that the address `cc` names: the number in the
/// `id` of its query, where that is above zero.
pub open spec fn cc_owner(cc: Seq<char>) -> Option<u64> {
    match url_query_value(cc, "id"@) {
        Some(id) => match parsed_u64(id) {
            Some(pcid) => if pcid > 0 {
                Some(pcid)
            } else {
                None
            },
            None => None,
        },
        None => None,
    }
}

/// The actor that a note is a command to: the first of the addresses in
/// copy that names an actor of this server.
pub open spec fn command_target(cc: Seq<Seq<char>>) -> Option<u64>
    decreases cc.len(),
{
    if cc.len() == 0 {
        None
    } else {
        match cc_owner(cc[0]) {
            Some(pcid) => Some(pcid),
            None => command_target(cc.drop_first()),
        }
    }
}

/// What the text of a note asks for: the text without the white space at
/// its two ends is the command. `rescan` and `latest` are commands; any
/// other text asks for nothing.
pub open spec fn command_of(content: Seq<char>) -> Command {
    if trimmed(content) == "rescan"@ {
        Command::Rescan
    } else if trimmed(content) == "latest"@ {
        Command::Latest
    } else {
        Command::Unsupported
    }
}

/// The actor that a Create commands, if it commands one: the note has
/// content and addresses in copy, replies to nothing, and one of the
/// addresses names the actor.
pub open spec fn commanded(object: InboxRequestObject) -> Option<u64> {
    if object.cc is Some && object.in_reply_to is None && object.content is Some {
        command_target(texts(object.cc->Some_0@))
    } else {
        None
    }
}

/// Whether `step` is what the server does next for the request.
pub open spec fn is_inbox_step(
    step: InboxStep,
    resource: Option<Seq<char>>,
    activity: Result<InboxRequestWithObject, String>,
) -> bool {
    match (resource, activity) {
        (None, _) => step matches InboxStep::Reply(InboxReply::NoResource),
        (Some(_), Err(_)) => step matches InboxStep::Reply(InboxReply::InvalidFormat),
        (Some(resource), Ok(activity)) => match activity_kind(activity.kind@) {
            InboundActivity::Delete => step matches InboxStep::Reply(InboxReply::Accepted),
            InboundActivity::Unknown => step matches InboxStep::Reply(InboxReply::Accepted),
            InboundActivity::Follow => if activity.actor is None {
                step matches InboxStep::Reply(InboxReply::BadActor)
            } else if resource_owner(resource) is None {
                step matches InboxStep::Reply(InboxReply::NoResource)
            } else {
                &&& step matches InboxStep::FetchFollower { podcast_guid, follow, actor_url }
                &&& podcast_guid == resource_owner(resource)->Some_0
                &&& follow == activity
                &&& actor_url@ == activity.actor->Some_0@
            },
            InboundActivity::Undo => if undoes_follow(activity) && resource_owner(resource)
                is None {
                step matches InboxStep::Reply(InboxReply::NoResource)
            } else {
                step matches InboxStep::Reply(InboxReply::Accepted)
            },
            InboundActivity::Create => match commanded(activity.object) {
                None => step matches InboxStep::Reply(InboxReply::Accepted),
                Some(pcid) => {
                    &&& step matches InboxStep::Command { podcast_guid, command, sender, object_id }
                    &&& podcast_guid == pcid
                    &&& command == command_of(activity.object.content->Some_0@)
                    &&& option_view(sender) == option_view(activity.object.attributed_to)
                    &&& object_id@ == activity.object.id@
                },
            },
        },
    }
}

/// An Undo of a Follow that was never made changes nothing and is taken:
/// the follower table is as it was, empty if it was empty.
pub proof fn lemma_undo_without_follow(
    db: DatabaseView,
    resource: Seq<char>,
    activity: InboxRequestWithObject,
    received: u64,
    step: InboxStep,
)
    requires
        activity_kind(activity.kind@) == InboundActivity::Undo,
        undoes_follow(activity),
        resource_owner(resource) is Some,
        activity.actor is Some,
        !db.has_follower(resource_owner(resource)->Some_0, activity.actor->Some_0@),
        is_inbox_step(step, Some(resource), Ok(activity)),
    ensures
        inbox_effect(db, Some(resource), Ok(activity), received) == db,
        step matches InboxStep::Reply(InboxReply::Accepted),
{
    crate::dbif::lemma_remove_absent_follower(
        db,
        resource_owner(resource)->Some_0,
        activity.actor->Some_0@,
    );
}

/// After an Undo of a Follow the follower has no row, whether it had one
/// before or not.
pub proof fn lemma_undo_removes_follower(
    db: DatabaseView,
    resource: Seq<char>,
    activity: InboxRequestWithObject,
    received: u64,
)
    requires
        activity_kind(activity.kind@) == InboundActivity::Undo,
        undoes_follow(activity),
        resource_owner(resource) is Some,
        activity.actor is Some,
    ensures
        !inbox_effect(db, Some(resource), Ok(activity), received).has_follower(
            resource_owner(resource)->Some_0,
            activity.actor->Some_0@,
        ),
{
    crate::dbif::lemma_removed_follower_is_absent(
        db,
        resource_owner(resource)->Some_0,
        activity.actor->Some_0@,
    );
}

/// A note inherits its episode from its conversation: where a Create
/// brings a note with content that replies to no known episode and names
/// its conversation, and a reply of that conversation is stored, the note
/// is stored as a reply to the episode of a stored reply of that
/// conversation, the one that was received last. So a conversation whose
/// replies all belong to one episode grows by replies to that episode.
pub proof fn lemma_thread_inheritance(
    db: DatabaseView,
    resource: Seq<char>,
    activity: InboxRequestWithObject,
    received: u64,
    stored: int,
) -> (anchor: int)
    requires
        activity_kind(activity.kind@) == InboundActivity::Create,
        activity.object.content is Some,
        resolved_thread(option_view(activity.object.in_reply_to)) is None,
        names_conversation(activity.object),
        !db.has_reply(activity.object.id@),
        0 <= stored < db.replies.len(),
        db.replies[stored].conversation == text_or_empty(activity.object.conversation),
    ensures
        0 <= anchor < db.replies.len(),
        db.replies[anchor].conversation == text_or_empty(activity.object.conversation),
        forall|k: int|
            0 <= k < db.replies.len() && (#[trigger] db.replies[k]).conversation == text_or_empty(
                activity.object.conversation,
            ) ==> db.replies[k].received <= db.replies[anchor].received,
        inbox_effect(db, Some(resource), Ok(activity), received).replies == db.replies.push(
            reply_row(
                (db.replies[anchor].pcid, db.replies[anchor].statusid),
                activity.object,
                received,
            ),
        ),
        reply_row(
            (db.replies[anchor].pcid, db.replies[anchor].statusid),
            activity.object,
            received,
        ).statusid == db.replies[anchor].statusid,
        reply_row(
            (db.replies[anchor].pcid, db.replies[anchor].statusid),
            activity.object,
            received,
        ).conversation == text_or_empty(activity.object.conversation),
{
    broadcast use vstd::seq_lib::group_to_multiset_ensures;

    let conversation = text_or_empty(activity.object.conversation);
    let keep = crate::dbif::in_conversation(conversation);
    let before = crate::dbif::by_received_desc();
    let kept = db.replies.filter(keep);
    let known = db.conversation_replies(conversation);
    db.replies.lemma_filter_contains(keep, stored);
    crate::query::lemma_arrange_permutes(kept, before);
    crate::dbif::lemma_listing_orders_rank();
    crate::query::lemma_arrange_ordered(kept, before);
    assert(known.len() > 0);
    let at = crate::query::lemma_arranged_row(kept, before, 0);
    db.replies.lemma_filter_pred(keep, at);
    let anchor = crate::query::lemma_filter_source(db.replies, keep, at);
    assert(db.replies[anchor] == known[0]);
    assert forall|k: int|
        0 <= k < db.replies.len() && (#[trigger] db.replies[k]).conversation
            == conversation implies db.replies[k].received <= db.replies[anchor].received by {
        db.replies.lemma_filter_contains(keep, k);
        assert(kept.to_multiset().count(db.replies[k]) > 0);
        assert(known.to_multiset().count(db.replies[k]) > 0);
        assert(known.contains(db.replies[k]));
        let j = choose|j: int| 0 <= j < known.len() && known[j] == db.replies[k];
        if j > 0 {
            assert(!before(known[j], known[0]));
        }
    }
    anchor
}

/// The episode that `in_reply_to` points at.
fn resolve_thread(in_reply_to: &Option<String>) -> (thread: Option<(u64, String)>)
    ensures
        thread is Some <==> resolved_thread(option_view(*in_reply_to)) is Some,
        thread matches Some(found) ==> resolved_thread(option_view(*in_reply_to)) == Some(
            (found.0, found.1@),
        ),
{
    let url = match in_reply_to {
        Some(url) => url,
        None => {
            return None;
        },
    };
    let id = match get_id_from_url(url.clone()) {
        Some(id) => id,
        None => {
            return None;
        },
    };
    let statusid = match get_statusid_from_url(url.clone()) {
        Some(statusid) => statusid,
        None => {
            return None;
        },
    };
    if id.as_str().is_empty() || statusid.as_str().is_empty() {
        return None;
    }
    match parse_u64(id.as_str()) {
        Some(pcid) => Some((pcid, statusid)),
        None => None,
    }
}

/// Stores the reply that a Create with `object` brings, if it brings one.
fn store_reply(db: &mut Database, object: &InboxRequestObject, received: u64)
    ensures
        final(db)@ == after_create(old(db)@, *object, received),
{
    let content = match &object.content {
        Some(content) => content.clone(),
        None => {
            return ;
        },
    };
    let conversation = text_or_empty_of(&object.conversation);
    let thread = match resolve_thread(&object.in_reply_to) {
        Some(thread) => thread,
        None => {
            if conversation.as_str().is_empty() {
                return ;
            }
            let known = match get_a_reply_by_conversation(db, conversation.clone()) {
                Ok(known) => known,
                Err(_) => {
                    return ;
                },
            };
            if known.len() == 0 {
                return ;
            }
            (known[0].pcid, known[0].statusid.clone())
        },
    };
    let published = match &object.published {
        Some(published) => published.clone(),
        None => u64_to_string(received),
    };
    let row = ReplyRecord {
        pcid: thread.0,
        statusid: thread.1,
        objectid: object.id.clone(),
        objecttype: text_or_empty_of(&object.kind),
        attributedto: text_or_empty_of(&object.attributed_to),
        content,
        sensitive: 0,
        published,
        received,
        conversation,
    };
    let _ = add_reply_to_db(db, row);
}

/// The actor of this server that the address `cc` names.
fn cc_owner_of(cc: &str) -> (owner: Option<u64>)
    ensures
        owner == cc_owner(cc@),
{
    let id = match get_id_from_url(String::from_str(cc)) {
        Some(id) => id,
        None => {
            return None;
        },
    };
    match parse_u64(id.as_str()) {
        Some(pcid) => if pcid > 0 {
            Some(pcid)
        } else {
            None
        },
        None => None,
    }
}

/// The actor that a note with these addresses in copy is a command to.
pub fn find_command_target(cc: &Vec<String>) -> (target: Option<u64>)
    ensures
        target == command_target(texts(cc@)),
{
    let ghost all = texts(cc@);
    let mut i: usize = 0;
    assert(all.skip(0) =~= all);
    while i < cc.len()
        invariant
            i <= cc.len(),
            all == texts(cc@),
            command_target(all) == command_target(all.skip(i as int)),
        decreases cc.len() - i,
    {
        assert(all.skip(i as int)[0] == cc[i as int]@);
        match cc_owner_of(cc[i].as_str()) {
            Some(pcid) => {
                return Some(pcid);
            },
            None => {},
        }
        assert(all.skip(i as int).drop_first() =~= all.skip(i + 1));
        i += 1;
    }
    None
}

/// What the text of a note asks for.
pub fn read_command(content: &str) -> (command: Command)
    ensures
        command == command_of(content@),
{
    let command = trim(content);
    if str_eq(command.as_str(), "rescan") {
        Command::Rescan
    } else if str_eq(command.as_str(), "latest") {
        Command::Latest
    } else {
        Command::Unsupported
    }
}

/// Takes a request to the inbox.
///
/// `resource` is the `id` parameter of the request, `activity` its body
/// read as an activity, or why it is none, and `received` the time in
/// seconds. A request without `id` and a body that is no activity are
/// refused. A Delete and an activity of unknown type are taken and
/// change nothing. An Undo of a Follow removes the follower, if there is
/// one. A Create stores its note as a reply where the note has content and
/// belongs to a known episode; a note that commands an actor of this
/// server leaves the command to be carried out. A Follow leaves the
/// profile of the follower to be fetched.
pub fn inbox(
    db: &mut Database,
    resource: Option<&str>,
    activity: Result<InboxRequestWithObject, String>,
    received: u64,
) -> (step: InboxStep)
    ensures
        final(db)@ == inbox_effect(
            old(db)@,
            match resource {
                Some(text) => Some(text@),
                None => None,
            },
            activity,
            received,
        ),
        is_inbox_step(
            step,
            match resource {
                Some(text) => Some(text@),
                None => None,
            },
            activity,
        ),
{
    let resource = match resource {
        Some(resource) => resource,
        None => {
            return InboxStep::Reply(InboxReply::NoResource);
        },
    };
    let incoming_data = match activity {
        Ok(incoming_data) => incoming_data,
        Err(_) => {
            return InboxStep::Reply(InboxReply::InvalidFormat);
        },
    };
    let podcast_guid = podcast_guid_of(resource);
    let owner = parse_u64(podcast_guid.as_str());
    match inbound_activity(incoming_data.kind.as_str()) {
        InboundActivity::Delete => InboxStep::Reply(InboxReply::Accepted),
        InboundActivity::Unknown => InboxStep::Reply(InboxReply::Accepted),
        InboundActivity::Follow => {
            let actor_url = match &incoming_data.actor {
                Some(actor) => actor.clone(),
                None => {
                    return InboxStep::Reply(InboxReply::BadActor);
                },
            };
            match owner {
                Some(podcast_guid) => InboxStep::FetchFollower {
                    podcast_guid,
                    follow: incoming_data,
                    actor_url,
                },
                None => InboxStep::Reply(InboxReply::NoResource),
            }
        },
        InboundActivity::Undo => {
            let follow = match &incoming_data.object.kind {
                Some(kind) => {
                    let lowered = to_lowercase(kind.as_str());
                    str_eq(lowered.as_str(), "follow")
                },
                None => false,
            };
            if !follow {
                return InboxStep::Reply(InboxReply::Accepted);
            }
            let pcid = match owner {
                Some(pcid) => pcid,
                None => {
                    return InboxStep::Reply(InboxReply::NoResource);
                },
            };
            match incoming_data.actor {
                Some(actor) => {
                    let _ = remove_follower_from_db(
                        db,
                        FollowerRecord {
                            pcid,
                            actor,
                            instance: String::new(),
                            inbox: String::new(),
                            shared_inbox: String::new(),
                            status: String::new(),
                        },
                    );
                },
                None => {},
            }
            InboxStep::Reply(InboxReply::Accepted)
        },
        InboundActivity::Create => {
            store_reply(db, &incoming_data.object, received);
            let object = incoming_data.object;
            let target = match (&object.cc, &object.in_reply_to, &object.content) {
                (Some(cc), None, Some(_)) => find_command_target(cc),
                _ => None,
            };
            match (target, &object.content) {
                (Some(podcast_guid), Some(content)) => InboxStep::Command {
                    podcast_guid,
                    command: read_command(content.as_str()),
                    sender: object.attributed_to,
                    object_id: object.id,
                },
                _ => InboxStep::Reply(InboxReply::Accepted),
            }
        },
    }
}

/// The row of a follower whose profile is `actor` and whose inbox is at
/// the host `instance`. The shared inbox is the one that the profile
/// names, or else the inbox itself.
pub open spec fn follower_row(pcid: u64, actor: Actor, instance: Seq<char>) -> FollowerRecordView {
    FollowerRecordView {
        pcid,
        actor: actor.id@,
        instance,
        inbox: actor.inbox@,
        shared_inbox: match actor.endpoints {
            Some(endpoints) => endpoints.shared_inbox@,
            None => actor.inbox@,
        },
        status: "active"@,
    }
}

/// The host of the URL `url`, where it has one.
pub open spec fn url_host(url: Seq<char>) -> Option<Seq<char>> {
    match url_parts(url) {
        Some(parts) => parts.host,
        None => None,
    }
}

/// Whether `step` is what the server does next for a Follow once the
/// profile of the follower was asked for.
pub open spec fn is_follow_step(
    step: FollowStep,
    pcid: u64,
    follow_request: InboxRequestWithObject,
    fetched: Result<Actor, HydraError>,
) -> bool {
    match fetched {
        Err(_) => step matches FollowStep::Reply(InboxReply::BadActor),
        Ok(actor) => if follow_request.actor is None {
            step matches FollowStep::Reply(InboxReply::AcceptBuildError)
        } else {
            match url_host(actor.inbox@) {
                None => step matches FollowStep::Reply(InboxReply::AcknowledgingFailed),
                Some(instance) => {
                    &&& step matches FollowStep::SendAccept {
                        podcast_guid,
                        accept,
                        inbox_url,
                        follower,
                    }
                    &&& podcast_guid == pcid
                    &&& is_follow_accept(accept, follow_request, pcid)
                    &&& inbox_url@ == actor.inbox@
                    &&& follower@ == follower_row(pcid, actor, instance)
                },
            }
        },
    }
}

/// Goes on with a Follow once the profile of the follower was asked for.
///
/// Without the profile the Follow is refused. With it, the Accept is
/// built and left to be delivered to the inbox of the follower, together
/// with the row that will be stored for the follower. An inbox whose URL
/// names no host cannot be delivered to.
pub fn inbox_follow_fetched(
    podcast_guid: u64,
    follow: InboxRequestWithObject,
    fetched: Result<Actor, HydraError>,
) -> (step: FollowStep)
    ensures
        is_follow_step(step, podcast_guid, follow, fetched),
{
    let remote_actor = match fetched {
        Ok(remote_actor) => remote_actor,
        Err(_) => {
            return FollowStep::Reply(InboxReply::BadActor);
        },
    };
    let accept = match ap_build_follow_accept(follow, podcast_guid) {
        Ok(accept) => accept,
        Err(_) => {
            return FollowStep::Reply(InboxReply::AcceptBuildError);
        },
    };
    let instance = match get_host_from_url(remote_actor.inbox.clone()) {
        Some(instance) => instance,
        None => {
            return FollowStep::Reply(InboxReply::AcknowledgingFailed);
        },
    };
    let shared_inbox = match &remote_actor.endpoints {
        Some(endpoints) => endpoints.shared_inbox.clone(),
        None => remote_actor.inbox.clone(),
    };
    let inbox_url = remote_actor.inbox.clone();
    FollowStep::SendAccept {
        podcast_guid,
        accept,
        inbox_url,
        follower: FollowerRecord {
            pcid: podcast_guid,
            actor: remote_actor.id,
            instance,
            inbox: remote_actor.inbox,
            shared_inbox,
            status: String::from_str("active"),
        },
    }
}

/// Ends a Follow once the Accept was sent: where the follower's server
/// took it, the follower is stored; where it did not, nothing changes and
/// the Follow is refused.
pub fn inbox_follow_accepted(
    db: &mut Database,
    follower: FollowerRecord,
    sent: Result<String, HydraError>,
) -> (reply: InboxReply)
    ensures
        sent is Ok ==> reply == InboxReply::Accepted && final(db)@ == old(db)@.with_follower(
            follower@,
        ),
        sent is Err ==> reply == InboxReply::AcknowledgingFailed && final(db)@ == old(db)@,
{
    match sent {
        Ok(_) => {
            let _ = add_follower_to_db(db, follower);
            InboxReply::Accepted
        },
        Err(_) => InboxReply::AcknowledgingFailed,
    }
}

} // verus!
