//! The storage that the federation engine reads and writes: one table of
//! actors, one of followers and one of replies, held as rows in memory.
//!
//! A [`Database`] can only be made empty and changed by the functions of
//! this module, and each of them keeps what the storage promises: one row
//! for each actor, one for each pair of a podcast and a follower, one for
//! each reply. Where the rows are kept on disk is the affair of the
//! server: it reads them into a `Database` and writes them back.

use vstd::prelude::*;
use vstd::string::*;
use crate::query::{
    arrange, first_index, lemma_arrange_ordered, lemma_arrange_permutes, lemma_arrange_step,
    lemma_arranged_row, lemma_filter_pairwise, lemma_filter_source, lemma_filter_step,
    lemma_first_index, lemma_first_index_found, lemma_limit_ordered, lemma_slot,
    lemma_slot_found, limit, ordered, pairwise, place, ranks, slot,
};
use crate::text::{
    decimal, lemma_lex_less_irreflexive, lemma_lex_less_transitive, str_eq, str_less, text_less,
    u64_to_string,
};

verus! {

broadcast use vstd::string::group_string_axioms;

/// An error of the engine, carried as its message.
#[derive(Debug)]
pub struct HydraError(pub String);

impl HydraError {
    /// The message as it is shown: the prefix `Fatal error: ` and the text.
    pub fn to_string(&self) -> (shown: String)
        ensures
            shown@ == "Fatal error: "@ + self.0@,
    {
        let mut shown = String::from_str("Fatal error: ");
        shown.append(self.0.as_str());
        shown
    }
}

/// One podcast actor with its key pair and the last episode announced.
#[derive(Debug)]
pub struct ActorRecord {
    pub pcid: u64,
    pub guid: String,
    pub pem_private_key: String,
    pub pem_public_key: String,
    pub last_episode_guid: String,
}

/// The mathematical value of an [`ActorRecord`].
pub struct ActorRecordView {
    pub pcid: u64,
    pub guid: Seq<char>,
    pub pem_private_key: Seq<char>,
    pub pem_public_key: Seq<char>,
    pub last_episode_guid: Seq<char>,
}

impl View for ActorRecord {
    type V = ActorRecordView;

    open spec fn view(&self) -> ActorRecordView {
        ActorRecordView {
            pcid: self.pcid,
            guid: self.guid@,
            pem_private_key: self.pem_private_key@,
            pem_public_key: self.pem_public_key@,
            last_episode_guid: self.last_episode_guid@,
        }
    }
}

impl DeepView for ActorRecord {
    type V = ActorRecordView;

    open spec fn deep_view(&self) -> ActorRecordView {
        self@
    }
}

impl Clone for ActorRecord {
    fn clone(&self) -> (copy: Self)
        ensures
            copy == *self,
    {
        ActorRecord {
            pcid: self.pcid,
            guid: self.guid.clone(),
            pem_private_key: self.pem_private_key.clone(),
            pem_public_key: self.pem_public_key.clone(),
            last_episode_guid: self.last_episode_guid.clone(),
        }
    }
}

/// A remote actor that follows a podcast actor.
#[derive(Debug)]
pub struct FollowerRecord {
    pub pcid: u64,
    pub actor: String,
    pub instance: String,
    pub inbox: String,
    pub shared_inbox: String,
    pub status: String,
}

/// The mathematical value of a [`FollowerRecord`].
pub struct FollowerRecordView {
    pub pcid: u64,
    pub actor: Seq<char>,
    pub instance: Seq<char>,
    pub inbox: Seq<char>,
    pub shared_inbox: Seq<char>,
    pub status: Seq<char>,
}

impl View for FollowerRecord {
    type V = FollowerRecordView;

    open spec fn view(&self) -> FollowerRecordView {
        FollowerRecordView {
            pcid: self.pcid,
            actor: self.actor@,
            instance: self.instance@,
            inbox: self.inbox@,
            shared_inbox: self.shared_inbox@,
            status: self.status@,
        }
    }
}

impl DeepView for FollowerRecord {
    type V = FollowerRecordView;

    open spec fn deep_view(&self) -> FollowerRecordView {
        self@
    }
}

impl Clone for FollowerRecord {
    fn clone(&self) -> (copy: Self)
        ensures
            copy == *self,
    {
        FollowerRecord {
            pcid: self.pcid,
            actor: self.actor.clone(),
            instance: self.instance.clone(),
            inbox: self.inbox.clone(),
            shared_inbox: self.shared_inbox.clone(),
            status: self.status.clone(),
        }
    }
}

/// A reply that a remote actor made to an episode note.
#[derive(Debug)]
pub struct ReplyRecord {
    pub pcid: u64,
    pub statusid: String,
    pub objectid: String,
    pub objecttype: String,
    pub attributedto: String,
    pub content: String,
    pub sensitive: u64,
    pub published: String,
    pub received: u64,
    pub conversation: String,
}

/// The mathematical value of a [`ReplyRecord`].
pub struct ReplyRecordView {
    pub pcid: u64,
    pub statusid: Seq<char>,
    pub objectid: Seq<char>,
    pub objecttype: Seq<char>,
    pub attributedto: Seq<char>,
    pub content: Seq<char>,
    pub sensitive: u64,
    pub published: Seq<char>,
    pub received: u64,
    pub conversation: Seq<char>,
}

impl View for ReplyRecord {
    type V = ReplyRecordView;

    open spec fn view(&self) -> ReplyRecordView {
        ReplyRecordView {
            pcid: self.pcid,
            statusid: self.statusid@,
            objectid: self.objectid@,
            objecttype: self.objecttype@,
            attributedto: self.attributedto@,
            content: self.content@,
            sensitive: self.sensitive,
            published: self.published@,
            received: self.received,
            conversation: self.conversation@,
        }
    }
}

impl DeepView for ReplyRecord {
    type V = ReplyRecordView;

    open spec fn deep_view(&self) -> ReplyRecordView {
        self@
    }
}

impl Clone for ReplyRecord {
    fn clone(&self) -> (copy: Self)
        ensures
            copy == *self,
    {
        ReplyRecord {
            pcid: self.pcid,
            statusid: self.statusid.clone(),
            objectid: self.objectid.clone(),
            objecttype: self.objecttype.clone(),
            attributedto: self.attributedto.clone(),
            content: self.content.clone(),
            sensitive: self.sensitive,
            published: self.published.clone(),
            received: self.received,
            conversation: self.conversation.clone(),
        }
    }
}

/// The most rows that a listing hands out.
pub const LISTING_LIMIT: usize = 1000;

/// Holds of the actor rows of the podcast `pcid`.
pub open spec fn is_actor(pcid: u64) -> spec_fn(ActorRecordView) -> bool {
    |row: ActorRecordView| row.pcid == pcid
}

/// The order of the actors table: by podcast id, ascending.
pub open spec fn by_pcid() -> spec_fn(ActorRecordView, ActorRecordView) -> bool {
    |a: ActorRecordView, b: ActorRecordView| a.pcid < b.pcid
}

/// Holds of the follower rows of podcast `pcid`.
pub open spec fn follows(pcid: u64) -> spec_fn(FollowerRecordView) -> bool {
    |row: FollowerRecordView| row.pcid == pcid
}

/// Holds of the row by which `actor` follows podcast `pcid`.
pub open spec fn is_follower(pcid: u64, actor: Seq<char>) -> spec_fn(FollowerRecordView) -> bool {
    |row: FollowerRecordView| row.pcid == pcid && row.actor == actor
}

/// Holds of every follower row but the one by which `actor` follows `pcid`.
pub open spec fn is_other_follower(pcid: u64, actor: Seq<char>) -> spec_fn(
    FollowerRecordView,
) -> bool {
    |row: FollowerRecordView| !(row.pcid == pcid && row.actor == actor)
}

/// Two follower rows differ in the owner or in the remote actor.
pub open spec fn distinct_followers() -> spec_fn(FollowerRecordView, FollowerRecordView) -> bool {
    |a: FollowerRecordView, b: FollowerRecordView| !(a.pcid == b.pcid && a.actor == b.actor)
}

/// The order in which followers are listed: by instance, descending.
pub open spec fn by_instance_desc() -> spec_fn(FollowerRecordView, FollowerRecordView) -> bool {
    |a: FollowerRecordView, b: FollowerRecordView| text_less(b.instance, a.instance)
}

/// Holds of the reply with the object id `objectid`.
pub open spec fn is_reply(objectid: Seq<char>) -> spec_fn(ReplyRecordView) -> bool {
    |row: ReplyRecordView| row.objectid == objectid
}

/// Holds of every reply but the one with the object id `objectid`.
pub open spec fn is_other_reply(objectid: Seq<char>) -> spec_fn(ReplyRecordView) -> bool {
    |row: ReplyRecordView| row.objectid != objectid
}

/// Holds of the replies to episode `statusid` of podcast `pcid`.
pub open spec fn replies_to(pcid: u64, statusid: Seq<char>) -> spec_fn(ReplyRecordView) -> bool {
    |row: ReplyRecordView| row.pcid == pcid && row.statusid == statusid
}

/// Holds of the replies in the conversation `conversation`.
pub open spec fn in_conversation(conversation: Seq<char>) -> spec_fn(ReplyRecordView) -> bool {
    |row: ReplyRecordView| row.conversation == conversation
}

/// Two replies differ in their object id.
pub open spec fn distinct_replies() -> spec_fn(ReplyRecordView, ReplyRecordView) -> bool {
    |a: ReplyRecordView, b: ReplyRecordView| a.objectid != b.objectid
}

/// The order in which replies are listed: the latest received first.
pub open spec fn by_received_desc() -> spec_fn(ReplyRecordView, ReplyRecordView) -> bool {
    |a: ReplyRecordView, b: ReplyRecordView| a.received > b.received
}

/// The message of a failure that names one thing in square brackets.
pub open spec fn bracketed(lead: Seq<char>, name: Seq<char>) -> Seq<char> {
    lead + name + "]."@
}

/// The tables as mathematical sequences of rows.
pub struct DatabaseView {
    pub actors: Seq<ActorRecordView>,
    pub followers: Seq<FollowerRecordView>,
    pub replies: Seq<ReplyRecordView>,
}

impl DatabaseView {
    /// What the storage keeps true of its tables: the actors stand in the
    /// order of their ids, one row for each id; no two followers share an
    /// owner and a remote actor; no two replies share an object id.
    pub open spec fn wf(self) -> bool {
        &&& pairwise(self.actors, by_pcid())
        &&& pairwise(self.followers, distinct_followers())
        &&& pairwise(self.replies, distinct_replies())
    }

    /// Where the row of actor `pcid` stands, or the number of actors where
    /// it has none.
    pub open spec fn actor_index(self, pcid: u64) -> int {
        first_index(self.actors, is_actor(pcid))
    }

    /// Whether actor `pcid` has a row.
    pub open spec fn has_actor(self, pcid: u64) -> bool {
        self.actor_index(pcid) < self.actors.len()
    }

    /// The row of actor `pcid`, where it has one.
    pub open spec fn actor(self, pcid: u64) -> ActorRecordView
        recommends
            self.has_actor(pcid),
    {
        self.actors[self.actor_index(pcid)]
    }

    /// The tables after `row` joined the actors.
    pub open spec fn with_actor(self, row: ActorRecordView) -> DatabaseView {
        DatabaseView { actors: place(self.actors, row, by_pcid()), ..self }
    }

    /// The tables after the last announced episode of actor `pcid` was set
    /// to `guid`; unchanged where the actor has no row.
    pub open spec fn with_cursor(self, pcid: u64, guid: Seq<char>) -> DatabaseView {
        if self.has_actor(pcid) {
            DatabaseView {
                actors: self.actors.update(
                    self.actor_index(pcid),
                    ActorRecordView { last_episode_guid: guid, ..self.actor(pcid) },
                ),
                ..self
            }
        } else {
            self
        }
    }

    /// The actors as they are listed.
    pub open spec fn listed_actors(self) -> Seq<ActorRecordView> {
        limit(self.actors, LISTING_LIMIT as nat)
    }

    /// Where the row stands by which `actor` follows `pcid`, or the number
    /// of follower rows where there is none.
    pub open spec fn follower_index(self, pcid: u64, actor: Seq<char>) -> int {
        first_index(self.followers, is_follower(pcid, actor))
    }

    /// Whether `actor` follows `pcid`.
    pub open spec fn has_follower(self, pcid: u64, actor: Seq<char>) -> bool {
        self.follower_index(pcid, actor) < self.followers.len()
    }

    /// The tables after `row` was stored: it takes the place of the row
    /// with its owner and remote actor, or joins the table at its end.
    pub open spec fn with_follower(self, row: FollowerRecordView) -> DatabaseView {
        if self.has_follower(row.pcid, row.actor) {
            DatabaseView {
                followers: self.followers.update(self.follower_index(row.pcid, row.actor), row),
                ..self
            }
        } else {
            DatabaseView { followers: self.followers.push(row), ..self }
        }
    }

    /// The tables without the row by which `actor` follows `pcid`.
    pub open spec fn without_follower(self, pcid: u64, actor: Seq<char>) -> DatabaseView {
        DatabaseView { followers: self.followers.filter(is_other_follower(pcid, actor)), ..self }
    }

    /// The followers of `pcid` as they are listed.
    pub open spec fn followers_of(self, pcid: u64) -> Seq<FollowerRecordView> {
        limit(
            arrange(self.followers.filter(follows(pcid)), by_instance_desc()),
            LISTING_LIMIT as nat,
        )
    }

    /// Where the reply with the object id `objectid` stands, or the number
    /// of replies where there is none.
    pub open spec fn reply_index(self, objectid: Seq<char>) -> int {
        first_index(self.replies, is_reply(objectid))
    }

    /// Whether a reply with the object id `objectid` is stored.
    pub open spec fn has_reply(self, objectid: Seq<char>) -> bool {
        self.reply_index(objectid) < self.replies.len()
    }

    /// The tables after `row` joined the replies.
    pub open spec fn with_reply(self, row: ReplyRecordView) -> DatabaseView {
        DatabaseView { replies: self.replies.push(row), ..self }
    }

    /// The tables without the reply with the object id `objectid`.
    pub open spec fn without_reply(self, objectid: Seq<char>) -> DatabaseView {
        DatabaseView { replies: self.replies.filter(is_other_reply(objectid)), ..self }
    }

    /// The replies to episode `statusid` of podcast `pcid` as they are
    /// listed.
    pub open spec fn replies_of(self, pcid: u64, statusid: Seq<char>) -> Seq<ReplyRecordView> {
        limit(
            arrange(self.replies.filter(replies_to(pcid, statusid)), by_received_desc()),
            LISTING_LIMIT as nat,
        )
    }

    /// The replies in `conversation` as they are listed.
    pub open spec fn conversation_replies(self, conversation: Seq<char>) -> Seq<ReplyRecordView> {
        arrange(self.replies.filter(in_conversation(conversation)), by_received_desc())
    }
}

/// An actor that joins the table has a row afterwards, the one it joined
/// with.
pub proof fn lemma_with_actor(db: DatabaseView, row: ActorRecordView)
    requires
        !db.has_actor(row.pcid),
    ensures
        db.with_actor(row).has_actor(row.pcid),
        db.with_actor(row).actor(row.pcid) == row,
{
    let hit = is_actor(row.pcid);
    let at = slot(db.actors, row, by_pcid());
    lemma_slot(db.actors, row, by_pcid());
    lemma_first_index(db.actors, hit);
    let placed = db.actors.insert(at, row);
    assert forall|k: int| 0 <= k < at implies !hit(#[trigger] placed[k]) by {
        assert(placed[k] == db.actors[k]);
    }
    assert(hit(placed[at]));
    lemma_first_index_found(placed, hit, at);
}

/// Once the last announced episode of an actor is set, its row holds it.
pub proof fn lemma_with_cursor(db: DatabaseView, pcid: u64, guid: Seq<char>)
    requires
        db.has_actor(pcid),
    ensures
        db.with_cursor(pcid, guid).has_actor(pcid),
        db.with_cursor(pcid, guid).actor(pcid).last_episode_guid == guid,
        db.with_cursor(pcid, guid).followers == db.followers,
        db.with_cursor(pcid, guid).replies == db.replies,
{
    let hit = is_actor(pcid);
    let at = db.actor_index(pcid);
    lemma_first_index(db.actors, hit);
    let changed = db.with_cursor(pcid, guid).actors;
    assert forall|k: int| 0 <= k < at implies !hit(#[trigger] changed[k]) by {
        assert(changed[k] == db.actors[k]);
    }
    assert(hit(changed[at]));
    lemma_first_index_found(changed, hit, at);
}

/// Storing a follower twice leaves one row for it: after a follower was
/// stored, it has a row, and storing it again changes no other row and
/// not the number of rows.
pub proof fn lemma_follower_stored_once(
    db: DatabaseView,
    first: FollowerRecordView,
    second: FollowerRecordView,
)
    requires
        db.wf(),
        first.pcid == second.pcid,
        first.actor == second.actor,
    ensures
        db.with_follower(first).has_follower(first.pcid, first.actor),
        db.with_follower(first).with_follower(second).followers.len() == db.with_follower(
            first,
        ).followers.len(),
        db.with_follower(first).with_follower(second).followers.filter(
            is_follower(first.pcid, first.actor),
        ).len() == 1,
        db.with_follower(first).with_follower(first) == db.with_follower(first),
{
    let hit = is_follower(first.pcid, first.actor);
    lemma_first_index(db.followers, hit);
    let once = db.with_follower(first);
    let at = db.follower_index(first.pcid, first.actor);
    assert(hit(once.followers[at]));
    assert forall|k: int| 0 <= k < at implies !hit(#[trigger] once.followers[k]) by {
        assert(once.followers[k] == db.followers[k]);
    }
    lemma_first_index_found(once.followers, hit, at);
    let twice = once.with_follower(second);
    assert(twice.followers =~= once.followers.update(at, second));
    assert(once.with_follower(first).followers =~= once.followers);
    lemma_with_follower_wf(db, first);
    lemma_with_follower_wf(once, second);
    lemma_single_hit(twice.followers, hit, at);
}

/// Storing a follower keeps the tables well formed.
pub proof fn lemma_with_follower_wf(db: DatabaseView, row: FollowerRecordView)
    requires
        db.wf(),
    ensures
        db.with_follower(row).wf(),
{
    let hit = is_follower(row.pcid, row.actor);
    lemma_first_index(db.followers, hit);
    let stored = db.with_follower(row).followers;
    assert forall|i: int, j: int| 0 <= i < j < stored.len() implies distinct_followers()(
        stored[i],
        stored[j],
    ) by {
        if db.has_follower(row.pcid, row.actor) {
            assert(distinct_followers()(db.followers[i], db.followers[j]));
        } else if j < db.followers.len() {
            assert(distinct_followers()(db.followers[i], db.followers[j]));
        } else {
            assert(!hit(db.followers[i]));
        }
    }
}

/// Where `hit` holds of the row at `at` and of no other, the filter keeps
/// one row.
pub proof fn lemma_single_hit<T>(rows: Seq<T>, hit: spec_fn(T) -> bool, at: int)
    requires
        0 <= at < rows.len(),
        hit(rows[at]),
        forall|k: int| 0 <= k < rows.len() && k != at ==> !hit(#[trigger] rows[k]),
    ensures
        rows.filter(hit).len() == 1,
    decreases rows.len(),
{
    reveal(Seq::filter);
    let front = rows.drop_last();
    if at == rows.len() - 1 {
        lemma_no_hit(front, hit);
    } else {
        assert forall|k: int| 0 <= k < front.len() && k != at implies !hit(#[trigger] front[k]) by {
            assert(front[k] == rows[k]);
        }
        lemma_single_hit(front, hit, at);
    }
}

/// Where `hit` holds of no row, the filter keeps none.
pub proof fn lemma_no_hit<T>(rows: Seq<T>, hit: spec_fn(T) -> bool)
    requires
        forall|k: int| 0 <= k < rows.len() ==> !hit(#[trigger] rows[k]),
    ensures
        rows.filter(hit).len() == 0,
    decreases rows.len(),
{
    reveal(Seq::filter);
    if rows.len() > 0 {
        let front = rows.drop_last();
        assert forall|k: int| 0 <= k < front.len() implies !hit(#[trigger] front[k]) by {
            assert(front[k] == rows[k]);
        }
        lemma_no_hit(front, hit);
    }
}

/// Where `keep` holds of every row, the filter keeps them all.
pub proof fn lemma_all_kept<T>(rows: Seq<T>, keep: spec_fn(T) -> bool)
    requires
        forall|k: int| 0 <= k < rows.len() ==> keep(#[trigger] rows[k]),
    ensures
        rows.filter(keep) == rows,
    decreases rows.len(),
{
    reveal(Seq::filter);
    if rows.len() > 0 {
        let front = rows.drop_last();
        assert forall|k: int| 0 <= k < front.len() implies keep(#[trigger] front[k]) by {
            assert(front[k] == rows[k]);
        }
        lemma_all_kept(front, keep);
        assert(front.push(rows.last()) =~= rows);
    }
}

/// Removing a follower that has no row changes nothing.
pub proof fn lemma_remove_absent_follower(db: DatabaseView, pcid: u64, actor: Seq<char>)
    requires
        !db.has_follower(pcid, actor),
    ensures
        db.without_follower(pcid, actor) == db,
{
    lemma_first_index(db.followers, is_follower(pcid, actor));
    assert forall|k: int| 0 <= k < db.followers.len() implies is_other_follower(pcid, actor)(
        #[trigger] db.followers[k],
    ) by {
        assert(!is_follower(pcid, actor)(db.followers[k]));
    }
    lemma_all_kept(db.followers, is_other_follower(pcid, actor));
}

/// After a follower was removed it has no row, whether it had one or not.
pub proof fn lemma_removed_follower_is_absent(db: DatabaseView, pcid: u64, actor: Seq<char>)
    ensures
        !db.without_follower(pcid, actor).has_follower(pcid, actor),
{
    let rest = db.without_follower(pcid, actor).followers;
    lemma_first_index(rest, is_follower(pcid, actor));
    if rest.len() > 0 && first_index(rest, is_follower(pcid, actor)) < rest.len() {
        let at = first_index(rest, is_follower(pcid, actor));
        db.followers.lemma_filter_pred(is_other_follower(pcid, actor), at);
    }
}

/// The order of the listings is an order: byte strings and numbers rank.
pub proof fn lemma_listing_orders_rank()
    ensures
        ranks(by_instance_desc()),
        ranks(by_received_desc()),
        ranks(by_pcid()),
{
    let before = by_instance_desc();
    assert forall|a: FollowerRecordView| !#[trigger] before(a, a) by {
        lemma_lex_less_irreflexive(vstd::utf8::encode_utf8(a.instance));
    }
    assert forall|a: FollowerRecordView, b: FollowerRecordView, c: FollowerRecordView|
        #[trigger] before(a, b) && !#[trigger] before(c, b) implies !before(c, a) by {
        if before(c, a) {
            lemma_lex_less_transitive(
                vstd::utf8::encode_utf8(b.instance),
                vstd::utf8::encode_utf8(a.instance),
                vstd::utf8::encode_utf8(c.instance),
            );
        }
    }
}

/// The followers of a podcast are listed by instance, from the last in
/// byte order to the first; each listed row is a follower of the podcast
/// and stands in the table; there are at most a thousand.
pub proof fn lemma_followers_listing(db: DatabaseView, pcid: u64)
    ensures
        ordered(db.followers_of(pcid), by_instance_desc()),
        db.followers_of(pcid).len() <= LISTING_LIMIT,
        forall|i: int|
            0 <= i < db.followers_of(pcid).len() ==> (#[trigger] db.followers_of(pcid)[i]).pcid
                == pcid && db.followers.contains(db.followers_of(pcid)[i]),
{
    let kept = db.followers.filter(follows(pcid));
    let arranged = arrange(kept, by_instance_desc());
    lemma_listing_orders_rank();
    lemma_arrange_ordered(kept, by_instance_desc());
    lemma_limit_ordered(arranged, by_instance_desc(), LISTING_LIMIT as nat);
    assert forall|i: int| 0 <= i < db.followers_of(pcid).len() implies (#[trigger] db.followers_of(
        pcid,
    )[i]).pcid == pcid && db.followers.contains(db.followers_of(pcid)[i]) by {
        let k = lemma_arranged_row(kept, by_instance_desc(), i);
        db.followers.lemma_filter_pred(follows(pcid), k);
        let from = lemma_filter_source(db.followers, follows(pcid), k);
        assert(db.followers[from] == db.followers_of(pcid)[i]);
    }
}

/// The replies of a conversation are listed with the latest received
/// first; each listed row is a reply of the conversation and stands in the
/// table, and each reply of the conversation is listed.
pub proof fn lemma_conversation_listing(db: DatabaseView, conversation: Seq<char>)
    ensures
        ordered(db.conversation_replies(conversation), by_received_desc()),
        db.conversation_replies(conversation).len() == db.replies.filter(
            in_conversation(conversation),
        ).len(),
        forall|i: int|
            0 <= i < db.conversation_replies(conversation).len() ==> (
            #[trigger] db.conversation_replies(conversation)[i]).conversation == conversation
                && db.replies.contains(db.conversation_replies(conversation)[i]),
{
    let keep = in_conversation(conversation);
    let kept = db.replies.filter(keep);
    lemma_listing_orders_rank();
    lemma_arrange_ordered(kept, by_received_desc());
    lemma_arrange_permutes(kept, by_received_desc());
    assert forall|i: int| 0 <= i < db.conversation_replies(conversation).len() implies (
    #[trigger] db.conversation_replies(conversation)[i]).conversation == conversation
        && db.replies.contains(db.conversation_replies(conversation)[i]) by {
        let k = lemma_arranged_row(kept, by_received_desc(), i);
        db.replies.lemma_filter_pred(keep, k);
        let from = lemma_filter_source(db.replies, keep, k);
        assert(db.replies[from] == db.conversation_replies(conversation)[i]);
    }
}

/// The replies to an episode are listed with the latest received first;
/// each listed row is a reply to the episode; there are at most a
/// thousand.
pub proof fn lemma_replies_listing(db: DatabaseView, pcid: u64, statusid: Seq<char>)
    ensures
        ordered(db.replies_of(pcid, statusid), by_received_desc()),
        db.replies_of(pcid, statusid).len() <= LISTING_LIMIT,
        forall|i: int|
            0 <= i < db.replies_of(pcid, statusid).len() ==> (#[trigger] db.replies_of(
                pcid,
                statusid,
            )[i]).pcid == pcid && db.replies_of(pcid, statusid)[i].statusid == statusid,
{
    let keep = replies_to(pcid, statusid);
    let kept = db.replies.filter(keep);
    let arranged = arrange(kept, by_received_desc());
    lemma_listing_orders_rank();
    lemma_arrange_ordered(kept, by_received_desc());
    lemma_limit_ordered(arranged, by_received_desc(), LISTING_LIMIT as nat);
    assert forall|i: int| 0 <= i < db.replies_of(pcid, statusid).len() implies (
    #[trigger] db.replies_of(pcid, statusid)[i]).pcid == pcid && db.replies_of(
        pcid,
        statusid,
    )[i].statusid == statusid by {
        let k = lemma_arranged_row(kept, by_received_desc(), i);
        db.replies.lemma_filter_pred(keep, k);
    }
}

/// The tables of the engine.
pub struct Database {
    actors: Vec<ActorRecord>,
    followers: Vec<FollowerRecord>,
    replies: Vec<ReplyRecord>,
}

impl View for Database {
    type V = DatabaseView;

    closed spec fn view(&self) -> DatabaseView {
        DatabaseView {
            actors: self.actors.deep_view(),
            followers: self.followers.deep_view(),
            replies: self.replies.deep_view(),
        }
    }
}

impl Database {
    #[verifier::type_invariant]
    spec fn valid(self) -> bool {
        self@.wf()
    }

    /// A database without rows.
    pub fn new() -> (db: Database)
        ensures
            db@.actors.len() == 0,
            db@.followers.len() == 0,
            db@.replies.len() == 0,
            db@.wf(),
    {
        Database { actors: Vec::new(), followers: Vec::new(), replies: Vec::new() }
    }

    /// A database with the given rows, as they were read from where they
    /// are kept. Rows that break what the storage promises make no
    /// database: actors out of the order of their ids or two with one id,
    /// two rows for one follower of one podcast, two replies with one
    /// object id.
    pub fn from_rows(
        actors: Vec<ActorRecord>,
        followers: Vec<FollowerRecord>,
        replies: Vec<ReplyRecord>,
    ) -> (made: Option<Database>)
        ensures
            made is Some <==> rows_view(actors, followers, replies).wf(),
            made matches Some(db) ==> db@ == rows_view(actors, followers, replies),
    {
        if !actors_in_order(&actors) || !followers_distinct(&followers) || !replies_distinct(
            &replies,
        ) {
            return None;
        }
        Some(Database { actors, followers, replies })
    }

    /// The tables of a database hold what the storage keeps true of them.
    /// The call does nothing when it runs: it hands that fact to a proof.
    pub fn is_well_formed(&self)
        ensures
            self@.wf(),
    {
        proof {
            use_type_invariant(self);
        }
    }

    /// All actor rows, in the order of the table.
    pub fn actors(&self) -> (rows: Vec<ActorRecord>)
        ensures
            rows.deep_view() == self@.actors,
    {
        let mut rows: Vec<ActorRecord> = Vec::new();
        copy_actors(&self.actors, 0, self.actors.len(), &mut rows);
        assert(rows.deep_view() =~= self.actors.deep_view());
        rows
    }

    /// All follower rows, in the order of the table.
    pub fn followers(&self) -> (rows: Vec<FollowerRecord>)
        ensures
            rows.deep_view() == self@.followers,
    {
        let mut rows: Vec<FollowerRecord> = Vec::new();
        copy_followers(&self.followers, 0, self.followers.len(), &mut rows);
        assert(rows.deep_view() =~= self.followers.deep_view());
        rows
    }

    /// All reply rows, in the order of the table.
    pub fn replies(&self) -> (rows: Vec<ReplyRecord>)
        ensures
            rows.deep_view() == self@.replies,
    {
        let mut rows: Vec<ReplyRecord> = Vec::new();
        copy_replies(&self.replies, 0, self.replies.len(), &mut rows);
        assert(rows.deep_view() =~= self.replies.deep_view());
        rows
    }
}

/// The tables that hold the given rows.
pub open spec fn rows_view(
    actors: Vec<ActorRecord>,
    followers: Vec<FollowerRecord>,
    replies: Vec<ReplyRecord>,
) -> DatabaseView {
    DatabaseView {
        actors: actors.deep_view(),
        followers: followers.deep_view(),
        replies: replies.deep_view(),
    }
}

/// Whether the actors stand in the order of their ids, no id twice.
fn actors_in_order(rows: &Vec<ActorRecord>) -> (ordered: bool)
    ensures
        ordered == pairwise(rows.deep_view(), by_pcid()),
{
    let ghost all = rows.deep_view();
    let mut j: usize = 1;
    while j < rows.len()
        invariant
            1 <= j,
            all == rows.deep_view(),
            forall|a: int, b: int| 0 <= a < b < j && b < all.len() ==> all[a].pcid < all[b].pcid,
        decreases rows.len() - j,
    {
        if !(rows[j - 1].pcid < rows[j].pcid) {
            assert(!by_pcid()(all[j - 1], all[j as int]));
            return false;
        }
        assert forall|a: int, b: int| 0 <= a < b < j + 1 && b < all.len() implies all[a].pcid
            < all[b].pcid by {
            if b == j && a < j - 1 {
                assert(all[a].pcid < all[j - 1].pcid);
            }
        }
        j += 1;
    }
    assert forall|a: int, b: int| 0 <= a < b < all.len() implies by_pcid()(all[a], all[b]) by {}
    true
}

/// Whether no two rows tell of one follower of one podcast.
fn followers_distinct(rows: &Vec<FollowerRecord>) -> (distinct: bool)
    ensures
        distinct == pairwise(rows.deep_view(), distinct_followers()),
{
    let ghost all = rows.deep_view();
    let mut j: usize = 0;
    while j < rows.len()
        invariant
            j <= rows.len(),
            all == rows.deep_view(),
            forall|a: int, b: int| 0 <= a < b < j ==> distinct_followers()(all[a], all[b]),
        decreases rows.len() - j,
    {
        let mut i: usize = 0;
        while i < j
            invariant
                i <= j < rows.len(),
                all == rows.deep_view(),
                forall|a: int| 0 <= a < i ==> distinct_followers()(all[a], all[j as int]),
            decreases j - i,
        {
            if rows[i].pcid == rows[j].pcid && str_eq(
                rows[i].actor.as_str(),
                rows[j].actor.as_str(),
            ) {
                assert(!distinct_followers()(all[i as int], all[j as int]));
                return false;
            }
            i += 1;
        }
        j += 1;
    }
    true
}

/// Whether no two replies share an object id.
fn replies_distinct(rows: &Vec<ReplyRecord>) -> (distinct: bool)
    ensures
        distinct == pairwise(rows.deep_view(), distinct_replies()),
{
    let ghost all = rows.deep_view();
    let mut j: usize = 0;
    while j < rows.len()
        invariant
            j <= rows.len(),
            all == rows.deep_view(),
            forall|a: int, b: int| 0 <= a < b < j ==> distinct_replies()(all[a], all[b]),
        decreases rows.len() - j,
    {
        let mut i: usize = 0;
        while i < j
            invariant
                i <= j < rows.len(),
                all == rows.deep_view(),
                forall|a: int| 0 <= a < i ==> distinct_replies()(all[a], all[j as int]),
            decreases j - i,
        {
            if str_eq(rows[i].objectid.as_str(), rows[j].objectid.as_str()) {
                assert(!distinct_replies()(all[i as int], all[j as int]));
                return false;
            }
            i += 1;
        }
        j += 1;
    }
    true
}

/// Copies the rows `from..to` of `rows` to the end of `into`.
fn copy_actors(rows: &Vec<ActorRecord>, from: usize, to: usize, into: &mut Vec<ActorRecord>)
    requires
        from <= to <= rows.len(),
    ensures
        final(into).deep_view() == old(into).deep_view() + rows.deep_view().subrange(
            from as int,
            to as int,
        ),
{
    let ghost start = into.deep_view();
    let ghost all = rows.deep_view();
    let mut i: usize = from;
    assert(start + all.subrange(from as int, from as int) =~= start);
    while i < to
        invariant
            from <= i <= to <= rows.len(),
            all == rows.deep_view(),
            into.deep_view() == start + all.subrange(from as int, i as int),
        decreases to - i,
    {
        let ghost copied = into.deep_view();
        into.push(rows[i].clone());
        assert(into.deep_view() =~= copied.push(all[i as int]));
        assert(start + all.subrange(from as int, i + 1) =~= copied.push(all[i as int]));
        i += 1;
    }
}

/// Copies the rows `from..to` of `rows` to the end of `into`.
fn copy_followers(rows: &Vec<FollowerRecord>, from: usize, to: usize, into: &mut Vec<FollowerRecord>)
    requires
        from <= to <= rows.len(),
    ensures
        final(into).deep_view() == old(into).deep_view() + rows.deep_view().subrange(
            from as int,
            to as int,
        ),
{
    let ghost start = into.deep_view();
    let ghost all = rows.deep_view();
    let mut i: usize = from;
    assert(start + all.subrange(from as int, from as int) =~= start);
    while i < to
        invariant
            from <= i <= to <= rows.len(),
            all == rows.deep_view(),
            into.deep_view() == start + all.subrange(from as int, i as int),
        decreases to - i,
    {
        let ghost copied = into.deep_view();
        into.push(rows[i].clone());
        assert(into.deep_view() =~= copied.push(all[i as int]));
        assert(start + all.subrange(from as int, i + 1) =~= copied.push(all[i as int]));
        i += 1;
    }
}

/// Copies the rows `from..to` of `rows` to the end of `into`.
fn copy_replies(rows: &Vec<ReplyRecord>, from: usize, to: usize, into: &mut Vec<ReplyRecord>)
    requires
        from <= to <= rows.len(),
    ensures
        final(into).deep_view() == old(into).deep_view() + rows.deep_view().subrange(
            from as int,
            to as int,
        ),
{
    let ghost start = into.deep_view();
    let ghost all = rows.deep_view();
    let mut i: usize = from;
    assert(start + all.subrange(from as int, from as int) =~= start);
    while i < to
        invariant
            from <= i <= to <= rows.len(),
            all == rows.deep_view(),
            into.deep_view() == start + all.subrange(from as int, i as int),
        decreases to - i,
    {
        let ghost copied = into.deep_view();
        into.push(rows[i].clone());
        assert(into.deep_view() =~= copied.push(all[i as int]));
        assert(start + all.subrange(from as int, i + 1) =~= copied.push(all[i as int]));
        i += 1;
    }
}

/// Builds the message `lead`, `name`, `].`.
fn bracketed_message(lead: &str, name: &str) -> (message: String)
    ensures
        message@ == bracketed(lead@, name@),
{
    let mut message = String::from_str(lead);
    message.append(name);
    message.append("].");
    message
}

/// Adds an actor. An id that already has a row is refused and the tables
/// stay as they were.
pub fn add_actor_to_db(db: &mut Database, actor: ActorRecord) -> (added: Result<bool, HydraError>)
    ensures
        final(db)@.wf(),
        old(db)@.has_actor(actor.pcid) ==> final(db)@ == old(db)@ && added is Err
            && added->Err_0.0@ == bracketed(
            "Failed to add actor: ["@,
            decimal(actor.pcid as nat),
        ),
        !old(db)@.has_actor(actor.pcid) ==> final(db)@ == old(db)@.with_actor(actor@) && added
            == Ok::<bool, HydraError>(true),
{
    proof {
        use_type_invariant(&*db);
    }
    let mut at: usize = 0;
    while at < db.actors.len() && db.actors[at].pcid < actor.pcid
        invariant
            at <= db.actors.len(),
            forall|k: int| 0 <= k < at ==> db.actors[k].pcid < actor.pcid,
        decreases db.actors.len() - at,
    {
        at += 1;
    }
    let ghost rows = db@.actors;
    proof {
        assert forall|k: int| 0 <= k < at implies !is_actor(actor.pcid)(#[trigger] rows[k]) by {}
    }
    if at < db.actors.len() && db.actors[at].pcid == actor.pcid {
        proof {
            lemma_first_index_found(rows, is_actor(actor.pcid), at as int);
        }
        let number = u64_to_string(actor.pcid);
        return Err(HydraError(bracketed_message("Failed to add actor: [", number.as_str())));
    }
    proof {
        assert forall|k: int| at <= k < rows.len() implies !is_actor(actor.pcid)(
            #[trigger] rows[k],
        ) by {
            if k > at {
                assert(by_pcid()(rows[at as int], rows[k]));
            }
        }
        lemma_first_index_found(rows, is_actor(actor.pcid), rows.len() as int);
        assert forall|k: int| 0 <= k < at implies !by_pcid()(actor@, #[trigger] rows[k]) by {}
        lemma_slot_found(rows, actor@, by_pcid(), at as int);
    }
    let ghost placed = rows.insert(at as int, actor@);
    let mut actors: Vec<ActorRecord> = Vec::new();
    copy_actors(&db.actors, 0, at, &mut actors);
    let ghost front = actors.deep_view();
    actors.push(actor);
    assert(actors.deep_view() =~= front.push(actor@));
    copy_actors(&db.actors, at, db.actors.len(), &mut actors);
    proof {
        assert(actors.deep_view() =~= placed);
        assert forall|i: int, j: int| 0 <= i < j < placed.len() implies by_pcid()(
            placed[i],
            placed[j],
        ) by {
            if j < at {
                assert(by_pcid()(rows[i], rows[j]));
            } else if j == at {
                assert(placed[i] == rows[i]);
            } else if i < at {
                assert(placed[j] == rows[j - 1]);
                assert(by_pcid()(rows[i], rows[j - 1]));
            } else if i == at {
                assert(placed[j] == rows[j - 1]);
                if j - 1 > at {
                    assert(by_pcid()(rows[at as int], rows[j - 1]));
                }
            } else {
                assert(placed[i] == rows[i - 1] && placed[j] == rows[j - 1]);
                assert(by_pcid()(rows[i - 1], rows[j - 1]));
            }
        }
    }
    db.actors = actors;
    Ok(true)
}

/// Where the row of actor `pcid` stands in the table, if it has one.
fn find_actor(db: &Database, pcid: u64) -> (at: usize)
    ensures
        at == db@.actor_index(pcid),
        at <= db.actors.len(),
{
    let mut at: usize = 0;
    while at < db.actors.len() && db.actors[at].pcid != pcid
        invariant
            at <= db.actors.len(),
            forall|k: int| 0 <= k < at ==> db.actors[k].pcid != pcid,
        decreases db.actors.len() - at,
    {
        at += 1;
    }
    proof {
        let rows = db@.actors;
        assert forall|k: int| 0 <= k < at implies !is_actor(pcid)(#[trigger] rows[k]) by {}
        lemma_first_index_found(rows, is_actor(pcid), at as int);
    }
    at
}

/// Sets the last announced episode of actor `pcid`. Where the actor has no
/// row nothing changes; the call succeeds either way.
pub fn update_actor_last_episode_guid_in_db(
    db: &mut Database,
    pcid: u64,
    episode_guid: String,
) -> (updated: Result<bool, HydraError>)
    ensures
        final(db)@.wf(),
        final(db)@ == old(db)@.with_cursor(pcid, episode_guid@),
        updated == Ok::<bool, HydraError>(true),
{
    proof {
        use_type_invariant(&*db);
    }
    let at = find_actor(db, pcid);
    if at < db.actors.len() {
        let ghost rows = db@.actors;
        let row = ActorRecord {
            pcid: db.actors[at].pcid,
            guid: db.actors[at].guid.clone(),
            pem_private_key: db.actors[at].pem_private_key.clone(),
            pem_public_key: db.actors[at].pem_public_key.clone(),
            last_episode_guid: episode_guid,
        };
        let ghost changed = rows.update(at as int, row@);
        let mut actors: Vec<ActorRecord> = Vec::new();
        copy_actors(&db.actors, 0, at, &mut actors);
        let ghost front = actors.deep_view();
        actors.push(row);
        assert(actors.deep_view() =~= front.push(row@));
        copy_actors(&db.actors, at + 1, db.actors.len(), &mut actors);
        proof {
            lemma_first_index(rows, is_actor(pcid));
            assert(actors.deep_view() =~= changed);
            assert forall|i: int, j: int| 0 <= i < j < changed.len() implies by_pcid()(
                changed[i],
                changed[j],
            ) by {
                assert(by_pcid()(rows[i], rows[j]));
            }
        }
        db.actors = actors;
    }
    Ok(true)
}

/// The row of actor `pcid`; an error where it has none.
pub fn get_actor_from_db(db: &Database, pcid: u64) -> (found: Result<ActorRecord, HydraError>)
    ensures
        db@.has_actor(pcid) ==> found is Ok && found->Ok_0@ == db@.actor(pcid),
        !db@.has_actor(pcid) ==> found is Err && found->Err_0.0@ == bracketed(
            "Failed to get actor: ["@,
            decimal(pcid as nat),
        ),
{
    let at = find_actor(db, pcid);
    if at < db.actors.len() {
        Ok(db.actors[at].clone())
    } else {
        let number = u64_to_string(pcid);
        Err(HydraError(bracketed_message("Failed to get actor: [", number.as_str())))
    }
}

/// The actors in the order of their ids, at most [`LISTING_LIMIT`] of them;
/// an error where there is none.
pub fn get_actors_from_db(db: &Database) -> (listed: Result<Vec<ActorRecord>, HydraError>)
    ensures
        db@.actors.len() > 0 ==> listed is Ok && listed->Ok_0.deep_view()
            == db@.listed_actors(),
        db@.actors.len() == 0 ==> listed is Err && listed->Err_0.0@
            == "Failed to get any actors."@,
{
    if db.actors.len() == 0 {
        return Err(HydraError(String::from_str("Failed to get any actors.")));
    }
    let mut rows: Vec<ActorRecord> = Vec::new();
    let mut i: usize = 0;
    while i < db.actors.len() && i < LISTING_LIMIT
        invariant
            i <= db.actors.len(),
            i <= LISTING_LIMIT,
            rows.deep_view() == db.actors.deep_view().take(i as int),
        decreases db.actors.len() - i,
    {
        let ghost copied = rows.deep_view();
        rows.push(db.actors[i].clone());
        assert(rows.deep_view() =~= copied.push(db.actors[i as int]@));
        assert(db.actors.deep_view().take(i + 1) =~= copied.push(db.actors[i as int]@));
        i += 1;
    }
    assert(db.actors.deep_view().take(db.actors.len() as int) =~= db.actors.deep_view());
    Ok(rows)
}

/// Where the row stands by which `actor` follows `pcid`, if there is one.
fn find_follower(db: &Database, pcid: u64, actor: &str) -> (at: usize)
    ensures
        at == db@.follower_index(pcid, actor@),
        at <= db.followers.len(),
{
    let mut at: usize = 0;
    while at < db.followers.len() && !(db.followers[at].pcid == pcid && str_eq(
        db.followers[at].actor.as_str(),
        actor,
    ))
        invariant
            at <= db.followers.len(),
            forall|k: int|
                0 <= k < at ==> !(db.followers[k].pcid == pcid && db.followers[k].actor@
                    == actor@),
        decreases db.followers.len() - at,
    {
        at += 1;
    }
    proof {
        let rows = db@.followers;
        assert forall|k: int| 0 <= k < at implies !is_follower(pcid, actor@)(
            #[trigger] rows[k],
        ) by {}
        lemma_first_index_found(rows, is_follower(pcid, actor@), at as int);
    }
    at
}

/// Stores a follower. A row with the same owner and remote actor is
/// replaced, so that storing a follower twice leaves one row.
pub fn add_follower_to_db(db: &mut Database, follower: FollowerRecord) -> (added: Result<
    bool,
    HydraError,
>)
    ensures
        final(db)@.wf(),
        final(db)@ == old(db)@.with_follower(follower@),
        added == Ok::<bool, HydraError>(true),
{
    proof {
        use_type_invariant(&*db);
    }
    let at = find_follower(db, follower.pcid, follower.actor.as_str());
    let ghost stored = db@.with_follower(follower@);
    proof {
        lemma_first_index(db@.followers, is_follower(follower.pcid, follower.actor@));
        lemma_with_follower_wf(db@, follower@);
    }
    let mut followers: Vec<FollowerRecord> = Vec::new();
    copy_followers(&db.followers, 0, at, &mut followers);
    let ghost front = followers.deep_view();
    followers.push(follower);
    assert(followers.deep_view() =~= front.push(follower@));
    if at < db.followers.len() {
        copy_followers(&db.followers, at + 1, db.followers.len(), &mut followers);
    }
    assert(followers.deep_view() =~= stored.followers);
    db.followers = followers;
    Ok(true)
}

/// Removes the row by which `follower.actor` follows `follower.pcid`; the
/// other fields of `follower` are not read. Where there is no such row
/// nothing changes; the call succeeds either way.
pub fn remove_follower_from_db(db: &mut Database, follower: FollowerRecord) -> (removed: Result<
    bool,
    HydraError,
>)
    ensures
        final(db)@.wf(),
        final(db)@ == old(db)@.without_follower(follower.pcid, follower.actor@),
        removed == Ok::<bool, HydraError>(true),
{
    proof {
        use_type_invariant(&*db);
    }
    let ghost rows = db@.followers;
    let ghost keep = is_other_follower(follower.pcid, follower.actor@);
    let mut kept: Vec<FollowerRecord> = Vec::new();
    let mut i: usize = 0;
    assert(rows.take(0).filter(keep) =~= Seq::empty()) by {
        reveal(Seq::filter);
    }
    while i < db.followers.len()
        invariant
            i <= db.followers.len(),
            rows == db.followers.deep_view(),
            keep == is_other_follower(follower.pcid, follower.actor@),
            kept.deep_view() == rows.take(i as int).filter(keep),
        decreases db.followers.len() - i,
    {
        proof {
            lemma_filter_step(rows, keep, i as int);
        }
        if !(db.followers[i].pcid == follower.pcid && str_eq(
            db.followers[i].actor.as_str(),
            follower.actor.as_str(),
        )) {
            kept.push(db.followers[i].clone());
            assert(kept.deep_view() =~= rows.take(i as int).filter(keep).push(rows[i as int]));
        }
        i += 1;
    }
    proof {
        assert(rows.take(rows.len() as int) =~= rows);
        lemma_filter_pairwise(rows, keep, distinct_followers());
    }
    db.followers = kept;
    Ok(true)
}

/// The followers of `pcid`, ordered by instance from the last in byte order
/// to the first, followers of one instance in the order of the table; at
/// most [`LISTING_LIMIT`] of them.
pub fn get_followers_from_db(db: &Database, pcid: u64) -> (listed: Result<
    Vec<FollowerRecord>,
    HydraError,
>)
    ensures
        listed is Ok,
        listed->Ok_0.deep_view() == db@.followers_of(pcid),
{
    let ghost rows = db@.followers;
    let ghost keep = follows(pcid);
    let ghost before = by_instance_desc();
    let mut sorted: Vec<FollowerRecord> = Vec::new();
    let mut i: usize = 0;
    assert(rows.take(0).filter(keep) =~= Seq::empty()) by {
        reveal(Seq::filter);
    }
    while i < db.followers.len()
        invariant
            i <= db.followers.len(),
            rows == db.followers.deep_view(),
            keep == follows(pcid),
            before == by_instance_desc(),
            sorted.deep_view() == arrange(rows.take(i as int).filter(keep), before),
        decreases db.followers.len() - i,
    {
        proof {
            lemma_filter_step(rows, keep, i as int);
        }
        if db.followers[i].pcid == pcid {
            let ghost earlier = sorted.deep_view();
            let mut at: usize = 0;
            while at < sorted.len() && !str_less(
                sorted[at].instance.as_str(),
                db.followers[i].instance.as_str(),
            )
                invariant
                    at <= sorted.len(),
                    i < db.followers.len(),
                    earlier == sorted.deep_view(),
                    rows == db.followers.deep_view(),
                    before == by_instance_desc(),
                    forall|k: int| 0 <= k < at ==> !before(rows[i as int], #[trigger] earlier[k]),
                decreases sorted.len() - at,
            {
                at += 1;
            }
            proof {
                lemma_slot_found(earlier, rows[i as int], before, at as int);
                lemma_arrange_step(rows.take(i as int).filter(keep), rows[i as int], before);
            }
            sorted.insert(at, db.followers[i].clone());
            assert(sorted.deep_view() =~= earlier.insert(at as int, rows[i as int]));
        }
        i += 1;
    }
    assert(rows.take(rows.len() as int) =~= rows);
    let ghost full = sorted.deep_view();
    sorted.truncate(LISTING_LIMIT);
    assert(sorted.deep_view() =~= limit(full, LISTING_LIMIT as nat));
    Ok(sorted)
}

/// Where the reply with the object id `objectid` stands, if it is stored.
fn find_reply(db: &Database, objectid: &str) -> (at: usize)
    ensures
        at == db@.reply_index(objectid@),
        at <= db.replies.len(),
{
    let mut at: usize = 0;
    while at < db.replies.len() && !str_eq(db.replies[at].objectid.as_str(), objectid)
        invariant
            at <= db.replies.len(),
            forall|k: int| 0 <= k < at ==> db.replies[k].objectid@ != objectid@,
        decreases db.replies.len() - at,
    {
        at += 1;
    }
    proof {
        let rows = db@.replies;
        assert forall|k: int| 0 <= k < at implies !is_reply(objectid@)(#[trigger] rows[k]) by {}
        lemma_first_index_found(rows, is_reply(objectid@), at as int);
    }
    at
}

/// Stores a reply. An object id that is already stored is refused and the
/// tables stay as they were: a reply is stored at most once.
pub fn add_reply_to_db(db: &mut Database, reply: ReplyRecord) -> (added: Result<bool, HydraError>)
    ensures
        final(db)@.wf(),
        old(db)@.has_reply(reply.objectid@) ==> final(db)@ == old(db)@ && added is Err
            && added->Err_0.0@ == bracketed("Failed to add reply: ["@, reply.objectid@),
        !old(db)@.has_reply(reply.objectid@) ==> final(db)@ == old(db)@.with_reply(reply@)
            && added == Ok::<bool, HydraError>(true),
{
    proof {
        use_type_invariant(&*db);
    }
    let at = find_reply(db, reply.objectid.as_str());
    if at < db.replies.len() {
        return Err(
            HydraError(bracketed_message("Failed to add reply: [", reply.objectid.as_str())),
        );
    }
    let ghost rows = db@.replies;
    let ghost grown = rows.push(reply@);
    proof {
        lemma_first_index(rows, is_reply(reply.objectid@));
    }
    let mut replies: Vec<ReplyRecord> = Vec::new();
    copy_replies(&db.replies, 0, db.replies.len(), &mut replies);
    let ghost front = replies.deep_view();
    replies.push(reply);
    proof {
        assert(replies.deep_view() =~= front.push(reply@));
        assert(replies.deep_view() =~= grown);
        assert forall|i: int, j: int| 0 <= i < j < grown.len() implies distinct_replies()(
            grown[i],
            grown[j],
        ) by {
            if j < rows.len() {
                assert(distinct_replies()(rows[i], rows[j]));
            } else {
                assert(!is_reply(reply.objectid@)(rows[i]));
            }
        }
    }
    db.replies = replies;
    Ok(true)
}

/// Removes the reply with the object id of `reply`; the other fields of
/// `reply` are not read. Where no such reply is stored nothing changes;
/// the call succeeds either way.
pub fn remove_reply_from_db(db: &mut Database, reply: ReplyRecord) -> (removed: Result<
    bool,
    HydraError,
>)
    ensures
        final(db)@.wf(),
        final(db)@ == old(db)@.without_reply(reply.objectid@),
        removed == Ok::<bool, HydraError>(true),
{
    proof {
        use_type_invariant(&*db);
    }
    let ghost rows = db@.replies;
    let ghost keep = is_other_reply(reply.objectid@);
    let mut kept: Vec<ReplyRecord> = Vec::new();
    let mut i: usize = 0;
    assert(rows.take(0).filter(keep) =~= Seq::empty()) by {
        reveal(Seq::filter);
    }
    while i < db.replies.len()
        invariant
            i <= db.replies.len(),
            rows == db.replies.deep_view(),
            keep == is_other_reply(reply.objectid@),
            kept.deep_view() == rows.take(i as int).filter(keep),
        decreases db.replies.len() - i,
    {
        proof {
            lemma_filter_step(rows, keep, i as int);
        }
        if !str_eq(db.replies[i].objectid.as_str(), reply.objectid.as_str()) {
            kept.push(db.replies[i].clone());
            assert(kept.deep_view() =~= rows.take(i as int).filter(keep).push(rows[i as int]));
        }
        i += 1;
    }
    proof {
        assert(rows.take(rows.len() as int) =~= rows);
        lemma_filter_pairwise(rows, keep, distinct_replies());
    }
    db.replies = kept;
    Ok(true)
}

/// The rows of `table` that `keep` holds of, the latest received first and
/// replies received at one time in the order of the table.
fn replies_where(table: &Vec<ReplyRecord>, by_episode: bool, pcid: u64, text: &str) -> (sorted:
    Vec<ReplyRecord>)
    ensures
        sorted.deep_view() == arrange(
            table.deep_view().filter(
                if by_episode {
                    replies_to(pcid, text@)
                } else {
                    in_conversation(text@)
                },
            ),
            by_received_desc(),
        ),
{
    let ghost rows = table.deep_view();
    let ghost keep = if by_episode {
        replies_to(pcid, text@)
    } else {
        in_conversation(text@)
    };
    let ghost before = by_received_desc();
    let mut sorted: Vec<ReplyRecord> = Vec::new();
    let mut i: usize = 0;
    assert(rows.take(0).filter(keep) =~= Seq::empty()) by {
        reveal(Seq::filter);
    }
    while i < table.len()
        invariant
            i <= table.len(),
            rows == table.deep_view(),
            keep == if by_episode {
                replies_to(pcid, text@)
            } else {
                in_conversation(text@)
            },
            before == by_received_desc(),
            sorted.deep_view() == arrange(rows.take(i as int).filter(keep), before),
        decreases table.len() - i,
    {
        proof {
            lemma_filter_step(rows, keep, i as int);
        }
        let wanted = if by_episode {
            table[i].pcid == pcid && str_eq(table[i].statusid.as_str(), text)
        } else {
            str_eq(table[i].conversation.as_str(), text)
        };
        if wanted {
            let ghost earlier = sorted.deep_view();
            let mut at: usize = 0;
            while at < sorted.len() && sorted[at].received >= table[i].received
                invariant
                    at <= sorted.len(),
                    i < table.len(),
                    earlier == sorted.deep_view(),
                    rows == table.deep_view(),
                    before == by_received_desc(),
                    forall|k: int| 0 <= k < at ==> !before(rows[i as int], #[trigger] earlier[k]),
                decreases sorted.len() - at,
            {
                at += 1;
            }
            proof {
                lemma_slot_found(earlier, rows[i as int], before, at as int);
                lemma_arrange_step(rows.take(i as int).filter(keep), rows[i as int], before);
            }
            sorted.insert(at, table[i].clone());
            assert(sorted.deep_view() =~= earlier.insert(at as int, rows[i as int]));
        }
        i += 1;
    }
    assert(rows.take(rows.len() as int) =~= rows);
    sorted
}

/// The replies to episode `statusid` of podcast `pcid`, the latest received
/// first; at most [`LISTING_LIMIT`] of them.
pub fn get_replies_from_db_by_episode(db: &Database, pcid: u64, statusid: String) -> (listed:
    Result<Vec<ReplyRecord>, HydraError>)
    ensures
        listed is Ok,
        listed->Ok_0.deep_view() == db@.replies_of(pcid, statusid@),
{
    let mut sorted = replies_where(&db.replies, true, pcid, statusid.as_str());
    let ghost full = sorted.deep_view();
    sorted.truncate(LISTING_LIMIT);
    assert(sorted.deep_view() =~= limit(full, LISTING_LIMIT as nat));
    Ok(sorted)
}

/// The replies in `conversation`, the latest received first.
pub fn get_a_reply_by_conversation(db: &Database, conversation: String) -> (listed: Result<
    Vec<ReplyRecord>,
    HydraError,
>)
    ensures
        listed is Ok,
        listed->Ok_0.deep_view() == db@.conversation_replies(conversation@),
{
    Ok(replies_where(&db.replies, false, 0, conversation.as_str()))
}

} // verus!
