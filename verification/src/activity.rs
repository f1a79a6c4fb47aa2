//! The ActivityPub documents that the engine reads and writes, as plain
//! data. A field named `kind` is the `type` of the document.

use vstd::prelude::*;

verus! {

/// A link of a WebFinger document.
#[derive(Debug, Clone)]
pub struct Link {
    pub rel: String,
    pub kind: Option<String>,
    pub href: Option<String>,
    pub template: Option<String>,
}

/// A WebFinger document.
#[derive(Debug, Clone)]
pub struct Webfinger {
    pub subject: String,
    pub aliases: Vec<String>,
    pub links: Vec<Link>,
}

/// The public key of an actor.
#[derive(Debug, Clone)]
pub struct PublicKey {
    pub id: String,
    pub owner: String,
    pub public_key_pem: String,
}

/// An image.
#[derive(Debug, Clone)]
pub struct Icon {
    pub kind: String,
    pub media_type: Option<String>,
    pub url: String,
}

/// A tag of an object.
#[derive(Debug, Clone)]
pub struct TagObject {
    pub id: Option<String>,
    pub kind: String,
    pub name: Option<String>,
    pub href: Option<String>,
    pub updated: Option<String>,
    pub icon: Option<Icon>,
}

/// A property shown on the profile of an actor.
#[derive(Debug, Clone)]
pub struct Attachment {
    pub name: Option<String>,
    pub kind: String,
    pub value: Option<String>,
}

/// A document attached to a note.
#[derive(Debug, Clone)]
pub struct NoteAttachment {
    pub name: Option<String>,
    pub kind: Option<String>,
    pub value: Option<String>,
    pub media_type: Option<String>,
    pub url: Option<String>,
    pub blurhash: Option<String>,
    pub width: Option<u64>,
    pub height: Option<u64>,
}

/// The endpoints of an actor.
#[derive(Debug, Clone)]
pub struct Endpoints {
    pub shared_inbox: String,
}

/// The key pair of a podcast actor, both halves in PEM.
#[derive(Debug, Clone)]
pub struct ActorKeys {
    pub pem_private_key: String,
    pub pem_public_key: String,
}

/// An actor: a podcast of this server, or a remote account.
#[derive(Debug, Clone)]
pub struct Actor {
    pub at_context: Vec<String>,
    pub id: String,
    pub kind: String,
    pub discoverable: Option<bool>,
    pub indexable: Option<bool>,
    pub preferred_username: Option<String>,
    pub published: Option<String>,
    pub memorial: Option<bool>,
    pub devices: Option<String>,
    pub name: Option<String>,
    pub inbox: String,
    pub outbox: String,
    pub featured: Option<String>,
    pub followers: Option<String>,
    pub following: Option<String>,
    pub icon: Option<Icon>,
    pub summary: Option<String>,
    pub url: Option<String>,
    pub manually_approves_followers: Option<bool>,
    pub attachment: Option<Vec<Attachment>>,
    pub public_key: PublicKey,
    pub endpoints: Option<Endpoints>,
}

/// An activity whose object is a reference.
#[derive(Debug, Clone)]
pub struct InboxRequest {
    pub id: String,
    pub kind: String,
    pub actor: String,
    pub object: String,
}

/// An activity as it arrives in the inbox.
#[derive(Debug, Clone)]
pub struct InboxRequestWithObject {
    pub id: String,
    pub kind: String,
    pub actor: Option<String>,
    pub object: InboxRequestObject,
}

/// The object of an arriving activity. Where the activity holds a bare
/// reference in place of an object, `id` is that reference and every other
/// field is absent.
#[derive(Debug, Clone)]
pub struct InboxRequestObject {
    pub id: String,
    pub kind: Option<String>,
    pub actor: Option<String>,
    pub summary: Option<String>,
    pub in_reply_to: Option<String>,
    pub published: Option<String>,
    pub url: Option<String>,
    pub attributed_to: Option<String>,
    pub to: Option<Vec<String>>,
    pub cc: Option<Vec<String>>,
    pub sensitive: Option<bool>,
    pub atom_uri: Option<String>,
    pub in_reply_to_atom_uri: Option<String>,
    pub conversation: Option<String>,
    pub content: Option<String>,
    pub attachment: Option<Vec<Attachment>>,
    pub tag: Option<Vec<TagObject>>,
    pub replies: Option<ReplyCollection>,
}

/// The replies to an object.
#[derive(Debug, Clone)]
pub struct ReplyCollection {
    pub id: Option<String>,
    pub kind: Option<String>,
    pub first: Option<ReplyCollectionPage>,
}

/// One page of the replies to an object.
#[derive(Debug, Clone)]
pub struct ReplyCollectionPage {
    pub id: Option<String>,
    pub kind: Option<String>,
    pub next: Option<String>,
    pub part_of: Option<String>,
}

/// The answer to a Follow.
#[derive(Debug, Clone)]
pub struct InboxRequestAccept {
    pub at_context: String,
    pub id: String,
    pub kind: String,
    pub actor: String,
    pub object: InboxRequest,
}

/// The outbox of an actor, as a collection without its items.
#[derive(Debug, Clone)]
pub struct OutboxConfig {
    pub context: String,
    pub id: String,
    pub kind: String,
    pub total_items: u64,
    pub first: String,
    pub last: String,
}

/// A note.
#[derive(Debug, Clone)]
pub struct Object {
    pub id: String,
    pub kind: String,
    pub summary: Option<String>,
    pub in_reply_to: Option<String>,
    pub published: String,
    pub url: String,
    pub attributed_to: String,
    pub to: Vec<String>,
    pub cc: Option<Vec<String>>,
    pub sensitive: bool,
    pub conversation: String,
    pub content: String,
    pub attachment: Vec<NoteAttachment>,
}

/// The activity that publishes a note.
#[derive(Debug, Clone)]
pub struct Create {
    pub at_context: String,
    pub id: String,
    pub kind: String,
    pub actor: String,
    pub published: String,
    pub to: Vec<String>,
    pub cc: Option<Vec<String>>,
    pub object: Object,
}

/// An item of an outbox page.
#[derive(Debug, Clone)]
pub struct Item {
    pub id: String,
    pub kind: String,
    pub actor: String,
    pub published: String,
    pub direct_message: bool,
    pub to: Vec<String>,
    pub object: Object,
}

/// One page of an outbox.
#[derive(Debug, Clone)]
pub struct OutboxPaged {
    pub context: String,
    pub id: String,
    pub kind: String,
    pub next: String,
    pub prev: String,
    pub part_of: String,
    pub total_items: u64,
    pub ordered_items: Option<Vec<Item>>,
}

/// The pinned posts of an actor.
#[derive(Debug, Clone)]
pub struct Featured {
    pub at_context: Vec<String>,
    pub id: String,
    pub kind: String,
    pub total_items: u64,
    pub ordered_items: Option<Vec<FeaturedItem>>,
}

/// A pinned post.
#[derive(Debug, Clone)]
pub struct FeaturedItem {
    pub at_context: Vec<String>,
    pub actor: String,
    pub attachment: Vec<String>,
    pub attributed_to: String,
    pub cc: Option<Vec<String>>,
    pub content: String,
    pub context: String,
    pub conversation: String,
    pub id: String,
    pub published: String,
    pub replies_count: u64,
    pub sensitive: bool,
    pub source: String,
    pub summary: Option<String>,
    pub tag: Vec<String>,
    pub to: Vec<String>,
    pub kind: String,
}

/// A note as it is served on its own.
#[derive(Debug, Clone)]
pub struct Status {
    pub at_context: Vec<String>,
    pub id: String,
    pub kind: String,
    pub summary: Option<String>,
    pub in_reply_to: Option<String>,
    pub published: String,
    pub url: Option<String>,
    pub attributed_to: String,
    pub to: Vec<String>,
    pub cc: Option<Vec<String>>,
    pub sensitive: bool,
    pub conversation: String,
    pub content: String,
    pub attachment: Option<Vec<NoteAttachment>>,
    pub actor: String,
    pub tag: Vec<String>,
    pub replies: Option<String>,
}

/// The object that stands for the bare reference `reference`: its id, and
/// every other field absent.
pub open spec fn is_reference(object: InboxRequestObject, reference: Seq<char>) -> bool {
    &&& object.id@ == reference
    &&& object.kind is None
    &&& object.actor is None
    &&& object.summary is None
    &&& object.in_reply_to is None
    &&& object.published is None
    &&& object.url is None
    &&& object.attributed_to is None
    &&& object.to is None
    &&& object.cc is None
    &&& object.sensitive is None
    &&& object.atom_uri is None
    &&& object.in_reply_to_atom_uri is None
    &&& object.conversation is None
    &&& object.content is None
    &&& object.attachment is None
    &&& object.tag is None
    &&& object.replies is None
}

impl InboxRequestObject {
    /// The object that stands for a bare reference.
    pub fn from_str(s: &str) -> (object: InboxRequestObject)
        ensures
            is_reference(object, s@),
    {
        InboxRequestObject {
            id: s.to_owned(),
            kind: None,
            actor: None,
            summary: None,
            in_reply_to: None,
            published: None,
            url: None,
            attributed_to: None,
            to: None,
            cc: None,
            sensitive: None,
            atom_uri: None,
            in_reply_to_atom_uri: None,
            conversation: None,
            content: None,
            attachment: None,
            tag: None,
            replies: None,
        }
    }
}

/// The object of an activity that holds none: the reference to nothing.
pub fn d_blank_inboxrequest() -> (object: InboxRequestObject)
    ensures
        is_reference(object, Seq::empty()),
{
    InboxRequestObject {
        id: String::new(),
        kind: None,
        actor: None,
        summary: None,
        in_reply_to: None,
        published: None,
        url: None,
        attributed_to: None,
        to: None,
        cc: None,
        sensitive: None,
        atom_uri: None,
        in_reply_to_atom_uri: None,
        conversation: None,
        content: None,
        attachment: None,
        tag: None,
        replies: None,
    }
}

} // verus!
