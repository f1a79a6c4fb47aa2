//! The keys of the podcast actors and the answer to a Follow.

use vstd::prelude::*;
use vstd::string::*;
use crate::activity::{ActorKeys, InboxRequest, InboxRequestAccept, InboxRequestWithObject};
use crate::crypto_rsa::{
    generate_rsa_key, is_key_of_size, private_key_pkcs1_pem, public_half, public_key_pkcs1_pem,
    rsa_private_key_to_pkcs1_pem, rsa_public_key_to_pkcs1_pem, RsaError, RsaPrivateKey,
    RsaSerializationError,
};
use crate::dbif::{
    add_actor_to_db, get_actor_from_db, lemma_with_actor, ActorRecord, ActorRecordView, Database,
    DatabaseView, HydraError,
};
use crate::text::{decimal, u64_to_string};

verus! {

broadcast use vstd::string::group_string_axioms;

/// The row of an actor that was just made: its keys, no guid, and no
/// episode announced.
pub open spec fn new_actor_row(pcid: u64, private: Seq<char>, public: Seq<char>) -> ActorRecordView {
    ActorRecordView {
        pcid,
        guid: Seq::empty(),
        pem_private_key: private,
        pem_public_key: public,
        last_episode_guid: Seq::empty(),
    }
}

/// The two PKCS#1 PEM texts of the private key `key` and of its public
/// half; `None` where one of them cannot be written.
pub open spec fn key_texts(key: Seq<u8>) -> Option<(Seq<char>, Seq<char>)> {
    match private_key_pkcs1_pem(key) {
        None => None,
        Some(private) => match public_half(key) {
            None => None,
            Some(half) => match public_key_pkcs1_pem(half) {
                None => None,
                Some(public) => Some((private, public)),
            },
        },
    }
}

/// What asking for the keys of actor `pcid` does: an actor that has a row
/// gets the keys of its row and nothing changes; one that has none gets
/// the two texts of a new key of 2048 bits and a row with them, or an
/// error and no row.
pub open spec fn keys_outcome(
    before: DatabaseView,
    pcid: u64,
    keys: Result<ActorKeys, HydraError>,
    after: DatabaseView,
) -> bool {
    if before.has_actor(pcid) {
        after == before && are_stored_keys(before, pcid, keys)
    } else {
        match keys {
            Ok(made) => {
                &&& after == before.with_actor(
                    new_actor_row(pcid, made.pem_private_key@, made.pem_public_key@),
                )
                &&& is_key_pair(made)
            },
            Err(_) => after == before,
        }
    }
}

/// Whether the two texts of `keys` are the PKCS#1 PEM texts of one private
/// key of 2048 bits and of its public half.
pub open spec fn is_key_pair(keys: ActorKeys) -> bool {
    exists|key: Seq<u8>|
        is_key_of_size(key, ACTOR_KEY_BITS) && #[trigger] key_texts(key) == Some(
            (keys.pem_private_key@, keys.pem_public_key@),
        )
}

/// The size of the keys of the actors, in bits.
pub const ACTOR_KEY_BITS: usize = 2048;

/// The message `lead`, `detail`, `]`.
fn detailed(lead: &str, detail: &str) -> (message: String)
    ensures
        message@ == lead@ + detail@ + "]"@,
{
    let mut message = String::from_str(lead);
    message.append(detail);
    message.append("]");
    message
}

/// The words of an error of a key encoding, whichever text was refused.
fn encoding_failure(e: RsaSerializationError) -> (text: String)
    ensures
        text@ == e.words(),
{
    match e {
        RsaSerializationError::Pkcs1Error(text) => text,
        RsaSerializationError::Pkcs8Error(text) => text,
        RsaSerializationError::PemError(text) => text,
    }
}

/// Whether `keys` are the keys that the row of actor `pcid` holds.
pub open spec fn are_stored_keys(db: DatabaseView, pcid: u64, keys: Result<ActorKeys, HydraError>) -> bool {
    &&& keys matches Ok(found)
    &&& found.pem_private_key@ == db.actor(pcid).pem_private_key
    &&& found.pem_public_key@ == db.actor(pcid).pem_public_key
}

/// Gives actor `podcast_guid` the keys `made`, where it has none yet.
///
/// Both halves are written as PKCS#1 PEM and stored in a new row with no
/// guid and no episode announced. Where the key could not be made or
/// written, the error comes back and nothing is stored. An actor that has
/// a row keeps it and its keys: the keys of the row come back, whatever
/// was made, and nothing changes.
pub fn create_actor_keys(
    db: &mut Database,
    podcast_guid: u64,
    made: Result<RsaPrivateKey, RsaError>,
) -> (keys: Result<ActorKeys, HydraError>)
    ensures
        old(db)@.has_actor(podcast_guid) ==> final(db)@ == old(db)@ && are_stored_keys(
            old(db)@,
            podcast_guid,
            keys,
        ),
        !old(db)@.has_actor(podcast_guid) && made is Err ==> keys is Err && final(db)@ == old(
            db,
        )@,
        !old(db)@.has_actor(podcast_guid) && made is Ok ==> match key_texts(made->Ok_0@) {
            None => keys is Err && final(db)@ == old(db)@,
            Some(texts) => {
                &&& keys matches Ok(written)
                &&& written.pem_private_key@ == texts.0
                &&& written.pem_public_key@ == texts.1
                &&& final(db)@ == old(db)@.with_actor(
                    new_actor_row(podcast_guid, texts.0, texts.1),
                )
            },
        },
{
    match get_actor_from_db(db, podcast_guid) {
        Ok(actor_record) => {
            return Ok(
                ActorKeys {
                    pem_private_key: actor_record.pem_private_key,
                    pem_public_key: actor_record.pem_public_key,
                },
            );
        },
        Err(_) => {},
    }
    let key = match made {
        Ok(key) => key,
        Err(e) => {
            return Err(HydraError(detailed("Error generating key: [", e.0.as_str())));
        },
    };
    let pem_priv_key = match rsa_private_key_to_pkcs1_pem(&key) {
        Ok(pem) => pem,
        Err(e) => {
            let text = encoding_failure(e);
            return Err(HydraError(detailed("Error encoding private key: [", text.as_str())));
        },
    };
    let public = key.public_key();
    let pem_pub_key = match rsa_public_key_to_pkcs1_pem(&public) {
        Ok(pem) => pem,
        Err(e) => {
            let text = encoding_failure(e);
            return Err(HydraError(detailed("Error encoding public key: [", text.as_str())));
        },
    };
    let row = ActorRecord {
        pcid: podcast_guid,
        guid: String::new(),
        pem_private_key: pem_priv_key.clone(),
        pem_public_key: pem_pub_key.clone(),
        last_episode_guid: String::new(),
    };
    assert(row@ == new_actor_row(podcast_guid, pem_priv_key@, pem_pub_key@));
    let _ = add_actor_to_db(db, row);
    Ok(ActorKeys { pem_private_key: pem_priv_key, pem_public_key: pem_pub_key })
}

/// The keys of actor `podcast_guid`.
///
/// An actor that has a row gets the keys of that row and nothing changes:
/// no key is made. For one that has none a key of 2048 bits is made and
/// stored as [`create_actor_keys`] says.
pub fn ap_get_actor_keys(db: &mut Database, podcast_guid: u64) -> (keys: Result<
    ActorKeys,
    HydraError,
>)
    ensures
        keys_outcome(old(db)@, podcast_guid, keys, final(db)@),
{
    match get_actor_from_db(db, podcast_guid) {
        Ok(actor_record) => Ok(
            ActorKeys {
                pem_private_key: actor_record.pem_private_key,
                pem_public_key: actor_record.pem_public_key,
            },
        ),
        Err(_) => {
            let made = generate_rsa_key();
            let ghost fresh = made;
            let keys = create_actor_keys(db, podcast_guid, made);
            proof {
                if keys is Ok {
                    assert(is_key_of_size(fresh->Ok_0@, ACTOR_KEY_BITS));
                    assert(key_texts(fresh->Ok_0@) == Some(
                        (keys->Ok_0.pem_private_key@, keys->Ok_0.pem_public_key@),
                    ));
                }
            }
            keys
        },
    }
}

/// Asking twice for the keys of an actor gives the same keys twice, and the
/// second asking changes nothing: the actor has its row by then, so no key
/// is made for it again.
pub proof fn lemma_actor_keys_idempotent(
    before: DatabaseView,
    pcid: u64,
    first: ActorKeys,
    between: DatabaseView,
    second: Result<ActorKeys, HydraError>,
    after: DatabaseView,
)
    requires
        keys_outcome(before, pcid, Ok(first), between),
        keys_outcome(between, pcid, second, after),
    ensures
        (second matches Ok(again) && again.pem_private_key@ == first.pem_private_key@
            && again.pem_public_key@ == first.pem_public_key@),
        after == between,
        between.has_actor(pcid),
{
    if !before.has_actor(pcid) {
        lemma_with_actor(
            before,
            new_actor_row(pcid, first.pem_private_key@, first.pem_public_key@),
        );
    }
}

/// The id of the Accept that actor `podcast_guid` answers a Follow with.
pub open spec fn accept_id(podcast_guid: u64) -> Seq<char> {
    "https://ap.podcastindex.org/podcasts?id="@ + decimal(podcast_guid as nat) + "&context=accept"@
}

/// Whether `accept` answers `follow` in the name of actor `podcast_guid`.
pub open spec fn is_follow_accept(
    accept: InboxRequestAccept,
    follow: InboxRequestWithObject,
    podcast_guid: u64,
) -> bool {
    &&& accept.at_context@ == "https://www.w3.org/ns/activitystreams"@
    &&& accept.id@ == accept_id(podcast_guid)
    &&& accept.kind@ == "Accept"@
    &&& accept.actor@ == follow.object.id@
    &&& accept.object.id@ == follow.id@
    &&& accept.object.kind@ == follow.kind@
    &&& follow.actor matches Some(actor) && accept.object.actor@ == actor@
    &&& accept.object.object@ == follow.object.id@
}

/// Builds the Accept for a Follow: the followed actor accepts, and the
/// Follow is quoted with its id, type and actor. A Follow that names no
/// actor cannot be answered.
pub fn ap_build_follow_accept(follow_request: InboxRequestWithObject, podcast_guid: u64) -> (accept:
    Result<InboxRequestAccept, HydraError>)
    ensures
        follow_request.actor is Some ==> (accept matches Ok(built) && is_follow_accept(
            built,
            follow_request,
            podcast_guid,
        )),
        follow_request.actor is None ==> accept is Err,
{
    let actor = match follow_request.actor {
        Some(actor) => actor,
        None => {
            return Err(HydraError(String::from_str("The follow request names no actor.")));
        },
    };
    let mut id = String::from_str("https://ap.podcastindex.org/podcasts?id=");
    let number = u64_to_string(podcast_guid);
    id.append(number.as_str());
    id.append("&context=accept");
    Ok(
        InboxRequestAccept {
            at_context: String::from_str("https://www.w3.org/ns/activitystreams"),
            id,
            kind: String::from_str("Accept"),
            actor: follow_request.object.id.clone(),
            object: InboxRequest {
                id: follow_request.id,
                kind: follow_request.kind,
                actor,
                object: follow_request.object.id,
            },
        },
    )
}

} // verus!
