//! Delivering an activity to a remote inbox: what is prepared before the
//! activity is written out, how the request is signed, and what the answer
//! of the remote server means.
//!
//! The server writes the prepared activity as JSON, has the request signed
//! by [`sign_delivery`], sends it, and asks [`delivery_outcome`] what came
//! of it.

use vstd::prelude::*;
use vstd::string::*;
use crate::activity::{Actor, ActorKeys, Create, InboxRequestAccept};
use crate::crypto_rsa::{
    is_key_read, private_key_from_pkcs1_pem, rsa_private_key_from_pkcs1_pem, RsaPrivateKey,
    RsaSerializationError,
};
use crate::dbif::{Database, DatabaseView, HydraError};
use crate::handler::{ap_get_actor_keys, keys_outcome};
use crate::http_signature::{
    create_http_signature, http_signature, verifies, HttpSignatureHeaders,
    HttpSignatureHeadersView,
};
use crate::notes::{
    build_episode_create, build_live_create, build_note_create, is_episode_create, is_live_create,
    is_note_create, iso8601_text, key_id, main_key_id,
};
use crate::podcastindex::{PIItem, PILiveItem};
use crate::urls::pairs_view;

verus! {

broadcast use vstd::string::group_string_axioms;

/// An activity that is ready to be sent: the key that signs for the
/// sending actor, the id of that key, the inbox to send to, and the
/// activity itself.
#[derive(Debug)]
pub struct Delivery<T> {
    pub private_key: RsaPrivateKey,
    pub key_id: String,
    pub inbox_url: String,
    pub activity: T,
}

/// A signed request, ready to be sent as a POST.
#[derive(Debug)]
pub struct SignedRequest {
    pub url: String,
    pub body: String,
    pub headers: Vec<(String, String)>,
}

/// What a remote server answered: the status and the body.
#[derive(Debug)]
pub struct HttpResponse {
    pub status: u16,
    pub body: String,
}

/// Whether a status tells of success.
pub open spec fn is_success(status: u16) -> bool {
    200 <= status <= 299
}

/// Whether a status tells of success.
#[verifier::when_used_as_spec(is_success)]
pub fn success(status: u16) -> (good: bool)
    ensures
        good == is_success(status),
{
    200 <= status && status <= 299
}

/// Whether the signing key of podcast `podcast_guid` was made ready for a
/// delivery to `inbox_url`: the actor got its keys, and the private one
/// was read.
pub open spec fn is_prepared(
    before: DatabaseView,
    after: DatabaseView,
    podcast_guid: u64,
    inbox_url: Seq<char>,
    prepared: Result<(RsaPrivateKey, String, String), HydraError>,
) -> bool {
    exists|keys: Result<ActorKeys, HydraError>|
        {
            &&& #[trigger] keys_outcome(before, podcast_guid, keys, after)
            &&& match keys {
                Err(_) => prepared is Err,
                Ok(found) => if is_key_read(private_key_from_pkcs1_pem(found.pem_private_key@)) {
                    &&& prepared matches Ok(ready)
                    &&& private_key_from_pkcs1_pem(found.pem_private_key@) == Some(ready.0@)
                    &&& ready.1@ == main_key_id(podcast_guid)
                    &&& ready.2@ == inbox_url
                } else {
                    prepared is Err
                },
            }
        }
}

/// The words of an error of a key encoding, whichever text was refused.
fn refusal_text(e: RsaSerializationError) -> (text: String)
    ensures
        text@ == e.words(),
{
    match e {
        RsaSerializationError::Pkcs1Error(text) => text,
        RsaSerializationError::Pkcs8Error(text) => text,
        RsaSerializationError::PemError(text) => text,
    }
}

/// Makes the signing key of podcast `podcast_guid` ready.
fn prepare(db: &mut Database, podcast_guid: u64, inbox_url: String) -> (prepared: Result<
    (RsaPrivateKey, String, String),
    HydraError,
>)
    ensures
        is_prepared(old(db)@, final(db)@, podcast_guid, inbox_url@, prepared),
{
    let keys = ap_get_actor_keys(db, podcast_guid);
    let ghost asked = keys;
    let actor_keys = match keys {
        Ok(actor_keys) => actor_keys,
        Err(e) => {
            assert(keys_outcome(old(db)@, podcast_guid, asked, db@));
            return Err(e);
        },
    };
    let private_key = match rsa_private_key_from_pkcs1_pem(actor_keys.pem_private_key.as_str()) {
        Ok(private_key) => private_key,
        Err(e) => {
            assert(keys_outcome(old(db)@, podcast_guid, asked, db@));
            let mut message = String::from_str("Error decoding private key: [");
            let text = refusal_text(e);
            message.append(text.as_str());
            message.append("]");
            return Err(HydraError(message));
        },
    };
    assert(keys_outcome(old(db)@, podcast_guid, asked, db@));
    Ok((private_key, key_id(podcast_guid), inbox_url))
}

/// Prepares the delivery of the Accept `inbox_accept` to `inbox_url`, in
/// the name of podcast `podcast_guid`.
///
/// The actor gets its keys, which are made if it has none, and the private
/// key is read. The delivery fails where the keys cannot be had or read.
pub fn ap_send_follow_accept(
    db: &mut Database,
    podcast_guid: u64,
    inbox_accept: InboxRequestAccept,
    inbox_url: String,
) -> (delivery: Result<Delivery<InboxRequestAccept>, HydraError>)
    ensures
        exists|prepared: Result<(RsaPrivateKey, String, String), HydraError>|
            {
                &&& #[trigger] is_prepared(
                    old(db)@,
                    final(db)@,
                    podcast_guid,
                    inbox_url@,
                    prepared,
                )
                &&& prepared is Ok <==> delivery is Ok
                &&& delivery matches Ok(ready) ==> ready.private_key@ == prepared->Ok_0.0@
                    && ready.key_id@ == main_key_id(podcast_guid) && ready.inbox_url@
                    == inbox_url@ && ready.activity == inbox_accept
            },
{
    let prepared = prepare(db, podcast_guid, inbox_url);
    let ghost witness = prepared;
    let ready = match prepared {
        Ok(ready) => ready,
        Err(e) => {
            assert(is_prepared(old(db)@, db@, podcast_guid, inbox_url@, witness));
            return Err(e);
        },
    };
    assert(is_prepared(old(db)@, db@, podcast_guid, inbox_url@, witness));
    Ok(
        Delivery {
            private_key: ready.0,
            key_id: ready.1,
            inbox_url: ready.2,
            activity: inbox_accept,
        },
    )
}

/// Whether `delivery` is what preparing an activity gives, where the
/// activity itself is `built`, or could not be built.
pub open spec fn is_delivery(
    before: DatabaseView,
    after: DatabaseView,
    podcast_guid: u64,
    inbox_url: Seq<char>,
    can_build: bool,
    delivery: Result<Delivery<Create>, HydraError>,
) -> bool {
    exists|prepared: Result<(RsaPrivateKey, String, String), HydraError>|
        {
            &&& #[trigger] is_prepared(before, after, podcast_guid, inbox_url, prepared)
            &&& delivery is Ok <==> prepared is Ok && can_build
            &&& delivery matches Ok(ready) ==> ready.private_key@ == prepared->Ok_0.0@
                && ready.key_id@ == main_key_id(podcast_guid) && ready.inbox_url@ == inbox_url
        }
}

/// Prepares the delivery of a plain note to `inbox_url`, in the name of
/// podcast `podcast_guid`.
///
/// The actor gets its keys, which are made if it has none. The delivery
/// fails where the keys cannot be had or read, or the time `now` has no
/// ISO 8601 text.
pub fn ap_block_send_note(
    db: &mut Database,
    podcast_guid: u64,
    inbox_url: String,
    note: String,
    in_reply_to: Option<String>,
    now: u64,
) -> (delivery: Result<Delivery<Create>, HydraError>)
    ensures
        is_delivery(
            old(db)@,
            final(db)@,
            podcast_guid,
            inbox_url@,
            iso8601_text(now) is Some,
            delivery,
        ),
        delivery matches Ok(ready) ==> is_note_create(
            ready.activity,
            podcast_guid,
            note@,
            in_reply_to,
            now,
            iso8601_text(now)->Some_0,
        ),
{
    let prepared = prepare(db, podcast_guid, inbox_url);
    let ghost witness = prepared;
    assert(is_prepared(old(db)@, db@, podcast_guid, inbox_url@, witness));
    let ready = match prepared {
        Ok(ready) => ready,
        Err(e) => {
            return Err(e);
        },
    };
    let activity = match build_note_create(podcast_guid, note, in_reply_to, now) {
        Ok(activity) => activity,
        Err(e) => {
            return Err(e);
        },
    };
    Ok(Delivery { private_key: ready.0, key_id: ready.1, inbox_url: ready.2, activity })
}

/// Prepares the delivery of the note for `episode` to `inbox_url`, in the
/// name of podcast `podcast_guid`.
///
/// The actor gets its keys, which are made if it has none. The delivery
/// fails where the keys cannot be had or read, or the episode was
/// published at a time that has no ISO 8601 text.
pub fn ap_block_send_episode_note(
    db: &mut Database,
    podcast_guid: u64,
    episode: &PIItem,
    inbox_url: String,
    requested: bool,
    in_reply_to: Option<String>,
    now: u64,
) -> (delivery: Result<Delivery<Create>, HydraError>)
    ensures
        is_delivery(
            old(db)@,
            final(db)@,
            podcast_guid,
            inbox_url@,
            iso8601_text(episode.date_published) is Some,
            delivery,
        ),
        delivery matches Ok(ready) ==> is_episode_create(
            ready.activity,
            podcast_guid,
            *episode,
            requested,
            in_reply_to,
            now,
            iso8601_text(episode.date_published)->Some_0,
        ),
{
    let prepared = prepare(db, podcast_guid, inbox_url);
    let ghost witness = prepared;
    assert(is_prepared(old(db)@, db@, podcast_guid, inbox_url@, witness));
    let ready = match prepared {
        Ok(ready) => ready,
        Err(e) => {
            return Err(e);
        },
    };
    let activity = match build_episode_create(podcast_guid, episode, requested, in_reply_to, now) {
        Ok(activity) => activity,
        Err(e) => {
            return Err(e);
        },
    };
    Ok(Delivery { private_key: ready.0, key_id: ready.1, inbox_url: ready.2, activity })
}

/// Prepares the delivery of the note for the live item `episode` to
/// `inbox_url`, in the name of podcast `podcast_guid`.
///
/// The actor gets its keys, which are made if it has none. The delivery
/// fails where the keys cannot be had or read, or the item was published
/// at a time that has no ISO 8601 text.
pub fn ap_block_send_live_note(
    db: &mut Database,
    podcast_guid: u64,
    episode: &PILiveItem,
    inbox_url: String,
) -> (delivery: Result<Delivery<Create>, HydraError>)
    ensures
        is_delivery(
            old(db)@,
            final(db)@,
            podcast_guid,
            inbox_url@,
            iso8601_text(episode.date_published) is Some,
            delivery,
        ),
        delivery matches Ok(ready) ==> is_live_create(
            ready.activity,
            podcast_guid,
            *episode,
            iso8601_text(episode.date_published)->Some_0,
        ),
{
    let prepared = prepare(db, podcast_guid, inbox_url);
    let ghost witness = prepared;
    assert(is_prepared(old(db)@, db@, podcast_guid, inbox_url@, witness));
    let ready = match prepared {
        Ok(ready) => ready,
        Err(e) => {
            return Err(e);
        },
    };
    let activity = match build_live_create(podcast_guid, episode) {
        Ok(activity) => activity,
        Err(e) => {
            return Err(e);
        },
    };
    Ok(Delivery { private_key: ready.0, key_id: ready.1, inbox_url: ready.2, activity })
}

/// The headers of a delivery that is signed by `signed`: who sends, what
/// is sent, and the signed headers as they were signed. The digest is
/// there where the signature covers one.
pub open spec fn delivery_headers(signed: HttpSignatureHeadersView) -> Seq<(Seq<char>, Seq<char>)> {
    let fixed = seq![
        ("User-Agent"@, "Podcast Index AP/v0.1.2a"@),
        ("Accept"@, "application/activity+json"@),
        ("Content-type"@, "application/activity+json"@),
        ("date"@, signed.date),
        ("host"@, signed.host),
    ];
    match signed.digest {
        Some(digest) => fixed.push(("digest"@, digest)).push(("signature"@, signed.signature)),
        None => fixed.push(("signature"@, signed.signature)),
    }
}

/// The headers of a delivery that is signed by `signed`.
pub fn build_delivery_headers(signed: HttpSignatureHeaders) -> (headers: Vec<(String, String)>)
    ensures
        pairs_view(headers@) == delivery_headers(signed@),
{
    let mut headers: Vec<(String, String)> = Vec::new();
    headers.push((String::from_str("User-Agent"), String::from_str("Podcast Index AP/v0.1.2a")));
    headers.push((String::from_str("Accept"), String::from_str("application/activity+json")));
    headers.push((String::from_str("Content-type"), String::from_str("application/activity+json")));
    headers.push((String::from_str("date"), signed.date));
    headers.push((String::from_str("host"), signed.host));
    match signed.digest {
        Some(digest) => {
            headers.push((String::from_str("digest"), digest));
        },
        None => {},
    }
    headers.push((String::from_str("signature"), signed.signature));
    assert(pairs_view(headers@) =~= delivery_headers(signed@));
    headers
}

/// Signs the delivery of `body` to `inbox_url` as a POST, at the time of
/// the call.
///
/// The request carries the signed headers as they were signed, so that the
/// receiving server computes the very text that was signed. It fails where
/// the URL names no host or the key cannot sign.
pub fn sign_delivery(private_key: &RsaPrivateKey, key_id: &str, inbox_url: &str, body: &str) -> (signed:
    Result<SignedRequest, HydraError>)
    ensures
        signed matches Ok(request) ==> request.url@ == inbox_url@ && request.body@ == body@
            && exists|headers: HttpSignatureHeadersView|
            {
                &&& #[trigger] http_signature(
                    "POST"@,
                    inbox_url@,
                    body@,
                    private_key@,
                    key_id@,
                    headers.date,
                ) == Ok::<HttpSignatureHeadersView, crate::http_signature::SigningRefusal>(
                    headers,
                )
                &&& verifies(headers, "POST"@, inbox_url@, private_key@, key_id@)
                &&& pairs_view(request.headers@) == delivery_headers(headers)
            },
        signed is Err ==> exists|date: Seq<char>| #[trigger]
            http_signature("POST"@, inbox_url@, body@, private_key@, key_id@, date) is Err,
{
    match create_http_signature("POST", inbox_url, body, private_key, key_id) {
        Ok(headers) => {
            let ghost witness = headers@;
            let request = SignedRequest {
                url: String::from_str(inbox_url),
                body: String::from_str(body),
                headers: build_delivery_headers(headers),
            };
            assert(http_signature(
                "POST"@,
                inbox_url@,
                body@,
                private_key@,
                key_id@,
                witness.date,
            ) == Ok::<HttpSignatureHeadersView, crate::http_signature::SigningRefusal>(witness));
            Ok(request)
        },
        Err(e) => {
            let mut message = String::from_str("Could not build http signature headers: [");
            let text = e.to_string();
            message.append(text.as_str());
            message.append("]");
            Err(HydraError(message))
        },
    }
}

/// What came of the delivery of a note: the body of the answer where the
/// remote server took the note, an error where the request failed or the
/// server refused it.
pub fn delivery_outcome(response: Result<HttpResponse, String>) -> (outcome: Result<
    String,
    HydraError,
>)
    ensures
        outcome is Ok <==> (response matches Ok(answer) && is_success(answer.status)),
        outcome matches Ok(body) ==> body@ == response->Ok_0.body@,
{
    match response {
        Ok(answer) => {
            if success(answer.status) {
                Ok(answer.body)
            } else {
                Err(HydraError(String::from_str("The remote server refused the note.")))
            }
        },
        Err(text) => {
            let mut message = String::from_str("Error sending episode create note request: [");
            message.append(text.as_str());
            message.append("]");
            Err(HydraError(message))
        },
    }
}

/// What came of the delivery of an Accept: success where the remote server
/// took it, an error where the request failed or the server refused it.
pub fn follow_accept_outcome(response: Result<HttpResponse, String>) -> (outcome: Result<
    String,
    HydraError,
>)
    ensures
        outcome is Ok <==> (response matches Ok(answer) && is_success(answer.status)),
        outcome matches Ok(body) ==> body@.len() == 0,
        (response matches Ok(answer) && !is_success(answer.status)) ==> outcome->Err_0.0@
            == "Accepting the follow request failed."@,
{
    match response {
        Ok(answer) => {
            if success(answer.status) {
                Ok(String::new())
            } else {
                Err(HydraError(String::from_str("Accepting the follow request failed.")))
            }
        },
        Err(text) => {
            let mut message = String::from_str("Error sending follow accept request: [");
            message.append(text.as_str());
            message.append("]");
            Err(HydraError(message))
        },
    }
}

/// What came of asking for the profile of a remote actor.
///
/// `response` is the status of the answer, or why there was none; `read`
/// is the profile read from the body, or why it could not be read. The
/// profile counts where the server answered with success and the body
/// could be read.
pub fn ap_block_get_remote_actor(response: Result<u16, String>, read: Result<Actor, String>) -> (fetched:
    Result<Actor, HydraError>)
    ensures
        fetched is Ok <==> (response matches Ok(status) && is_success(status) && read is Ok),
        fetched matches Ok(actor) ==> actor == read->Ok_0,
        (response matches Ok(status) && !is_success(status)) ==> fetched->Err_0.0@
            == "Getting remote actor failed."@,
{
    match response {
        Ok(status) => {
            if success(status) {
                match read {
                    Ok(actor) => Ok(actor),
                    Err(text) => {
                        let mut message = String::from_str("Error parsing remote actor data: [");
                        message.append(text.as_str());
                        message.append("]");
                        Err(HydraError(message))
                    },
                }
            } else {
                Err(HydraError(String::from_str("Getting remote actor failed.")))
            }
        },
        Err(text) => {
            let mut message = String::from_str("Error getting remote actor: [");
            message.append(text.as_str());
            message.append("]");
            Err(HydraError(message))
        },
    }
}

/// The headers of the request for the profile of a remote actor.
pub fn remote_actor_request_headers() -> (headers: Vec<(String, String)>)
    ensures
        pairs_view(headers@) == seq![
            ("User-Agent"@, "Podcast Index AP/v0.1.2a"@),
            ("Accept"@, "application/activity+json"@),
        ],
{
    let mut headers: Vec<(String, String)> = Vec::new();
    headers.push((String::from_str("User-Agent"), String::from_str("Podcast Index AP/v0.1.2a")));
    headers.push((String::from_str("Accept"), String::from_str("application/activity+json")));
    assert(pairs_view(headers@) =~= seq![
        ("User-Agent"@, "Podcast Index AP/v0.1.2a"@),
        ("Accept"@, "application/activity+json"@),
    ]);
    headers
}

} // verus!
