//! The requests that the server sends to the podcast index.
//!
//! Each request carries the key of the caller, the time, and a token that
//! proves knowledge of the secret: the SHA-1 digest, in hexadecimal, of
//! key, secret and time in a row.

use vstd::prelude::*;
use vstd::string::*;
use vstd::utf8::encode_utf8;
use crate::text::{decimal, push_char, u64_to_string};
use crate::urls::pairs_view;

verus! {

broadcast use vstd::string::group_string_axioms;

/// A GET request to the index.
#[derive(Debug)]
pub struct ApiRequest {
    pub url: String,
    pub headers: Vec<(String, String)>,
}

/// The SHA-1 digest of `data`.
pub uninterp spec fn sha1(data: Seq<u8>) -> Seq<u8>;

/// Computes the SHA-1 digest of `data`.
///
/// Trusted: `Digest::digest` of `Sha1` of `sha1`, a function of the bytes
/// alone; its result is named [`sha1`].
#[verifier::external_body]
fn sha1_digest(data: &[u8]) -> (digest: Vec<u8>)
    ensures
        digest@ == sha1(data@),
{
    <::sha1::Sha1 as ::sha1::Digest>::digest(data).to_vec()
}

/// Whether a byte stands for itself in a percent-encoded text: letters and
/// digits of ASCII, and `-`, `.`, `_` and `~`.
pub open spec fn is_unreserved(byte: u8) -> bool {
    ||| 48 <= byte <= 57
    ||| 65 <= byte <= 90
    ||| 97 <= byte <= 122
    ||| byte == 45
    ||| byte == 46
    ||| byte == 95
    ||| byte == 126
}

/// The hexadecimal digit of `nibble`, with capitals from `first_letter` on:
/// 65 for `A`, 97 for `a`.
pub open spec fn hex_digit(nibble: u8, first_letter: u8) -> char {
    if nibble < 10 {
        (48 + nibble) as u8 as char
    } else {
        (first_letter + nibble - 10) as u8 as char
    }
}

/// The percent-encoded text of `bytes`: each unreserved byte as it is, any
/// other as `%` and its two hexadecimal digits, in capitals.
pub open spec fn percent_encoded(bytes: Seq<u8>) -> Seq<char>
    decreases bytes.len(),
{
    if bytes.len() == 0 {
        Seq::empty()
    } else {
        let byte = bytes.last();
        let encoded = if is_unreserved(byte) {
            seq![byte as char]
        } else {
            seq!['%', hex_digit(byte / 16, 65), hex_digit(byte % 16, 65)]
        };
        percent_encoded(bytes.drop_last()) + encoded
    }
}

/// Percent-encodes a text for a query.
///
/// Trusted: `urlencoding::encode`, which percent-encodes every byte of the
/// UTF-8 text except the letters and digits of ASCII and `-`, `_`, `.`,
/// `~`, with capital hexadecimal digits.
#[verifier::external_body]
fn url_encode(text: &str) -> (encoded: String)
    ensures
        encoded@ == percent_encoded(text.spec_bytes()),
{
    ::urlencoding::encode(text).into_owned()
}

/// The bytes in hexadecimal, two small digits each.
pub open spec fn hex_lower(bytes: Seq<u8>) -> Seq<char>
    decreases bytes.len(),
{
    if bytes.len() == 0 {
        Seq::empty()
    } else {
        hex_lower(bytes.drop_last()).push(hex_digit(bytes.last() / 16, 97)).push(
            hex_digit(bytes.last() % 16, 97),
        )
    }
}

/// The small hexadecimal digit of `nibble`.
fn small_hex_digit(nibble: u8) -> (digit: char)
    requires
        nibble < 16,
    ensures
        digit == hex_digit(nibble, 97),
{
    if nibble < 10 {
        (48 + nibble) as char
    } else {
        (87 + nibble) as char
    }
}

/// Writes bytes in hexadecimal, two small digits each.
pub fn to_hex_lower(bytes: &[u8]) -> (text: String)
    ensures
        text@ == hex_lower(bytes@),
{
    let mut text = String::new();
    let mut i: usize = 0;
    assert(bytes@.take(0) =~= Seq::empty());
    while i < bytes.len()
        invariant
            i <= bytes.len(),
            text@ == hex_lower(bytes@.take(i as int)),
        decreases bytes.len() - i,
    {
        assert(bytes@.take(i + 1).drop_last() =~= bytes@.take(i as int));
        assert(bytes@.take(i + 1).last() == bytes[i as int]);
        let byte = bytes[i];
        push_char(&mut text, small_hex_digit(byte / 16));
        push_char(&mut text, small_hex_digit(byte % 16));
        i += 1;
    }
    assert(bytes@.take(bytes@.len() as int) =~= bytes@);
    text
}

/// The token that proves knowledge of `secret` at `time`.
pub open spec fn api_token(key: Seq<char>, secret: Seq<char>, time: u64) -> Seq<char> {
    hex_lower(sha1(encode_utf8(key + secret + decimal(time as nat))))
}

/// The headers of a request to the index at `time`.
pub open spec fn api_headers(key: Seq<char>, secret: Seq<char>, time: u64) -> Seq<
    (Seq<char>, Seq<char>),
> {
    seq![
        ("User-Agent"@, "Rust-podcastindex-org-example/v1.0"@),
        ("X-Auth-Date"@, decimal(time as nat)),
        ("X-Auth-Key"@, key),
        ("Authorization"@, api_token(key, secret, time)),
    ]
}

/// The request for `address` followed by `query`, percent-encoded.
pub open spec fn api_request(
    address: Seq<char>,
    query: Seq<char>,
    key: Seq<char>,
    secret: Seq<char>,
    time: u64,
    request: ApiRequest,
) -> bool {
    &&& request.url@ == address + percent_encoded(encode_utf8(query))
    &&& pairs_view(request.headers@) == api_headers(key, secret, time)
}

/// The headers of a request to the index at `time`.
pub fn build_api_headers(key: &str, secret: &str, time: u64) -> (headers: Vec<(String, String)>)
    ensures
        pairs_view(headers@) == api_headers(key@, secret@, time),
{
    let api_time = u64_to_string(time);
    let mut data4hash = String::from_str(key);
    data4hash.append(secret);
    data4hash.append(api_time.as_str());
    let authorization_token = sha1_digest(data4hash.as_str().as_bytes());
    let api_hash = to_hex_lower(authorization_token.as_slice());
    let mut headers: Vec<(String, String)> = Vec::new();
    headers.push(
        (String::from_str("User-Agent"), String::from_str("Rust-podcastindex-org-example/v1.0")),
    );
    headers.push((String::from_str("X-Auth-Date"), api_time));
    headers.push((String::from_str("X-Auth-Key"), String::from_str(key)));
    headers.push((String::from_str("Authorization"), api_hash));
    assert(pairs_view(headers@) =~= api_headers(key@, secret@, time));
    headers
}

/// The request for `address` followed by `query`, percent-encoded.
fn build_api_request(address: &str, query: &str, key: &str, secret: &str, time: u64) -> (request:
    ApiRequest)
    ensures
        api_request(address@, query@, key@, secret@, time, request),
{
    let mut url = String::from_str(address);
    let encoded = url_encode(query);
    url.append(encoded.as_str());
    ApiRequest { url, headers: build_api_headers(key, secret, time) }
}

/// Asks for the podcast with the feed id `query`.
pub fn api_get_podcast(key: &str, secret: &str, query: &str, time: u64) -> (request: ApiRequest)
    ensures
        api_request(
            "https://api.podcastindex.org/api/1.0/podcasts/byfeedid?id="@,
            query@,
            key@,
            secret@,
            time,
            request,
        ),
{
    build_api_request(
        "https://api.podcastindex.org/api/1.0/podcasts/byfeedid?id=",
        query,
        key,
        secret,
        time,
    )
}

/// Asks the hub to read the feed with the id `query` anew.
pub fn api_hub_rescan(key: &str, secret: &str, query: &str, time: u64) -> (request: ApiRequest)
    ensures
        api_request(
            "https://hub.podcastindex.org/pubnotify?id="@,
            query@,
            key@,
            secret@,
            time,
            request,
        ),
{
    build_api_request("https://hub.podcastindex.org/pubnotify?id=", query, key, secret, time)
}

/// Asks for the episodes of the feed with the id `query`.
pub fn api_get_episodes(key: &str, secret: &str, query: &str, time: u64) -> (request: ApiRequest)
    ensures
        api_request(
            "https://api.podcastindex.org/api/1.0/episodes/byfeedid?id="@,
            query@,
            key@,
            secret@,
            time,
            request,
        ),
{
    build_api_request(
        "https://api.podcastindex.org/api/1.0/episodes/byfeedid?id=",
        query,
        key,
        secret,
        time,
    )
}

/// Asks for the episodes of the feed with the id `query`, for a caller
/// that waits for the answer.
pub fn api_block_get_episodes(key: &str, secret: &str, query: &str, time: u64) -> (request:
    ApiRequest)
    ensures
        api_request(
            "https://api.podcastindex.org/api/1.0/episodes/byfeedid?id="@,
            query@,
            key@,
            secret@,
            time,
            request,
        ),
{
    api_get_episodes(key, secret, query, time)
}

/// Asks for the episode `guid` of the feed with the id `query`.
pub fn api_get_episode(key: &str, secret: &str, query: &str, guid: &str, time: u64) -> (request:
    ApiRequest)
    ensures
        request.url@ == "https://api.podcastindex.org/api/1.0/episodes/byguid?guid="@
            + percent_encoded(encode_utf8(guid@)) + "&feedid="@ + percent_encoded(
            encode_utf8(query@),
        ),
        pairs_view(request.headers@) == api_headers(key@, secret@, time),
{
    let mut url = String::from_str("https://api.podcastindex.org/api/1.0/episodes/byguid?guid=");
    let encoded_guid = url_encode(guid);
    url.append(encoded_guid.as_str());
    url.append("&feedid=");
    let encoded_query = url_encode(query);
    url.append(encoded_query.as_str());
    ApiRequest { url, headers: build_api_headers(key, secret, time) }
}

/// Asks for the live items of the feed at the address `query`.
pub fn api_block_get_live_items(key: &str, secret: &str, query: &str, time: u64) -> (request:
    ApiRequest)
    ensures
        api_request(
            "https://api.podcastindex.org/api/1.0/live/byfeedurl?url="@,
            query@,
            key@,
            secret@,
            time,
            request,
        ),
{
    build_api_request(
        "https://api.podcastindex.org/api/1.0/live/byfeedurl?url=",
        query,
        key,
        secret,
        time,
    )
}

} // verus!
