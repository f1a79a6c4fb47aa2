//! HTTP message signatures as servers of the fediverse expect them: the
//! draft "Signing HTTP Messages" with `rsa-sha256`.

use vstd::prelude::*;
use vstd::string::*;
use vstd::utf8::encode_utf8;
use crate::base64::{encode, standard_encoding};
use crate::crypto_rsa::{
    create_rsa_sha256_signature, public_half, rsa_sha256_accepts, rsa_sha256_signature,
    RsaPrivateKey,
};
use crate::text::{lowercase, to_lowercase};
use crate::urls::{option_view, parse_url, url_parts};

verus! {

broadcast use vstd::string::group_string_axioms;

/// The headers that a signed request carries. Each is sent as it stands
/// here: the signature is made over these very values.
#[derive(Debug)]
pub struct HttpSignatureHeaders {
    pub host: String,
    pub date: String,
    pub digest: Option<String>,
    pub signature: String,
}

/// The mathematical value of [`HttpSignatureHeaders`].
pub struct HttpSignatureHeadersView {
    pub host: Seq<char>,
    pub date: Seq<char>,
    pub digest: Option<Seq<char>>,
    pub signature: Seq<char>,
}

impl View for HttpSignatureHeaders {
    type V = HttpSignatureHeadersView;

    open spec fn view(&self) -> HttpSignatureHeadersView {
        HttpSignatureHeadersView {
            host: self.host@,
            date: self.date@,
            digest: option_view(self.digest),
            signature: self.signature@,
        }
    }
}

/// Why a request could not be signed.
#[derive(Debug)]
pub enum HttpSignatureError {
    /// The request URL is no absolute URL or has no host.
    UrlError(String),
    /// The key could not sign.
    SigningError(String),
}

impl HttpSignatureError {
    /// The error in words.
    pub fn to_string(&self) -> (shown: String)
        ensures
            shown@ == match *self {
                HttpSignatureError::UrlError(_) => "invalid request url"@,
                HttpSignatureError::SigningError(_) => "signing error"@,
            },
    {
        match self {
            HttpSignatureError::UrlError(_) => String::from_str("invalid request url"),
            HttpSignatureError::SigningError(_) => String::from_str("signing error"),
        }
    }
}

/// The two ways in which signing fails.
pub enum SigningRefusal {
    Url,
    Signing,
}

/// The way of failing that an error stands for.
pub open spec fn refusal_of(e: HttpSignatureError) -> SigningRefusal {
    match e {
        HttpSignatureError::UrlError(_) => SigningRefusal::Url,
        HttpSignatureError::SigningError(_) => SigningRefusal::Signing,
    }
}

/// The SHA-256 digest of `data`.
pub uninterp spec fn sha256(data: Seq<u8>) -> Seq<u8>;

/// Computes the SHA-256 digest of `data`.
///
/// Trusted: `Digest::digest` of `Sha256` of `sha2`, a function of the bytes
/// alone; its result is named [`sha256`].
#[verifier::external_body]
fn sha256_digest(data: &[u8]) -> (digest: Vec<u8>)
    ensures
        digest@ == sha256(data@),
{
    <::sha2::Sha256 as ::sha2::Digest>::digest(data).to_vec()
}

/// The time of the call as an HTTP date, such as
/// `Tue, 07 Jun 2022 20:51:35 GMT`.
///
/// Trusted: `Utc::now` of `chrono`, formatted with
/// `%a, %d %b %Y %T GMT`. The result depends on the clock: nothing is said
/// of it.
#[verifier::external_body]
fn http_date_now() -> (date: String) {
    ::chrono::Utc::now().format("%a, %d %b %Y %T GMT").to_string()
}

/// The base64 text of the SHA-256 digest of `message`.
pub open spec fn message_digest(message: Seq<char>) -> Seq<char> {
    standard_encoding(sha256(encode_utf8(message)))
}

/// The value of the `Digest` header for `body`: none for an empty body.
pub open spec fn digest_value(body: Seq<char>) -> Option<Seq<char>> {
    if body.len() == 0 {
        None
    } else {
        Some("SHA-256="@ + message_digest(body))
    }
}

/// The pseudo-header `(request-target)`: the method in lower case, a space
/// and the path.
pub open spec fn request_target(method: Seq<char>, path: Seq<char>) -> Seq<char> {
    lowercase(method) + " "@ + path
}

/// The text that is signed: one line for the request target, the host and
/// the date, in this order, and a last one for the digest where there is
/// one; a line feed between the lines and none at the end.
pub open spec fn signing_string(
    target: Seq<char>,
    host: Seq<char>,
    date: Seq<char>,
    digest: Option<Seq<char>>,
) -> Seq<char> {
    let head = "(request-target): "@ + target + "\nhost: "@ + host + "\ndate: "@ + date;
    match digest {
        Some(value) => head + "\ndigest: "@ + value,
        None => head,
    }
}

/// The names of the signed headers, in the order of the signed text.
pub open spec fn signed_headers(with_digest: bool) -> Seq<char> {
    if with_digest {
        "(request-target) host date digest"@
    } else {
        "(request-target) host date"@
    }
}

/// The value of the `Signature` header.
pub open spec fn signature_header(key_id: Seq<char>, with_digest: bool, signature: Seq<char>) -> Seq<
    char,
> {
    "keyId=\""@ + key_id + "\",algorithm=\"rsa-sha256\",headers=\""@ + signed_headers(with_digest)
        + "\",signature=\""@ + signature + "\""@
}

/// The text that the headers `headers` of a request with `method` and
/// `path` are signed by: what a verifier computes from the request it
/// received.
pub open spec fn signed_text(
    method: Seq<char>,
    path: Seq<char>,
    headers: HttpSignatureHeadersView,
) -> Seq<char> {
    signing_string(request_target(method, path), headers.host, headers.date, headers.digest)
}

/// The headers that sign the request at time `date`, or the way in which
/// signing fails.
pub open spec fn http_signature(
    method: Seq<char>,
    url: Seq<char>,
    body: Seq<char>,
    key: Seq<u8>,
    key_id: Seq<char>,
    date: Seq<char>,
) -> Result<HttpSignatureHeadersView, SigningRefusal> {
    match url_parts(url) {
        None => Err(SigningRefusal::Url),
        Some(parts) => match parts.host {
            None => Err(SigningRefusal::Url),
            Some(host) => {
                let digest = digest_value(body);
                let message = signing_string(request_target(method, parts.path), host, date, digest);
                match rsa_sha256_signature(key, encode_utf8(message)) {
                    None => Err(SigningRefusal::Signing),
                    Some(signature) => Ok(
                        HttpSignatureHeadersView {
                            host,
                            date,
                            digest,
                            signature: signature_header(
                                key_id,
                                digest is Some,
                                standard_encoding(signature),
                            ),
                        },
                    ),
                }
            },
        },
    }
}

/// Whether `signed` is what signing the request at time `date` gives.
pub open spec fn is_http_signature(
    signed: Result<HttpSignatureHeaders, HttpSignatureError>,
    method: Seq<char>,
    url: Seq<char>,
    body: Seq<char>,
    key: Seq<u8>,
    key_id: Seq<char>,
    date: Seq<char>,
) -> bool {
    match signed {
        Ok(headers) => http_signature(method, url, body, key, key_id, date) == Ok::<
            HttpSignatureHeadersView,
            SigningRefusal,
        >(headers@),
        Err(e) => http_signature(method, url, body, key, key_id, date) == Err::<
            HttpSignatureHeadersView,
            SigningRefusal,
        >(refusal_of(e)),
    }
}

/// Whether the headers carry a signature that the public half of `key`
/// accepts for the text that a verifier computes from the request.
pub open spec fn verifies(
    headers: HttpSignatureHeadersView,
    method: Seq<char>,
    url: Seq<char>,
    key: Seq<u8>,
    key_id: Seq<char>,
) -> bool {
    exists|signature: Seq<u8>, public: Seq<u8>|
        {
            &&& url_parts(url) is Some
            &&& public_half(key) == Some(public)
            &&& headers.signature == signature_header(
                key_id,
                headers.digest is Some,
                standard_encoding(signature),
            )
            &&& #[trigger] rsa_sha256_accepts(
                public,
                encode_utf8(signed_text(method, url_parts(url)->Some_0.path, headers)),
                signature,
            )
        }
}

/// The signature covers the digest: two requests with one target, host and
/// date whose digests differ are signed by different texts. A receiver that
/// computes another digest from the body it got thus checks the signature
/// against another text than the one that was signed.
pub proof fn lemma_digest_is_signed(
    target: Seq<char>,
    host: Seq<char>,
    date: Seq<char>,
    sent: Seq<char>,
    received: Seq<char>,
)
    requires
        sent != received,
    ensures
        signing_string(target, host, date, Some(sent)) != signing_string(
            target,
            host,
            date,
            Some(received),
        ),
        signing_string(target, host, date, Some(sent)) != signing_string(target, host, date, None),
{
    let head = "(request-target): "@ + target + "\nhost: "@ + host + "\ndate: "@ + date;
    let lead = head + "\ndigest: "@;
    reveal_strlit("\ndigest: ");
    if lead + sent == lead + received {
        assert(sent =~= (lead + sent).skip(lead.len() as int));
        assert(received =~= (lead + received).skip(lead.len() as int));
    }
    assert((lead + sent).len() > head.len());
}

/// The base64 text of the SHA-256 digest of `message`.
pub fn get_message_digest(message: &str) -> (digest: String)
    ensures
        digest@ == message_digest(message@),
{
    let digest = sha256_digest(message.as_bytes());
    encode(digest.as_slice())
}

/// Builds the text that is signed.
pub fn build_signing_string(target: &str, host: &str, date: &str, digest: &Option<String>) -> (message:
    String)
    ensures
        message@ == signing_string(target@, host@, date@, option_view(*digest)),
{
    let mut message = String::from_str("(request-target): ");
    message.append(target);
    message.append("\nhost: ");
    message.append(host);
    message.append("\ndate: ");
    message.append(date);
    match digest {
        Some(value) => {
            message.append("\ndigest: ");
            message.append(value.as_str());
        },
        None => {},
    }
    message
}

/// Builds the value of the `Signature` header.
pub fn build_signature_header(key_id: &str, with_digest: bool, signature: &str) -> (header: String)
    ensures
        header@ == signature_header(key_id@, with_digest, signature@),
{
    let mut header = String::from_str("keyId=\"");
    header.append(key_id);
    header.append("\",algorithm=\"rsa-sha256\",headers=\"");
    if with_digest {
        header.append("(request-target) host date digest");
    } else {
        header.append("(request-target) host date");
    }
    header.append("\",signature=\"");
    header.append(signature);
    header.append("\"");
    header
}

/// Signs a request as at the time `date`.
///
/// The result is exactly [`http_signature`]. Where headers come back, the
/// signature in them is accepted under the public half of the key for the
/// text that a verifier computes from the method, the path and these
/// headers.
pub fn create_http_signature_at(
    request_method: &str,
    request_url: &str,
    request_body: &str,
    signer_key: &RsaPrivateKey,
    signer_key_id: &str,
    date: &str,
) -> (signed: Result<HttpSignatureHeaders, HttpSignatureError>)
    ensures
        is_http_signature(
            signed,
            request_method@,
            request_url@,
            request_body@,
            signer_key@,
            signer_key_id@,
            date@,
        ),
        signed matches Ok(headers) ==> verifies(
            headers@,
            request_method@,
            request_url@,
            signer_key@,
            signer_key_id@,
        ),
{
    let parts = match parse_url(request_url) {
        Ok(parts) => parts,
        Err(message) => {
            return Err(HttpSignatureError::UrlError(message));
        },
    };
    let method = to_lowercase(request_method);
    let mut target = method;
    target.append(" ");
    target.append(parts.path.as_str());
    let host = match parts.host {
        Some(host) => host,
        None => {
            return Err(HttpSignatureError::UrlError(String::from_str("empty host")));
        },
    };
    let maybe_digest = if request_body.is_empty() {
        None
    } else {
        let mut digest = String::from_str("SHA-256=");
        let hashed = get_message_digest(request_body);
        digest.append(hashed.as_str());
        Some(digest)
    };
    let message = build_signing_string(target.as_str(), host.as_str(), date, &maybe_digest);
    let signature = match create_rsa_sha256_signature(signer_key, message.as_str()) {
        Ok(signature) => signature,
        Err(e) => {
            return Err(HttpSignatureError::SigningError(e.0));
        },
    };
    let signature_parameter = encode(signature.as_slice());
    let signature_header = build_signature_header(
        signer_key_id,
        maybe_digest.is_some(),
        signature_parameter.as_str(),
    );
    let headers = HttpSignatureHeaders {
        host,
        date: String::from_str(date),
        digest: maybe_digest,
        signature: signature_header,
    };
    proof {
        let public = public_half(signer_key@)->Some_0;
        assert(rsa_sha256_accepts(
            public,
            encode_utf8(
                signed_text(request_method@, url_parts(request_url@)->Some_0.path, headers@),
            ),
            signature@,
        ));
    }
    Ok(headers)
}

/// Signs a request as at the time of the call.
///
/// The date is read from the clock; for the date that the headers carry,
/// the result is what [`create_http_signature_at`] gives.
pub fn create_http_signature(
    request_method: &str,
    request_url: &str,
    request_body: &str,
    signer_key: &RsaPrivateKey,
    signer_key_id: &str,
) -> (signed: Result<HttpSignatureHeaders, HttpSignatureError>)
    ensures
        exists|date: Seq<char>|
            is_http_signature(
                signed,
                request_method@,
                request_url@,
                request_body@,
                signer_key@,
                signer_key_id@,
                date,
            ),
        signed matches Ok(headers) ==> is_http_signature(
            signed,
            request_method@,
            request_url@,
            request_body@,
            signer_key@,
            signer_key_id@,
            headers.date@,
        ) && verifies(headers@, request_method@, request_url@, signer_key@, signer_key_id@),
{
    let date = http_date_now();
    let signed = create_http_signature_at(
        request_method,
        request_url,
        request_body,
        signer_key,
        signer_key_id,
        date.as_str(),
    );
    assert(is_http_signature(
        signed,
        request_method@,
        request_url@,
        request_body@,
        signer_key@,
        signer_key_id@,
        date@,
    ));
    signed
}

} // verus!
