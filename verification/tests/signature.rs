use ap_bridge::base64;
use ap_bridge::crypto_rsa::{generate_weak_rsa_key, verify_rsa_sha256_signature};
use ap_bridge::http_signature::{
    build_signature_header, build_signing_string, create_http_signature,
    create_http_signature_at, get_message_digest, HttpSignatureError,
};

const DATE: &str = "Tue, 07 Jun 2022 20:51:35 GMT";

fn signature_parameter(header: &str) -> Vec<u8> {
    let start = header.find("signature=\"").unwrap() + "signature=\"".len();
    let text = &header[start..header.len() - 1];
    base64::decode(text).unwrap()
}

#[test]
fn the_digest_of_a_message_is_its_sha256_in_base64() {
    assert_eq!(get_message_digest(""), "47DEQpj8HBSa+/TImW+5JCeuQeRkm5NMpJWZG3hSuFU=");
    assert_eq!(get_message_digest("abc"), "ungWv48Bz+pBQUDeXa4iI7ADYaOWF3qctBD/YfIAFa0=");
}

#[test]
fn the_signed_text_has_its_lines_in_order() {
    assert_eq!(
        build_signing_string("post /inbox", "remote.example", DATE, &Some("SHA-256=x".to_string())),
        "(request-target): post /inbox\nhost: remote.example\ndate: Tue, 07 Jun 2022 20:51:35 GMT\ndigest: SHA-256=x"
    );
    assert_eq!(
        build_signing_string("get /", "h", "d", &None),
        "(request-target): get /\nhost: h\ndate: d"
    );
}

#[test]
fn the_signature_header_names_key_algorithm_headers_and_signature() {
    assert_eq!(
        build_signature_header("https://ap.podcastindex.org/podcasts?id=42#main-key", true, "c2ln"),
        "keyId=\"https://ap.podcastindex.org/podcasts?id=42#main-key\",algorithm=\"rsa-sha256\",headers=\"(request-target) host date digest\",signature=\"c2ln\""
    );
    assert_eq!(
        build_signature_header("k", false, ""),
        "keyId=\"k\",algorithm=\"rsa-sha256\",headers=\"(request-target) host date\",signature=\"\""
    );
}

#[test]
fn a_signed_request_verifies_against_the_recomputed_text() {
    let key = generate_weak_rsa_key().unwrap();
    let body = "{\"type\": \"Create\"}";
    let headers = create_http_signature_at(
        "POST",
        "https://remote.example/users/dave/inbox?x=1",
        body,
        &key,
        "https://ap.podcastindex.org/podcasts?id=42#main-key",
        DATE,
    )
    .unwrap();
    assert_eq!(headers.host, "remote.example");
    assert_eq!(headers.date, DATE);
    assert_eq!(headers.digest, Some(format!("SHA-256={}", get_message_digest(body))));
    assert!(headers.signature.starts_with(
        "keyId=\"https://ap.podcastindex.org/podcasts?id=42#main-key\",algorithm=\"rsa-sha256\",headers=\"(request-target) host date digest\",signature=\""
    ));
    let signature = signature_parameter(&headers.signature);
    let recomputed = build_signing_string("post /users/dave/inbox", &headers.host, &headers.date, &headers.digest);
    assert!(verify_rsa_sha256_signature(&key.public_key(), &recomputed, &signature));
}

#[test]
fn a_changed_body_no_longer_matches_the_signature() {
    let key = generate_weak_rsa_key().unwrap();
    let body = "{\"type\": \"Create\"}";
    let headers = create_http_signature_at("POST", "https://remote.example/inbox", body, &key, "k", DATE).unwrap();
    let signature = signature_parameter(&headers.signature);
    for at in 0..body.len() {
        let mut bytes = body.as_bytes().to_vec();
        bytes[at] ^= 1;
        let changed = String::from_utf8(bytes).unwrap();
        let digest = Some(format!("SHA-256={}", get_message_digest(&changed)));
        assert_ne!(digest, headers.digest);
        let recomputed = build_signing_string("post /inbox", &headers.host, &headers.date, &digest);
        assert!(!verify_rsa_sha256_signature(&key.public_key(), &recomputed, &signature));
    }
}

#[test]
fn an_empty_body_has_no_digest() {
    let key = generate_weak_rsa_key().unwrap();
    let headers = create_http_signature_at("GET", "https://remote.example/users/dave", "", &key, "k", DATE).unwrap();
    assert_eq!(headers.digest, None);
    assert!(headers.signature.contains("headers=\"(request-target) host date\""));
    let signature = signature_parameter(&headers.signature);
    let recomputed = build_signing_string("get /users/dave", "remote.example", DATE, &None);
    assert!(verify_rsa_sha256_signature(&key.public_key(), &recomputed, &signature));
}

#[test]
fn a_url_without_host_cannot_be_signed() {
    let key = generate_weak_rsa_key().unwrap();
    let refused = create_http_signature_at("POST", "data:text/plain,Stuff", "b", &key, "k", DATE).unwrap_err();
    assert!(matches!(refused, HttpSignatureError::UrlError(_)));
    assert_eq!(refused.to_string(), "invalid request url");
    let refused = create_http_signature_at("POST", "/inbox", "b", &key, "k", DATE).unwrap_err();
    assert!(matches!(refused, HttpSignatureError::UrlError(_)));
}

#[test]
fn signing_now_carries_a_date_of_now() {
    let key = generate_weak_rsa_key().unwrap();
    let headers = create_http_signature("POST", "https://remote.example/inbox", "body", &key, "k").unwrap();
    assert_eq!(headers.date.len(), 29);
    assert!(headers.date.ends_with(" GMT"));
    let signature = signature_parameter(&headers.signature);
    let recomputed = build_signing_string("post /inbox", &headers.host, &headers.date, &headers.digest);
    assert!(verify_rsa_sha256_signature(&key.public_key(), &recomputed, &signature));
}
