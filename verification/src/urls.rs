//! The parts of a URL that the engine reads: host, path and query pairs.

use vstd::prelude::*;
use vstd::string::*;
use crate::text::str_eq;

verus! {

broadcast use vstd::string::group_string_axioms;

/// The parts of a parsed URL.
#[derive(Debug)]
pub struct UrlParts {
    /// The host in the form that the parser gives it (a domain in lower
    /// case, for one), where the URL has one.
    pub host: Option<String>,
    /// The path.
    pub path: String,
    /// The pairs of the query, decoded, in the order of the URL.
    pub query: Vec<(String, String)>,
}

/// The mathematical value of [`UrlParts`].
pub struct UrlPartsView {
    pub host: Option<Seq<char>>,
    pub path: Seq<char>,
    pub query: Seq<(Seq<char>, Seq<char>)>,
}

/// The pairs as pairs of character sequences.
pub open spec fn pairs_view(pairs: Seq<(String, String)>) -> Seq<(Seq<char>, Seq<char>)> {
    Seq::new(pairs.len(), |i: int| (pairs[i].0@, pairs[i].1@))
}

/// The text of an optional string.
pub open spec fn option_view(text: Option<String>) -> Option<Seq<char>> {
    match text {
        Some(s) => Some(s@),
        None => None,
    }
}

impl View for UrlParts {
    type V = UrlPartsView;

    open spec fn view(&self) -> UrlPartsView {
        UrlPartsView {
            host: option_view(self.host),
            path: self.path@,
            query: pairs_view(self.query@),
        }
    }
}

/// The parts of the absolute URL that `text` is; `None` where it is none.
pub uninterp spec fn url_parts(text: Seq<char>) -> Option<UrlPartsView>;

/// Parses an absolute URL.
///
/// Trusted: `Url::parse` of `url`, and of the URL parsed `host_str`, `path`
/// and `query_pairs`; where `Url::parse` fails, its error in words. The
/// parts are a function of the text alone and are named [`url_parts`].
#[verifier::external_body]
pub(crate) fn parse_url(text: &str) -> (parsed: Result<UrlParts, String>)
    ensures
        parsed matches Ok(parts) ==> url_parts(text@) == Some(parts@),
        parsed is Err ==> url_parts(text@) is None,
{
    let url = ::url::Url::parse(text).map_err(|e| e.to_string())?;
    Ok(
        UrlParts {
            host: url.host_str().map(|host| host.to_string()),
            path: url.path().to_string(),
            query: url.query_pairs().map(|(k, v)| (k.into_owned(), v.into_owned())).collect(),
        },
    )
}

/// The value of the first pair named `name`; the empty text where no pair
/// has that name.
pub open spec fn query_value(pairs: Seq<(Seq<char>, Seq<char>)>, name: Seq<char>) -> Seq<char>
    decreases pairs.len(),
{
    if pairs.len() == 0 {
        Seq::empty()
    } else if pairs[0].0 == name {
        pairs[0].1
    } else {
        query_value(pairs.drop_first(), name)
    }
}

/// The value of the first pair named `name`; the empty string where no pair
/// has that name.
pub fn first_query_value(pairs: &Vec<(String, String)>, name: &str) -> (value: String)
    ensures
        value@ == query_value(pairs_view(pairs@), name@),
{
    let ghost all = pairs_view(pairs@);
    let mut i: usize = 0;
    assert(all.skip(0) =~= all);
    while i < pairs.len()
        invariant
            i <= pairs.len(),
            all == pairs_view(pairs@),
            query_value(all, name@) == query_value(all.skip(i as int), name@),
        decreases pairs.len() - i,
    {
        assert(all.skip(i as int)[0] == all[i as int]);
        if str_eq(pairs[i].0.as_str(), name) {
            return pairs[i].1.clone();
        }
        assert(all.skip(i as int).drop_first() =~= all.skip(i + 1));
        i += 1;
    }
    String::new()
}

/// The pairs that the query `query` of a request holds, decoded, in the
/// order of the query.
pub uninterp spec fn query_pairs(query: Seq<char>) -> Seq<(Seq<char>, Seq<char>)>;

/// Reads the pairs of a query.
///
/// Trusted: `form_urlencoded::parse` of `url` on the bytes of the query,
/// each pair with its name and value percent-decoded. The pairs are a
/// function of the text alone and are named [`query_pairs`].
#[verifier::external_body]
pub(crate) fn parse_query(query: &str) -> (pairs: Vec<(String, String)>)
    ensures
        pairs_view(pairs@) == query_pairs(query@),
{
    ::url::form_urlencoded::parse(query.as_bytes()).into_owned().collect()
}

/// The value of the last pair named `name`; `None` where no pair has that
/// name.
pub open spec fn last_value(pairs: Seq<(Seq<char>, Seq<char>)>, name: Seq<char>) -> Option<
    Seq<char>,
>
    decreases pairs.len(),
{
    if pairs.len() == 0 {
        None
    } else if pairs.last().0 == name {
        Some(pairs.last().1)
    } else {
        last_value(pairs.drop_last(), name)
    }
}

/// The value of the last pair named `name`.
pub fn last_query_value(pairs: &Vec<(String, String)>, name: &str) -> (value: Option<String>)
    ensures
        option_view(value) == last_value(pairs_view(pairs@), name@),
{
    let ghost all = pairs_view(pairs@);
    let mut i: usize = pairs.len();
    assert(all.take(i as int) =~= all);
    while i > 0
        invariant
            i <= pairs.len(),
            all == pairs_view(pairs@),
            last_value(all, name@) == last_value(all.take(i as int), name@),
        decreases i,
    {
        assert(all.take(i as int).last() == all[i - 1]);
        if str_eq(pairs[i - 1].0.as_str(), name) {
            return Some(pairs[i - 1].1.clone());
        }
        assert(all.take(i as int).drop_last() =~= all.take(i - 1));
        i -= 1;
    }
    None
}

/// The value that a request gives to the parameter `name`: that of the
/// last pair of that name in its query. `None` for a request without a
/// query or without the parameter.
pub fn request_param(query: Option<&str>, name: &str) -> (value: Option<String>)
    ensures
        option_view(value) == match query {
            Some(text) => last_value(query_pairs(text@), name@),
            None => None,
        },
{
    match query {
        Some(text) => {
            let pairs = parse_query(text);
            last_query_value(&pairs, name)
        },
        None => None,
    }
}

/// The value that the query of `url` gives to `name`: the empty text where
/// it names none, `None` where `url` is no absolute URL.
pub open spec fn url_query_value(url: Seq<char>, name: Seq<char>) -> Option<Seq<char>> {
    match url_parts(url) {
        Some(parts) => Some(query_value(parts.query, name)),
        None => None,
    }
}

/// The host of `url`; `None` where `url` is no absolute URL or has no host.
pub fn get_host_from_url(url: String) -> (host: Option<String>)
    ensures
        option_view(host) == match url_parts(url@) {
            Some(parts) => parts.host,
            None => None,
        },
{
    match parse_url(url.as_str()) {
        Ok(parts) => parts.host,
        Err(_) => None,
    }
}

/// The value of `id` in the query of `url`.
pub fn get_id_from_url(url: String) -> (id: Option<String>)
    ensures
        option_view(id) == url_query_value(url@, "id"@),
{
    match parse_url(url.as_str()) {
        Ok(parts) => Some(first_query_value(&parts.query, "id")),
        Err(_) => None,
    }
}

/// The value of `statusid` in the query of `url`.
pub fn get_statusid_from_url(url: String) -> (statusid: Option<String>)
    ensures
        option_view(statusid) == url_query_value(url@, "statusid"@),
{
    match parse_url(url.as_str()) {
        Ok(parts) => Some(first_query_value(&parts.query, "statusid")),
        Err(_) => None,
    }
}

} // verus!
