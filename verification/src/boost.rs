//! A record of a boost, and how its texts are made safe for display.

use vstd::prelude::*;
use vstd::string::*;
use crate::dbif::HydraError;
use crate::text::{chars_of, push_char};

verus! {

broadcast use vstd::string::group_string_axioms;

/// A boost as it was received.
#[derive(Debug)]
pub struct BoostRecord {
    pub index: u64,
    pub time: i64,
    pub value_msat: i64,
    pub value_msat_total: i64,
    pub action: u8,
    pub sender: String,
    pub app: String,
    pub message: String,
    pub podcast: String,
    pub episode: String,
    pub tlv: String,
    pub remote_podcast: Option<String>,
    pub remote_episode: Option<String>,
}

#[verifier::external_type_specification]
#[verifier::external_body]
pub struct ExJsonValue(serde_json::Value);

/// What stands for `c` in HTML text: the entity for `&`, `<` and `>`, the
/// character itself for any other.
pub open spec fn html_escape(c: char) -> Seq<char> {
    if c == '&' {
        "&amp;"@
    } else if c == '<' {
        "&lt;"@
    } else if c == '>' {
        "&gt;"@
    } else {
        seq![c]
    }
}

/// The text `s` with each character as it stands in HTML text.
pub open spec fn html_escaped(s: Seq<char>) -> Seq<char>
    decreases s.len(),
{
    if s.len() == 0 {
        s
    } else {
        html_escaped(s.drop_last()) + html_escape(s.last())
    }
}

/// What stands for `c` in a quoted field of a CSV line: two quotes for a
/// quote, a space for a line feed, the character itself for any other.
pub open spec fn csv_escape(c: char) -> Seq<char> {
    if c == '"' {
        "\"\""@
    } else if c == '\n' {
        " "@
    } else {
        seq![c]
    }
}

/// The text `s` with each character as it stands in a quoted field of a
/// CSV line.
pub open spec fn csv_escaped(s: Seq<char>) -> Seq<char>
    decreases s.len(),
{
    if s.len() == 0 {
        s
    } else {
        csv_escaped(s.drop_last()) + csv_escape(s.last())
    }
}

/// The words with which `text` is refused as JSON; `None` where it is
/// JSON.
pub uninterp spec fn json_refusal(text: Seq<char>) -> Option<Seq<char>>;

/// Reads a JSON text.
///
/// Trusted: `serde_json::from_str` for a `Value`; where it fails, its error
/// in words. Whether a text is read, and with which words it is refused,
/// depends on the text alone and is named [`json_refusal`]. The value is
/// opaque here: nothing is said of it.
#[verifier::external_body]
fn json_from_str(text: &str) -> (read: Result<serde_json::Value, String>)
    ensures
        read is Ok <==> json_refusal(text@) is None,
        read matches Err(words) ==> json_refusal(text@) == Some(words@),
{
    ::serde_json::from_str::<::serde_json::Value>(text).map_err(|e| e.to_string())
}

impl BoostRecord {
    /// Makes a text safe to show in HTML: `&`, `<` and `>` become their
    /// entities.
    pub fn escape_for_html(field: String) -> (escaped: String)
        ensures
            escaped@ == html_escaped(field@),
    {
        let chars = chars_of(field.as_str());
        let mut escaped = String::new();
        let mut i: usize = 0;
        assert(field@.take(0) =~= Seq::empty());
        while i < chars.len()
            invariant
                i <= chars.len(),
                chars@ == field@,
                escaped@ == html_escaped(field@.take(i as int)),
            decreases chars.len() - i,
        {
            assert(field@.take(i + 1).drop_last() =~= field@.take(i as int));
            assert(field@.take(i + 1).last() == chars[i as int]);
            let c = chars[i];
            if c == '&' {
                escaped.append("&amp;");
            } else if c == '<' {
                escaped.append("&lt;");
            } else if c == '>' {
                escaped.append("&gt;");
            } else {
                let ghost earlier = escaped@;
                push_char(&mut escaped, c);
                assert(escaped@ =~= earlier + seq![c]);
            }
            i += 1;
        }
        assert(field@.take(field@.len() as int) =~= field@);
        escaped
    }

    /// Makes a text safe for a quoted field of a CSV line: a quote is
    /// doubled and a line feed becomes a space.
    pub fn escape_for_csv(field: String) -> (escaped: String)
        ensures
            escaped@ == csv_escaped(field@),
    {
        let chars = chars_of(field.as_str());
        let mut escaped = String::new();
        let mut i: usize = 0;
        assert(field@.take(0) =~= Seq::empty());
        while i < chars.len()
            invariant
                i <= chars.len(),
                chars@ == field@,
                escaped@ == csv_escaped(field@.take(i as int)),
            decreases chars.len() - i,
        {
            assert(field@.take(i + 1).drop_last() =~= field@.take(i as int));
            assert(field@.take(i + 1).last() == chars[i as int]);
            let c = chars[i];
            if c == '"' {
                escaped.append("\"\"");
            } else if c == '\n' {
                escaped.append(" ");
            } else {
                let ghost earlier = escaped@;
                push_char(&mut escaped, c);
                assert(escaped@ =~= earlier + seq![c]);
            }
            i += 1;
        }
        assert(field@.take(field@.len() as int) =~= field@);
        escaped
    }

    /// Reads the TLV record of the boost, which is JSON. A record that is
    /// JSON is read, and only such a one; any other gives an error with
    /// the words of the JSON reader. What the value holds is the affair of
    /// the JSON reader.
    pub fn parse_tlv(&self) -> (read: Result<serde_json::Value, HydraError>)
        ensures
            read is Ok <==> json_refusal(self.tlv@) is None,
            read matches Err(e) ==> json_refusal(self.tlv@) == Some(e.0@),
    {
        match json_from_str(self.tlv.as_str()) {
            Ok(value) => Ok(value),
            Err(text) => Err(HydraError(text)),
        }
    }
}

} // verus!
