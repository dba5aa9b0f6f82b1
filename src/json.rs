use vstd::prelude::*;

verus! {

/// `s` written as a JSON string literal, quotes and escapes included.
pub uninterp spec fn json_string(s: Seq<char>) -> Seq<char>;

/// A character that a JSON string literal holds as itself: not a quote, not a
/// backslash, and not a control character below U+0020.
pub open spec fn json_plain_char(c: char) -> bool {
    c != '"' && c != '\\' && (c as u32) >= 0x20
}

/// Every character of `s` stands as itself in a JSON string literal.
pub open spec fn json_plain(s: Seq<char>) -> bool {
    forall|k: int| 0 <= k < s.len() ==> json_plain_char(#[trigger] s[k])
}

/// `s` between double quotes.
pub open spec fn quoted(s: Seq<char>) -> Seq<char> {
    seq!['"'] + s + seq!['"']
}

/// Relies on `serde_json::to_string` applied to a `str`: it writes into a
/// `Vec<u8>`, which cannot fail, the JSON string literal for it, which depends
/// on the characters alone; only `"`, `\` and characters below U+0020 are
/// escaped, every other character is written as it is.
#[verifier::external_body]
pub(crate) fn json_quote(s: &str) -> (r: Result<String, String>)
    ensures
        r is Ok,
        r matches Ok(q) ==> q@ == json_string(s@),
        r matches Ok(q) ==> (json_plain(s@) ==> q@ == quoted(s@)),
{
    match serde_json::to_string(s) {
        Ok(q) => Ok(q),
        Err(e) => Err(e.to_string()),
    }
}

} // verus!
