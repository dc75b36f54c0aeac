use vstd::prelude::*;

verus! {

/// Whether JSON writes the character as it stands inside a string: it is
/// neither a control character, nor a double quote, nor a backslash.
pub open spec fn json_plain_char(c: char) -> bool {
    c as u32 >= 0x20 && c != '"' && c != '\\'
}

/// Whether every character of `text` stands for itself in a JSON string.
pub open spec fn json_plain(text: Seq<char>) -> bool {
    forall|i: int| 0 <= i < text.len() ==> json_plain_char(#[trigger] text[i])
}

/// `text` between two double quotes.
pub open spec fn json_quoted(text: Seq<char>) -> Seq<char> {
    seq!['"'] + text + seq!['"']
}

/// `value`, a string that JSON writes as it stands, as a JSON string.
///
/// Trusted: calls `serde_json::to_string` on a `str`. The serialiser
/// writes a double quote, the characters of the string and a double
/// quote into a vector of bytes, and escapes control characters, double
/// quotes and backslashes only: a string without them comes out
/// unchanged between the quotes. For a `str` nothing in it can fail but
/// a write, and a write into a vector appends; so there is always a
/// text.
#[verifier::external_body]
pub(crate) fn json_string(value: &str) -> (text: Option<String>)
    requires
        json_plain(value@),
    ensures
        text is Some,
        text->Some_0@ == json_quoted(value@),
{
    serde_json::to_string(value).ok()
}

} // verus!
