//! Field extraction: the payload of a tool-usage line is the text after the
//! first delimiter character, trimmed. Intentionally naive: no escaping, and
//! a delimiter inside the payload itself is not treated specially — the
//! first occurrence always splits the line.

use vstd::prelude::*;
use crate::text::{first_index_of, trim_spec, trim_str, find_char};

verus! {

/// The payload of a line: the text after the first `:`, trimmed; when the
/// line has no `:`, the whole line, trimmed.
pub open spec fn field_after_colon_spec(l: Seq<char>) -> Seq<char> {
    let i = first_index_of(l, ':');
    if i >= 0 {
        trim_spec(l.subrange(i + 1, l.len() as int))
    } else {
        trim_spec(l)
    }
}

/// Runtime extraction for [`field_after_colon_spec`].
pub fn field_after_colon<'a>(line: &'a str) -> (r: &'a str)
    ensures
        r@ == field_after_colon_spec(line@),
{
    let n = line.unicode_len();
    match find_char(line, ':') {
        Some(i) => trim_str(line.substring_char(i + 1, n)),
        None => trim_str(line),
    }
}

} // verus!
