//! The override marker: the property that tags an entry as produced by this
//! tool, how it is stamped into content, and how a stamped entry is recognised.
use vstd::prelude::*;
use vstd::string::*;
use crate::text::{chars_of, contains_chars, contains_seq, find_seq, first_occurrence, lemma_first_occurrence, occurs_at};

verus! {

/// The reserved key whose presence marks an entry as generated.
pub const MARKER_KEY: &'static str = "X-XDG-Desktop-File-Override-Version";

/// The version written as the marker's value.
pub const TOOL_VERSION: &'static str = "0.1.0";

/// The header of the main section, after which the marker is placed.
pub const SECTION_HEADER: &'static str = "[Desktop Entry]";

/// The text inserted into an entry: a line break, then `key=version`.
pub open spec fn marker_line() -> Seq<char> {
    "\n"@ + MARKER_KEY@ + "="@ + TOOL_VERSION@
}

/// Where the marker goes: just past the first section header, or at the
/// very start of the content when there is no header.
pub open spec fn insertion_point(content: Seq<char>) -> int {
    match first_occurrence(content, SECTION_HEADER@) {
        Some(i) => i + SECTION_HEADER@.len(),
        None => 0,
    }
}

/// The content carries the marker key.
pub open spec fn is_marked(content: Seq<char>) -> bool {
    contains_seq(content, MARKER_KEY@)
}

/// Content as the writer stores it: unchanged when it already carries the
/// marker key, otherwise with the marker line inserted at the insertion point.
pub open spec fn stamped(content: Seq<char>) -> Seq<char> {
    if is_marked(content) {
        content
    } else {
        let p = insertion_point(content);
        content.take(p) + marker_line() + content.skip(p)
    }
}

/// Whether `content` carries the marker key (any value of it).
pub fn is_generated(content: &str) -> (r: bool)
    ensures
        r == is_marked(content@),
{
    let hay = chars_of(content);
    let key = chars_of(MARKER_KEY);
    contains_chars(&hay, &key)
}

/// The content to store for an override: the marker inserted right after
/// the `[Desktop Entry]` header unless the key is already there.
pub fn stamp(content: &str) -> (r: String)
    ensures
        r@ == stamped(content@),
{
    let hay = chars_of(content);
    let key = chars_of(MARKER_KEY);
    if contains_chars(&hay, &key) {
        return content.to_string();
    }
    let header = chars_of(SECTION_HEADER);
    let n = hay.len();
    let pos: usize = match find_seq(&hay, &header) {
        Some(i) => i + header.len(),
        None => 0,
    };
    let mut r = String::from_str(content.substring_char(0, pos));
    r.append("\n");
    r.append(MARKER_KEY);
    r.append("=");
    r.append(TOOL_VERSION);
    r.append(content.substring_char(pos, n));
    assert(r@ =~= stamped(content@));
    r
}

/// A stamped entry is always recognised as generated.
pub proof fn lemma_stamped_is_marked(content: Seq<char>)
    ensures
        is_marked(stamped(content)),
{
    if !is_marked(content) {
        lemma_first_occurrence(content, SECTION_HEADER@);
        let p = insertion_point(content);
        let s = stamped(content);
        reveal_strlit("\n");
        let k = MARKER_KEY@.len();
        assert(s.subrange(p + 1, p + 1 + k) =~= MARKER_KEY@);
        assert(occurs_at(s, MARKER_KEY@, p + 1));
    }
}

} // verus!
