//! The cookie string of a page: pairs `name=value` separated by `;`. The
//! theme is the value of the first pair named `theme`.

use crate::text::{chars_of, starts_with, trim, trim_bounds};
use vstd::prelude::*;
use vstd::string::StrSliceExecFns;
use vstd::string::StringExecFns;

verus! {

/// The number of characters of `s` before its first `;`: all of them where
/// it has none.
pub open spec fn segment_len(s: Seq<char>) -> nat
    decreases s.len(),
{
    if s.len() == 0 || s[0] == ';' {
        0
    } else {
        1 + segment_len(s.skip(1))
    }
}

/// The first segment of `s`: what stands before its first `;`.
pub open spec fn first_segment(s: Seq<char>) -> Seq<char> {
    s.take(segment_len(s) as int)
}

/// Whether `s[from..to]` is one of the `;`-separated segments of `s`: it
/// begins at the start or behind a `;`, ends at the end or before a `;`, and
/// holds none.
pub open spec fn is_segment(s: Seq<char>, from: int, to: int) -> bool {
    &&& 0 <= from <= to <= s.len()
    &&& from == 0 || s[from - 1] == ';'
    &&& to == s.len() || s[to] == ';'
    &&& forall|k: int| from <= k < to ==> s[k] != ';'
}

/// Whether a segment records the theme: trimmed, it begins with `theme=`.
pub open spec fn names_theme(segment: Seq<char>) -> bool {
    "theme="@.is_prefix_of(trim(segment))
}

/// The value that a segment records: what follows `theme=` in its trimmed
/// form.
pub open spec fn theme_value(segment: Seq<char>) -> Seq<char> {
    trim(segment).skip("theme="@.len() as int)
}

/// The theme that a cookie string records: the value of the first of its
/// `;`-separated segments that names the theme, if any does.
pub open spec fn persisted_theme(cookies: Seq<char>) -> Option<Seq<char>>
    decreases cookies.len(),
{
    let n: int = segment_len(cookies) as int;
    if names_theme(first_segment(cookies)) {
        Some(theme_value(first_segment(cookies)))
    } else if n < cookies.len() {
        persisted_theme(cookies.skip(n + 1))
    } else {
        None
    }
}

/// The entry that records `theme`, as it is handed to the cookie jar:
/// the pair, then the root path and a retention of 365 days in seconds.
pub open spec fn theme_entry(theme: Seq<char>) -> Seq<char> {
    "theme="@ + theme + "; path=/; max-age=31536000"@
}

/// A stretch without `;` that ends at a `;` or at the end is the first segment.
pub proof fn lemma_segment_len(s: Seq<char>, n: int)
    requires
        0 <= n <= s.len(),
        forall|k: int| 0 <= k < n ==> s[k] != ';',
        n == s.len() || s[n] == ';',
    ensures
        segment_len(s) == n,
    decreases n,
{
    if n > 0 {
        lemma_segment_len(s.skip(1), n - 1);
    }
}

/// The first segment holds no `;`, and ends at one or at the end.
pub proof fn lemma_first_segment_ends(s: Seq<char>)
    ensures
        segment_len(s) <= s.len(),
        forall|k: int| 0 <= k < segment_len(s) ==> s[k] != ';',
        segment_len(s) == s.len() || s[segment_len(s) as int] == ';',
    decreases s.len(),
{
    if s.len() > 0 && s[0] != ';' {
        lemma_first_segment_ends(s.skip(1));
        assert forall|k: int| 0 <= k < segment_len(s) implies s[k] != ';' by {
            if k > 0 {
                assert(s[k] == s.skip(1)[k - 1]);
            }
        }
    }
}

/// Where the first `;` of `chars` at or after `from` stands:
/// `chars.len()` where there is none.
pub(crate) fn segment_end(chars: &Vec<char>, from: usize) -> (end: usize)
    requires
        from <= chars.len(),
    ensures
        from <= end <= chars.len(),
        end - from == segment_len(chars@.skip(from as int)),
{
    let mut end: usize = from;
    while end < chars.len() && chars[end] != ';'
        invariant
            from <= end <= chars.len(),
            forall|k: int| from <= k < end ==> chars@[k] != ';',
        decreases chars.len() - end,
    {
        end = end + 1;
    }
    proof {
        lemma_segment_len(chars@.skip(from as int), end - from);
    }
    end
}

/// Reads the theme out of a cookie string.
pub fn read_persisted(cookie_string: &str) -> (theme: Option<String>)
    ensures
        match theme {
            Some(value) => persisted_theme(cookie_string@) == Some(value@),
            None => persisted_theme(cookie_string@) is None,
        },
{
    let chars = chars_of(cookie_string);
    let name = chars_of("theme=");
    let ghost s = cookie_string@;
    let mut start: usize = 0;
    assert(s.skip(0) =~= s);
    loop
        invariant
            start <= chars.len(),
            chars@ == s,
            s == cookie_string@,
            name@ == "theme="@,
            persisted_theme(s) == persisted_theme(s.skip(start as int)),
        decreases chars.len() - start,
    {
        let end: usize = segment_end(&chars, start);
        let (a, b): (usize, usize) = trim_bounds(&chars, start, end);
        assert(first_segment(s.skip(start as int)) =~= s.subrange(start as int, end as int));
        if starts_with(&chars, a, b, &name) {
            let value = cookie_string.substring_char(a + name.len(), b);
            return Some(String::from_str(value));
        }
        if end >= chars.len() {
            return None;
        }
        assert(s.skip(start as int).skip(end - start + 1) =~= s.skip(end + 1));
        start = end + 1;
    }
}

/// Writes the entry that records `theme`.
pub fn persisted_entry(theme: &str) -> (entry: String)
    ensures
        entry@ == theme_entry(theme@),
{
    let mut entry = String::from_str("theme=");
    entry.append(theme);
    entry.append("; path=/; max-age=31536000");
    entry
}

} // verus!
