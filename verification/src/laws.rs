//! What holds of reading, choosing and initialising together.

use crate::controller::{default_theme, initialized, preferred_theme, recorded_theme, themed};
use crate::cookie::{
    first_segment, is_segment, lemma_first_segment_ends, lemma_segment_len, names_theme,
    persisted_theme, segment_len, theme_entry, theme_value,
};
use crate::host::HostView;
use crate::text::{
    is_whitespace, lemma_trim_end_cuts, lemma_trim_end_keeps, lemma_trim_start_cuts, trim,
    trim_end,
};
use vstd::prelude::*;

verus! {

/// Trimming cuts `s` down to the stretch from its first to its last
/// character that is no white space, which is empty where `s` holds white
/// space only. The result gives where that stretch begins and ends.
pub proof fn law_trim_cuts_white_space_only(s: Seq<char>) -> (bounds: (int, int))
    ensures
        0 <= bounds.0 <= bounds.1 <= s.len(),
        trim(s) == s.subrange(bounds.0, bounds.1),
        forall|k: int| 0 <= k < bounds.0 ==> is_whitespace(s[k]),
        forall|k: int| bounds.1 <= k < s.len() ==> is_whitespace(s[k]),
        bounds.0 < bounds.1 ==> !is_whitespace(s[bounds.0]) && !is_whitespace(s[bounds.1 - 1]),
{
    let from: int = lemma_trim_start_cuts(s);
    let rest = s.skip(from);
    let kept: int = lemma_trim_end_cuts(rest);
    assert forall|k: int| from + kept <= k < s.len() implies is_whitespace(s[k]) by {
        assert(s[k] == rest[k - from]);
    }
    (from, from + kept)
}

/// Whether `s[from..to]` is the first segment of `s`, among those that begin
/// at `start` or later, that names the theme.
pub open spec fn is_first_match(s: Seq<char>, start: int, from: int, to: int) -> bool {
    &&& start <= from
    &&& is_segment(s, from, to)
    &&& names_theme(s.subrange(from, to))
    &&& forall|f: int, t: int|
        start <= f < from && #[trigger] is_segment(s, f, t) ==> !names_theme(s.subrange(f, t))
}

/// Whether no segment of `s` that begins at `start` or later names the theme.
pub open spec fn no_match(s: Seq<char>, start: int) -> bool {
    forall|f: int, t: int|
        start <= f && #[trigger] is_segment(s, f, t) ==> !names_theme(s.subrange(f, t))
}

/// What is read behind a segment boundary is the value of the first segment
/// from there on that names the theme, and nothing where none does.
pub proof fn lemma_read_from(s: Seq<char>, start: int)
    requires
        0 <= start <= s.len(),
        start == 0 || s[start - 1] == ';',
    ensures
        match persisted_theme(s.skip(start)) {
            Some(value) => exists|from: int, to: int| #[trigger]
                is_first_match(s, start, from, to) && value == theme_value(s.subrange(from, to)),
            None => no_match(s, start),
        },
    decreases s.len() - start,
{
    let rest = s.skip(start);
    lemma_first_segment_ends(rest);
    let end: int = start + segment_len(rest);
    assert(first_segment(rest) =~= s.subrange(start, end));
    assert(is_segment(s, start, end)) by {
        assert forall|k: int| start <= k < end implies s[k] != ';' by {
            assert(s[k] == rest[k - start]);
        }
    }
    // Every segment from `start` on is this one, or begins behind its `;`:
    // there is no `;` before `end` to end the one or to begin the other.
    assert forall|f: int, t: int| start <= f && is_segment(s, f, t) implies (f == start && t
        == end) || end < f by {}
    if names_theme(s.subrange(start, end)) {
        assert(is_first_match(s, start, start, end));
    } else if end < s.len() {
        assert(rest.skip(end - start + 1) =~= s.skip(end + 1));
        lemma_read_from(s, end + 1);
        match persisted_theme(s.skip(end + 1)) {
            Some(value) => {
                let (from, to): (int, int) = choose|from: int, to: int| #[trigger]
                    is_first_match(s, end + 1, from, to) && value == theme_value(
                        s.subrange(from, to),
                    );
                assert(is_first_match(s, start, from, to));
            },
            None => {},
        }
    }
}

/// First match wins: the theme read from a cookie string is the value of the
/// first of its segments that names the theme.
pub proof fn law_first_match_wins(cookies: Seq<char>)
    ensures
        match persisted_theme(cookies) {
            Some(value) => exists|from: int, to: int| #[trigger]
                is_first_match(cookies, 0, from, to) && value == theme_value(
                    cookies.subrange(from, to),
                ),
            None => no_match(cookies, 0),
        },
{
    assert(cookies.skip(0) =~= cookies);
    lemma_read_from(cookies, 0);
}

/// A cookie string records no theme exactly when none of its segments
/// names the theme.
pub proof fn law_absent_without_segment(cookies: Seq<char>)
    ensures
        persisted_theme(cookies) is None <==> no_match(cookies, 0),
{
    law_first_match_wins(cookies);
    if persisted_theme(cookies) is Some {
        let value = persisted_theme(cookies)->0;
        let (from, to): (int, int) = choose|from: int, to: int| #[trigger]
            is_first_match(cookies, 0, from, to) && value == theme_value(
                cookies.subrange(from, to),
            );
    }
}

/// Whether a theme name comes back from the cookie string as it went in:
/// it holds no `;`, which would end the pair, and does not end in white
/// space, which trimming would take off.
pub open spec fn survives_recording(name: Seq<char>) -> bool {
    &&& forall|k: int| 0 <= k < name.len() ==> name[k] != ';'
    &&& name.len() == 0 || !is_whitespace(name.last())
}

/// What comes back of a name is the name exactly when it survives recording.
pub proof fn lemma_survives_recording(name: Seq<char>)
    ensures
        trim_end(first_segment(name)) == name <==> survives_recording(name),
{
    lemma_first_segment_ends(name);
    lemma_trim_end_keeps(first_segment(name));
    if forall|k: int| 0 <= k < name.len() ==> name[k] != ';' {
        lemma_segment_len(name, name.len() as int);
        assert(first_segment(name) =~= name);
    }
}

/// The cookie jar keeps of an entry `theme=` and the name up to its first
/// `;`, and drops the attributes.
pub proof fn lemma_pair_of_entry(name: Seq<char>)
    ensures
        first_segment(theme_entry(name)) == "theme="@ + first_segment(name),
{
    reveal_strlit("theme=");
    reveal_strlit("; path=/; max-age=31536000");
    lemma_first_segment_ends(name);
    let kept: int = segment_len(name) as int;
    let entry = theme_entry(name);
    lemma_segment_len(entry, 6 + kept);
}

/// Trimming a pair at the end trims the value and leaves `theme=` alone.
pub proof fn lemma_trim_end_of_pair(value: Seq<char>)
    ensures
        trim_end("theme="@ + value) == "theme="@ + trim_end(value),
    decreases value.len(),
{
    reveal_strlit("theme=");
    let pair = "theme="@ + value;
    if value.len() > 0 && is_whitespace(value.last()) {
        assert(pair.drop_last() =~= "theme="@ + value.drop_last());
        lemma_trim_end_of_pair(value.drop_last());
    }
}

/// A cookie string that begins with a pair without `;`, and ends there or
/// goes on with a `;`, records the pair's value without the white space
/// that it ends in.
pub proof fn lemma_leading_pair_is_read(value: Seq<char>, cookies: Seq<char>)
    requires
        forall|k: int| 0 <= k < value.len() ==> value[k] != ';',
        ("theme="@ + value).is_prefix_of(cookies),
        cookies.len() == 6 + value.len() || cookies[6 + value.len() as int] == ';',
    ensures
        persisted_theme(cookies) == Some(trim_end(value)),
{
    reveal_strlit("theme=");
    let pair = "theme="@ + value;
    assert forall|k: int| 0 <= k < pair.len() implies cookies[k] != ';' by {
        assert(cookies[k] == cookies.subrange(0, pair.len() as int)[k]);
    }
    lemma_segment_len(cookies, pair.len() as int);
    lemma_trim_end_of_pair(value);
}

/// What is recorded once a theme was chosen, on every host with a cookie
/// jar: the name up to its first `;`, without the white space that this
/// ends in.
pub proof fn law_recorded_after_choice(host: HostView, name: Seq<char>)
    requires
        host.cookie_jar() is Some,
    ensures
        recorded_theme(themed(host, name)) == Some(trim_end(first_segment(name))),
{
    reveal_strlit("theme=");
    reveal_strlit("; ");
    lemma_pair_of_entry(name);
    lemma_first_segment_ends(name);
    lemma_leading_pair_is_read(first_segment(name), themed(host, name).cookies()->0);
}

/// Choosing a theme and then asking for the current one gives the chosen
/// name back: on every host with a cookie jar, for every name that
/// survives recording.
pub proof fn law_chosen_theme_is_current(host: HostView, name: Seq<char>)
    requires
        host.cookie_jar() is Some,
        survives_recording(name),
    ensures
        preferred_theme(themed(host, name)) == name,
{
    law_recorded_after_choice(host, name);
    lemma_survives_recording(name);
}

/// Where the chosen name does not come back: a name that does not survive
/// recording comes back shortened, and without a cookie jar the current
/// theme stays the default.
pub proof fn law_chosen_theme_is_lost(host: HostView, name: Seq<char>)
    ensures
        host.cookie_jar() is Some && !survives_recording(name) ==> preferred_theme(
            themed(host, name),
        ) != name,
        host.cookie_jar() is None ==> preferred_theme(themed(host, name)) == default_theme(),
{
    if host.cookie_jar() is Some {
        law_recorded_after_choice(host, name);
        lemma_survives_recording(name);
    }
}

/// A chosen theme outlives the page: on the next page load the root element
/// shows no theme until the theme system is initialised, and the chosen one
/// from then on.
pub proof fn law_chosen_theme_survives_reload(host: HostView, name: Seq<char>)
    requires
        host.cookie_jar() is Some,
        host.has_root(),
        survives_recording(name),
    ensures
        themed(host, name).reloaded().root_theme() is None,
        initialized(themed(host, name).reloaded()).root_theme() == Some(name),
{
    law_chosen_theme_is_current(host, name);
}

/// Initialising a page that records no theme shows `dark` on its root
/// element.
pub proof fn law_initialize_defaults_to_dark(host: HostView)
    requires
        host.has_root(),
        recorded_theme(host) is None,
    ensures
        initialized(host).root_theme() == Some("dark"@),
{
}

/// Initialising a page that records a theme shows that theme on its root
/// element.
pub proof fn law_initialize_shows_recorded(host: HostView, theme: Seq<char>)
    requires
        host.has_root(),
        recorded_theme(host) == Some(theme),
    ensures
        initialized(host).root_theme() == Some(theme),
{
}

/// Initialising writes nothing to the cookie jar, and changes nothing at
/// all where the host has no root element.
pub proof fn law_initialize_only_shows(host: HostView)
    ensures
        initialized(host).cookie_jar() == host.cookie_jar(),
        !host.has_root() ==> initialized(host) == host,
{
}

/// A host whose cookie string has no segment that names the theme records
/// none, and its current theme is `dark`.
pub proof fn law_default_without_segment(host: HostView)
    requires
        host.cookies() matches Some(cookies) ==> no_match(cookies, 0),
    ensures
        recorded_theme(host) is None,
        preferred_theme(host) == "dark"@,
{
    if host.cookies() is Some {
        law_absent_without_segment(host.cookies()->0);
    }
}

/// The root element's `data-theme`, when present after a theme was applied,
/// is the theme applied last: applying sets it wherever there is a root
/// element and leaves the cookie jar alone, and writing to the cookie jar
/// does not touch it.
pub proof fn law_attribute_is_last_applied(host: HostView, theme: Seq<char>, entry: Seq<char>)
    ensures
        host.with_root_theme(theme).root_theme() == if host.has_root() {
            Some(theme)
        } else {
            None
        },
        host.with_root_theme(theme).has_root() == host.has_root(),
        host.with_root_theme(theme).cookie_jar() == host.cookie_jar(),
        host.with_cookie(entry).root_theme() == host.root_theme(),
        host.with_cookie(entry).has_root() == host.has_root(),
{
}

/// Choosing a theme shows it on the root element, where there is one, and
/// writes one entry to the cookie jar, where there is one: `theme=` and the
/// name, the root path, and a retention of a year.
pub proof fn law_choice_is_shown_and_written(host: HostView, name: Seq<char>)
    ensures
        host.has_root() ==> themed(host, name).root_theme() == Some(name),
        !host.has_root() ==> themed(host, name).root_theme() is None,
        host.cookie_jar() matches Some(jar) ==> themed(host, name).cookie_jar() == Some(
            jar.write("theme="@ + name + "; path=/; max-age=31536000"@),
        ),
        host.cookie_jar() is None ==> themed(host, name).cookie_jar() is None,
{
}

/// Without a document nothing can be chosen or shown: choosing and
/// initialising leave the host as it is, and the current theme is the
/// default.
pub proof fn law_detached_host(host: HostView, name: Seq<char>)
    requires
        host.document is None,
    ensures
        themed(host, name) == host,
        initialized(host) == host,
        preferred_theme(host) == default_theme(),
{
}

} // verus!
