//! The operations of the theme controller.

use crate::cookie::{persisted_entry, persisted_theme, read_persisted, theme_entry};
use crate::host::{Host, HostView};
use vstd::prelude::*;
use vstd::string::StringExecFns;

verus! {

/// The theme of a page that records none.
pub open spec fn default_theme() -> Seq<char> {
    "dark"@
}

/// The theme that the host's cookie string records: `None` where it
/// records none, and where no document or no cookie jar is available.
pub open spec fn recorded_theme(host: HostView) -> Option<Seq<char>> {
    match host.cookies() {
        Some(cookies) => persisted_theme(cookies),
        None => None,
    }
}

/// The theme to show: the recorded one, else the default.
pub open spec fn preferred_theme(host: HostView) -> Seq<char> {
    match recorded_theme(host) {
        Some(theme) => theme,
        None => default_theme(),
    }
}

/// The host after the theme system was initialised: its root element shows
/// the preferred theme.
pub open spec fn initialized(host: HostView) -> HostView {
    host.with_root_theme(preferred_theme(host))
}

/// The host after `theme_name` was chosen: its root element shows it, and
/// its cookie jar was written the entry that records it.
pub open spec fn themed(host: HostView, theme_name: Seq<char>) -> HostView {
    host.with_root_theme(theme_name).with_cookie(theme_entry(theme_name))
}

/// Shows `theme` on the page: sets it as the root element's `data-theme`.
/// Does nothing where the host has no root element.
pub fn apply_theme(host: &mut Host, theme: &str)
    ensures
        final(host)@ == old(host)@.with_root_theme(theme@),
{
    host.set_root_theme(theme);
}

/// Reads the recorded theme from the host's cookie string.
pub fn get_theme_cookie(host: &Host) -> (theme: Option<String>)
    ensures
        match theme {
            Some(value) => recorded_theme(host@) == Some(value@),
            None => recorded_theme(host@) is None,
        },
{
    match host.cookie() {
        Some(cookie_string) => read_persisted(cookie_string),
        None => None,
    }
}

/// Records `theme` in the host's cookie jar, for the whole site and for a
/// year. Does nothing where the host has no cookie jar.
pub fn save_theme_preference(host: &mut Host, theme: &str)
    ensures
        final(host)@ == old(host)@.with_cookie(theme_entry(theme@)),
{
    let cookie = persisted_entry(theme);
    host.set_cookie(cookie.as_str());
}

/// The theme to show: the recorded one, else the default.
pub fn get_preferred_theme(host: &Host) -> (theme: String)
    ensures
        theme@ == preferred_theme(host@),
{
    match get_theme_cookie(host) {
        Some(saved_theme) => saved_theme,
        None => String::from_str("dark"),
    }
}

/// Brings the page in line with the recorded preference: shows the
/// preferred theme on the root element.
pub fn init_theme_system(host: &mut Host)
    ensures
        final(host)@ == initialized(old(host)@),
{
    let theme = get_preferred_theme(host);
    apply_theme(host, theme.as_str());
}

/// Chooses a theme: shows it on the page and records it. The name is taken
/// as it is, whatever it holds. The result is always `true`: it does not
/// tell whether the host had a page to show the theme on or a jar to
/// record it in.
pub fn set_theme(host: &mut Host, theme_name: &str) -> (done: bool)
    ensures
        done,
        final(host)@ == themed(old(host)@, theme_name@),
{
    apply_theme(host, theme_name);
    save_theme_preference(host, theme_name);
    true
}

/// The current theme: the recorded one, else the default.
pub fn get_current_theme(host: &Host) -> (theme: String)
    ensures
        theme@ == preferred_theme(host@),
{
    get_preferred_theme(host)
}

} // verus!
