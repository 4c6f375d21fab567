//! The current theme read from the page itself instead of the cookie
//! string. The controller's own reading is
//! [`get_current_theme`](crate::controller::get_current_theme), which goes
//! by what is recorded; this one goes by what the root element shows, and
//! serves pages where something else keeps the record.

use crate::controller::{default_theme, initialized, preferred_theme};
use crate::host::{Host, HostView};
use vstd::prelude::*;
use vstd::string::StringExecFns;

verus! {

/// The theme that the page shows: the root element's `data-theme`, and the
/// default where the document, the element or the attribute is missing.
pub open spec fn shown_theme(host: HostView) -> Seq<char> {
    match host.root_theme() {
        Some(theme) => theme,
        None => default_theme(),
    }
}

/// The current theme as the page shows it, read from the root element and
/// not from the cookie string. The two readings may differ until the theme
/// system is initialised.
pub fn get_current_theme(host: &Host) -> (theme: String)
    ensures
        theme@ == shown_theme(host@),
{
    match host.root_theme() {
        Some(theme) => String::from_str(theme),
        None => String::from_str("dark"),
    }
}

/// Once the theme system is initialised on a page with a root element, the
/// page shows the theme that the cookie string records: both readings of
/// the current theme agree.
pub proof fn law_readings_agree_once_initialized(host: HostView)
    requires
        host.has_root(),
    ensures
        shown_theme(initialized(host)) == preferred_theme(initialized(host)),
        shown_theme(initialized(host)) == preferred_theme(host),
{
}

} // verus!
