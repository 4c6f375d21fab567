//! A theme controller for a web page, verified with Verus.
//!
//! The controller keeps one preference, the name of a theme such as `dark`
//! or `light`. It records the name in the page's cookie string, where it
//! outlives the page, and shows it as the `data-theme` attribute of the
//! document's root element, where style sheets pick it up.
//!
//! The controller reaches the page through a [`Host`] that the caller hands
//! in, so that each operation is a function of the host it is given:
//! [`init_theme_system`] shows the recorded theme, [`set_theme`] shows and
//! records a new one, [`get_current_theme`] reads the recorded one. None of
//! them fails: where the page lacks what an operation needs, the operation
//! does nothing, or answers with the default theme `dark`.
//!
//! - [`text`]: white space and trimming.
//! - [`cookie`]: the cookie string, how the theme is read from it, and the
//!   entry that records a theme.
//! - [`host`]: the page as the controller sees it.
//! - [`controller`]: the operations.
//! - [`live`]: the current theme as the page shows it.
//! - [`laws`]: what holds of the operations together.

pub mod controller;
pub mod cookie;
pub mod host;
pub mod laws;
pub mod live;
pub mod text;

pub use controller::{get_current_theme, init_theme_system, set_theme};
pub use host::Host;
