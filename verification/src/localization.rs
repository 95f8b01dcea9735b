//! The gettext configuration of the application.

use vstd::prelude::*;

verus! {

/// The gettext domain of the application's messages.
pub const GETTEXT_DOMAIN: &'static str = "xfce4-terminal";

/// The encoding messages are delivered in.
pub const CHARSET: &'static str = "UTF-8";

/// Where the message catalogs are looked for when the build names no place.
pub const DEFAULT_LOCALE_DIR: &'static str = "/usr/local/share/locale";

/// Returns the catalog directory the build configured, or the default one.
pub fn locale_dir(configured: Option<&'static str>) -> (directory: &'static str)
    ensures
        directory == match configured {
            Some(d) => d,
            None => DEFAULT_LOCALE_DIR,
        },
{
    match configured {
        Some(d) => d,
        None => DEFAULT_LOCALE_DIR,
    }
}

} // verus!
