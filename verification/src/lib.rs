//! Terminal logic of Xfce Terminal that can be decided without a display:
//! the command line, the link table, screen titles, the child process a
//! screen starts, and the application's fixed resources.

use vstd::prelude::*;

pub mod reference;
pub mod text;
pub mod bytes;
pub mod paths;
pub mod cli;
pub mod links;
pub mod screen;
pub mod screen_colors;
pub mod child;
pub mod accelerators;
pub mod localization;
pub mod preferences;
pub mod preference_schema;
pub mod fields;
pub mod colors;

verus! {

/// The GLib log domain the terminal reports under.
pub const LOG_DOMAIN: &'static str = "xfce4-terminal";

/// The status line of the development build: the release version and its
/// short revision.
pub open spec fn candidate_status_text() -> Seq<char> {
    "xfce4-terminal Rust candidate for "@ + reference::REFERENCE_VERSION@ + " ("@
        + reference::BASELINE_COMMIT@.subrange(0, 8) + ")"@
}

/// Returns the status line the development build prints.
pub fn candidate_status() -> (status: String)
    ensures
        status@ == candidate_status_text(),
{
    let mut status = String::from_str("xfce4-terminal Rust candidate for ");
    status.append(reference::REFERENCE_VERSION);
    status.append(" (");
    status.append(reference::short_revision());
    status.append(")");
    status
}

} // verus!
