//! The identity of the Xfce Terminal release: its commit, its version and the
//! names it uses on the session bus.

use vstd::prelude::*;

verus! {

/// Full commit ID of the release.
pub const BASELINE_COMMIT: &'static str = "b5933b80d28ca35f873df8da2998e23be5f4e104";

/// Application version at that commit.
pub const REFERENCE_VERSION: &'static str = "1.2.0-dev";

/// Session bus service claimed by the terminal server.
pub const DBUS_SERVICE: &'static str = "org.xfce.Terminal5";

/// D-Bus interface exported by the terminal server.
pub const DBUS_INTERFACE: &'static str = "org.xfce.Terminal5";

/// Object path exported by the terminal server.
pub const DBUS_PATH: &'static str = "/org/xfce/Terminal";

/// Method used by later invocations to forward their arguments.
pub const DBUS_METHOD: &'static str = "Launch";

/// Returns the full commit ID of the release.
pub fn baseline_commit() -> (commit: &'static str)
    ensures
        commit@ == BASELINE_COMMIT@,
        commit.is_ascii(),
        commit@.len() == 40,
{
    proof {
        reveal_strlit("b5933b80d28ca35f873df8da2998e23be5f4e104");
    }
    BASELINE_COMMIT
}

/// The first eight characters of the commit ID: the short revision that the
/// version text and the candidate status name.
pub fn short_revision() -> (revision: &'static str)
    ensures
        revision@ == BASELINE_COMMIT@.subrange(0, 8),
{
    baseline_commit().substring_ascii(0, 8)
}

} // verus!
