use xfce4_terminal::reference::{
    baseline_commit, short_revision, BASELINE_COMMIT, DBUS_INTERFACE, DBUS_METHOD, DBUS_PATH,
    DBUS_SERVICE, REFERENCE_VERSION,
};
use xfce4_terminal::{candidate_status, LOG_DOMAIN};

#[test]
fn candidate_status_names_the_frozen_reference() {
    assert_eq!(
        candidate_status(),
        "xfce4-terminal Rust candidate for 1.2.0-dev (b5933b80)"
    );
}

#[test]
fn reference_identity_matches_the_frozen_c_release() {
    assert_eq!(BASELINE_COMMIT, "b5933b80d28ca35f873df8da2998e23be5f4e104");
    assert_eq!(REFERENCE_VERSION, "1.2.0-dev");
}

#[test]
fn dbus_identity_matches_the_existing_wire_contract() {
    assert_eq!(DBUS_SERVICE, "org.xfce.Terminal5");
    assert_eq!(DBUS_INTERFACE, "org.xfce.Terminal5");
    assert_eq!(DBUS_PATH, "/org/xfce/Terminal");
    assert_eq!(DBUS_METHOD, "Launch");
}

#[test]
fn the_short_revision_is_the_first_eight_characters_of_the_commit() {
    assert_eq!(baseline_commit(), BASELINE_COMMIT);
    assert_eq!(short_revision(), "b5933b80");
}

#[test]
fn the_log_domain_is_the_application_name() {
    assert_eq!(LOG_DOMAIN, "xfce4-terminal");
}
