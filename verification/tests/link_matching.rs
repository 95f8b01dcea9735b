use xfce4_terminal::links::{
    self, classify, clipboard_text, compile_errors, failures_of, first_matching_kind, is_clickable,
    kind_name,
    launch_uri, patterns, LinkKind, NEWS_MAN_INDEX,
};

#[test]
fn every_pattern_compiles_with_the_reference_options() {
    assert_eq!(compile_errors(), []);
}

#[test]
fn the_shared_definitions_appear_once_per_pattern() {
    for (index, entry) in patterns().iter().enumerate() {
        assert_eq!(
            entry.pattern.matches("(?(DEFINE)").count(),
            if index == 4 { 0 } else { 6 },
            "pattern {index} defines an unexpected number of subroutines"
        );
    }
}

#[test]
fn classification_names_match_the_reference_spelling() {
    assert_eq!(kind_name(None), "none");
    assert_eq!(kind_name(Some(LinkKind::FullHttp)), "full-http");
    assert_eq!(kind_name(Some(LinkKind::Http)), "http");
    assert_eq!(kind_name(Some(LinkKind::Email)), "email");
    assert_eq!(kind_name(Some(LinkKind::File)), "file");
}

#[test]
fn the_pattern_table_keeps_the_frozen_order_and_kinds() {
    let kinds: Vec<_> = patterns().iter().map(|pattern| pattern.kind).collect();

    assert_eq!(
        kinds,
        [
            LinkKind::FullHttp,
            LinkKind::Http,
            LinkKind::File,
            LinkKind::Email,
            LinkKind::FullHttp,
        ]
    );
}

#[test]
fn only_the_news_and_man_pattern_omits_the_shared_definitions() {
    for (index, pattern) in patterns().iter().enumerate() {
        assert_eq!(
            pattern
                .pattern
                .starts_with("(?<APOS_START>(?<='))?(?(DEFINE)"),
            index != NEWS_MAN_INDEX,
            "pattern {index} has the wrong prefix"
        );
    }
}

#[test]
fn candidates_are_classified_by_the_first_matching_pattern() {
    let expected = [
        ("https://example.com/path", Some(LinkKind::FullHttp)),
        ("HTTP://EXAMPLE.COM", Some(LinkKind::FullHttp)),
        ("http://[dead:beef::1.2.3.4]/", Some(LinkKind::FullHttp)),
        (
            "news://news.example.com/comp.lang.c",
            Some(LinkKind::FullHttp),
        ),
        ("news:comp.lang.c", Some(LinkKind::FullHttp)),
        ("man:ls(1)", Some(LinkKind::FullHttp)),
        (
            "magnet:?xt=urn:btih:0123456789abcdef",
            Some(LinkKind::FullHttp),
        ),
        ("www.example.com:81/path", Some(LinkKind::Http)),
        ("ftp.example.com/pub", Some(LinkKind::Http)),
        ("file:///tmp/example", Some(LinkKind::File)),
        ("file:/tmp/example", Some(LinkKind::File)),
        ("user@example.com", Some(LinkKind::Email)),
        ("mailto:user@example.com", Some(LinkKind::Email)),
        ("user@[::1]", Some(LinkKind::Email)),
        ("h323:user@example.com", Some(LinkKind::Email)),
        ("sips:user@example.com", Some(LinkKind::Email)),
        ("http://1.2.3.4567/", None),
        ("example.com", None),
        ("abc.www.example.com", None),
        ("user@localhost", None),
        ("gopher://example.com", None),
        ("file://", None),
        ("localhost:8080", None),
        ("not a link", None),
        ("", None),
    ];

    for (candidate, kind) in expected {
        assert_eq!(classify(candidate), kind, "candidate {candidate:?}");
    }
}

// The host each URI names is the one GLib's `g_filename_from_uri` reports
// for it, written out here; this machine's name stands in as "build-host".
const HOST_NAME: &str = "build-host";

#[test]
fn only_a_remote_file_uri_is_unclickable() {
    let expected = [
        (None, Some(LinkKind::File), true),
        (Some("localhost"), Some(LinkKind::File), true),
        (Some("LocalHost"), Some(LinkKind::File), true),
        (Some("elsewhere.invalid"), Some(LinkKind::File), false),
        (None, Some(LinkKind::File), true),
        (Some("elsewhere.invalid"), Some(LinkKind::FullHttp), true),
        (None, None, true),
    ];

    for (host, kind, clickable) in expected {
        assert_eq!(
            is_clickable(kind, host, HOST_NAME),
            clickable,
            "host {host:?} kind {kind:?}"
        );
    }
}

#[test]
fn a_remote_host_is_read_even_when_the_path_cannot_be_unescaped() {
    let expected = [
        (Some("elsewhere.invalid"), false),
        (Some("elsewhere.invalid"), false),
        (Some("elsewhere.invalid"), false),
        (Some("localhost"), true),
        (None, true),
    ];

    for (host, clickable) in expected {
        assert_eq!(
            is_clickable(Some(LinkKind::File), host, HOST_NAME),
            clickable,
            "host {host:?}"
        );
    }
}

#[test]
fn a_host_naming_this_machine_stays_clickable() {
    for host in [HOST_NAME.to_owned(), HOST_NAME.to_ascii_uppercase()] {
        assert!(
            is_clickable(Some(LinkKind::File), Some(&host), HOST_NAME),
            "host {host:?}"
        );
    }
}

#[test]
fn the_launched_uri_gains_the_scheme_its_pattern_implies() {
    let expected = [
        (
            "https://example.com/path",
            Some(LinkKind::FullHttp),
            "https://example.com/path",
        ),
        ("man:ls", Some(LinkKind::FullHttp), "man:ls"),
        (
            "file:///tmp/example",
            Some(LinkKind::File),
            "file:///tmp/example",
        ),
        (
            "www.example.com",
            Some(LinkKind::Http),
            "http://www.example.com",
        ),
        (
            "user@example.com",
            Some(LinkKind::Email),
            "mailto:user@example.com",
        ),
        (
            "mailto:user@example.com",
            Some(LinkKind::Email),
            "mailto:user@example.com",
        ),
        (
            "MAILTO:user@example.com",
            Some(LinkKind::Email),
            "mailto:MAILTO:user@example.com",
        ),
    ];

    for (candidate, kind, uri) in expected {
        assert_eq!(
            launch_uri(candidate, kind).as_deref(),
            Ok(uri),
            "candidate {candidate:?}"
        );
    }
}

#[test]
fn an_unmatched_candidate_reports_the_frozen_warning() {
    assert_eq!(
        launch_uri("not a link", None),
        Err("Invalid tag specified while trying to open link \"not a link\".".to_owned())
    );
}

#[test]
fn copying_a_link_drops_only_a_lower_case_mail_scheme() {
    assert_eq!(clipboard_text("mailto:user@example.com"), "user@example.com");
    assert_eq!(
        clipboard_text("MAILTO:user@example.com"),
        "MAILTO:user@example.com"
    );
    assert_eq!(
        clipboard_text("https://example.com/path"),
        "https://example.com/path"
    );
    assert_eq!(clipboard_text(""), "");
}

#[test]
fn copying_a_launched_mail_uri_gives_back_the_copied_address() {
    for candidate in ["user@example.com", "mailto:user@example.com", "MAILTO:x@y.org", ""] {
        let uri = launch_uri(candidate, Some(LinkKind::Email)).unwrap();
        assert!(uri.starts_with(links::MAILTO));
        assert_eq!(clipboard_text(&uri), clipboard_text(candidate));
    }
}

#[test]
fn the_first_hit_decides_and_later_entries_are_ignored() {
    assert_eq!(first_matching_kind(&[]), None);
    assert_eq!(first_matching_kind(&[false, false, false, false, false]), None);
    assert_eq!(first_matching_kind(&[false, true, true, false, false]), Some(LinkKind::Http));
    assert_eq!(first_matching_kind(&[false, false, true, true, false]), Some(LinkKind::File));
    assert_eq!(first_matching_kind(&[false, false, false, true, true]), Some(LinkKind::Email));
    assert_eq!(first_matching_kind(&[false, false, false, false, true]), Some(LinkKind::FullHttp));
    assert_eq!(first_matching_kind(&[false, false, false, false, false, true]), None);
}

#[test]
fn a_mail_address_after_an_unknown_scheme_is_still_found() {
    assert_eq!(classify("user@example.com trailing text"), Some(LinkKind::Email));
    assert_eq!(classify("see www.example.org"), Some(LinkKind::Http));
}

#[test]
fn compile_failures_keep_their_table_positions() {
    assert_eq!(failures_of(&[None, None, None, None, None]), vec![]);
    assert_eq!(failures_of(&[None, Some(-8), None, Some(-1), None]), vec![(1, -8), (3, -1)]);
    assert_eq!(failures_of(&[]), vec![]);
}
