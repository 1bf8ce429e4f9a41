use sendspin_vst3::config::{
    candidate_url, client_id_path, configure_client_name, configure_server_url,
    default_client_name, judge_url, load_or_create_client_id, normalize_build_version,
    normalize_client_name, normalize_server_url, plugin_version, stored_client_id,
    try_normalize_server_url, UrlParts, UrlVerdict,
};

fn parts(scheme: &str, host: Option<&str>, path: &str) -> UrlParts {
    UrlParts {
        scheme: scheme.to_string(),
        host: host.map(str::to_string),
        path: path.to_string(),
        text: String::new(),
    }
}

#[test]
fn normalize_client_name_rejects_empty() {
    assert!(normalize_client_name("   ").is_none());
}

#[test]
fn normalize_server_url_adds_default_path_and_scheme() {
    let url = normalize_server_url("localhost:8927").expect("url should normalize");
    assert_eq!(url, "ws://localhost:8927/sendspin");
}

#[test]
fn normalize_server_url_rewrites_https() {
    let url = normalize_server_url("https://example.com").expect("url should normalize");
    assert_eq!(url, "wss://example.com/sendspin");
}

#[test]
fn normalize_server_url_rewrites_http() {
    assert_eq!(
        normalize_server_url("  http://example.com/room  ").as_deref(),
        Some("ws://example.com/room")
    );
}

#[test]
fn normalize_server_url_keeps_path_and_query() {
    assert_eq!(
        normalize_server_url("ws://example.com:9000/a?b=c").as_deref(),
        Some("ws://example.com:9000/a?b=c")
    );
    assert_eq!(
        normalize_server_url("ws://example.com?b=c#d").as_deref(),
        Some("ws://example.com/sendspin?b=c#d")
    );
}

#[test]
fn normalize_server_url_lowers_host_and_drops_default_port() {
    assert_eq!(
        normalize_server_url("WSS://EXAMPLE.com:443").as_deref(),
        Some("wss://example.com/sendspin")
    );
}

#[test]
fn normalize_server_url_rejects_others() {
    assert!(normalize_server_url("").is_none());
    assert!(normalize_server_url(" \t\n").is_none());
    assert!(normalize_server_url("ftp://example.com").is_none());
    assert!(normalize_server_url("HTTP://example.com").is_none());
    assert!(normalize_server_url("ws://").is_none());
    assert!(normalize_server_url("ws://exa mple.com").is_none());
}

#[test]
fn normalized_urls_stand_for_themselves() {
    for raw in [
        "localhost",
        "192.168.1.20:8927",
        "[::1]:8927/x",
        "https://user:pw@example.com/a b?c d#e f",
        "ws://b\u{fc}cher.example/\u{3000}x",
        "ws://1.2.3/../a/./b/",
        "ws://:@host",
        "ws://h%41st/%2e%2e/x",
        "ws:/\\host\\p",
    ] {
        let url = try_normalize_server_url(raw).expect("a URL");
        assert_eq!(try_normalize_server_url(&url).as_deref(), Some(url.as_str()));
        assert!(url.starts_with("ws://") || url.starts_with("wss://"));
        assert!(!url.chars().any(char::is_whitespace));
    }
}

#[test]
fn repeated_http_is_stripped() {
    assert_eq!(candidate_url("http://http://a"), "ws://a");
    assert_eq!(candidate_url("https://https://a"), "wss://a");
    assert_eq!(candidate_url(" a:1 "), "ws://a:1");
    assert_eq!(candidate_url("udp://a"), "udp://a");
}

#[test]
fn bare_host_and_ws_host_are_the_same_server() {
    for host in ["example.com", "10.0.0.1:99", "[fe80::1]"] {
        assert_eq!(
            try_normalize_server_url(host),
            try_normalize_server_url(&format!("ws://{host}"))
        );
        assert_eq!(
            try_normalize_server_url(&format!("http://{host}")),
            try_normalize_server_url(&format!("ws://{host}"))
        );
        assert_eq!(
            try_normalize_server_url(&format!("https://{host}")),
            try_normalize_server_url(&format!("wss://{host}"))
        );
    }
}

#[test]
fn url_verdicts() {
    assert!(matches!(judge_url(&parts("http", Some("a"), "/")), UrlVerdict::Reject));
    assert!(matches!(judge_url(&parts("ws", None, "/")), UrlVerdict::Reject));
    assert!(matches!(judge_url(&parts("ws", Some("a"), "")), UrlVerdict::AddDefaultPath));
    assert!(matches!(judge_url(&parts("wss", Some("a"), "/")), UrlVerdict::AddDefaultPath));
    assert!(matches!(judge_url(&parts("wss", Some("a"), "/b")), UrlVerdict::Keep));
}

#[test]
fn client_name_is_trimmed_and_cut() {
    assert_eq!(normalize_client_name(" \u{3000}Studio \n").as_deref(), Some("Studio"));
    let long = "\u{e9}".repeat(81);
    assert_eq!(normalize_client_name(&long), Some("\u{e9}".repeat(80)));
    let exact = "x".repeat(80);
    assert_eq!(normalize_client_name(&exact), Some(exact));
}

#[test]
fn client_name_is_stable_unless_cut_before_space() {
    let name = normalize_client_name("  Kitchen left  ").expect("a name");
    assert_eq!(normalize_client_name(&name).as_deref(), Some(name.as_str()));
    let cut = normalize_client_name(&format!("{} x", "a".repeat(79))).expect("a name");
    assert_eq!(cut, format!("{} ", "a".repeat(79)));
    assert_eq!(normalize_client_name(&cut), Some("a".repeat(79)));
}

#[test]
fn default_client_name_prefers_environment() {
    assert_eq!(default_client_name(Some(" Lounge ")), "Lounge");
    assert_eq!(default_client_name(Some("  ")), "Sendspin VST");
    assert_eq!(default_client_name(None), "Sendspin VST");
}

#[test]
fn configured_settings_fall_back() {
    assert_eq!(configure_client_name("Deck", Some("Lounge")), "Deck");
    assert_eq!(configure_client_name("", Some("Lounge")), "Lounge");
    assert_eq!(configure_client_name("", None), "Sendspin VST");
    assert_eq!(configure_server_url("host"), "ws://host/sendspin");
    assert_eq!(configure_server_url("gopher://host"), "");
}

#[test]
fn stored_identity_is_kept() {
    for text in [
        "67e5504410b1426f9247bb680e5fe0c8",
        "67e55044-10b1-426f-9247-bb680e5fe0c8",
        "{67E55044-10B1-426F-9247-BB680E5FE0C8}",
        "urn:uuid:67e55044-10b1-426f-9247-bb680e5fe0c8",
        "URN:UUID:67e55044-10b1-426f-9247-bb680e5fe0c8",
    ] {
        let id = load_or_create_client_id(Some(&format!(" {text}\n")));
        assert_eq!(id.text, text);
        assert!(!id.fresh);
        assert_eq!(stored_client_id(Some(text)).as_deref(), Some(text));
    }
}

#[test]
fn broken_identity_is_replaced() {
    for text in [
        "",
        "not a uuid",
        "67e5504410b1426f9247bb680e5fe0c",
        "67e55044-10b1-426f-9247-bb680e5fe0cg",
        "67e55044-10b1-426f-9247bb-680e5fe0c8",
        "{67e55044-10b1-426f-9247-bb680e5fe0c8",
        "{67e5504410b1426f9247bb680e5fe0c8}",
        "urn:uuid:67e5504410b1426f9247bb680e5fe0c8",
        "urn-uuid:67e55044-10b1-426f-9247-bb680e5fe0c8",
    ] {
        assert!(stored_client_id(Some(text)).is_none(), "{}", text);
        assert!(load_or_create_client_id(Some(text)).fresh);
    }
    assert!(stored_client_id(None).is_none());
}

#[test]
fn new_identity_is_random_and_found_again() {
    let first = load_or_create_client_id(None);
    let second = load_or_create_client_id(None);
    assert!(first.fresh && second.fresh);
    assert_ne!(first.text, second.text);
    for id in [first.text, second.text] {
        assert_eq!(id.len(), 36);
        assert_eq!(id.as_bytes()[14], b'4');
        assert!(matches!(id.as_bytes()[19], b'8' | b'9' | b'a' | b'b'));
        assert_eq!(id, id.to_lowercase());
        let again = load_or_create_client_id(Some(&id));
        assert_eq!(again.text, id);
        assert!(!again.fresh);
    }
}

#[test]
fn identity_lies_below_the_configuration_directory() {
    assert_eq!(client_id_path(true), vec!["sendspin-vst3", "client_id"]);
    assert_eq!(client_id_path(false), vec!["sendspin-vst3-client-id"]);
}

#[test]
fn version_comes_from_the_release_tag() {
    assert_eq!(normalize_build_version("0.2.1").as_deref(), Some("0.2.1"));
    assert_eq!(normalize_build_version(" v0.2.1\n").as_deref(), Some("0.2.1"));
    assert_eq!(normalize_build_version("vv1").as_deref(), Some("v1"));
    assert_eq!(normalize_build_version("v").as_deref(), Some(""));
    assert!(normalize_build_version("  ").is_none());
    assert_eq!(plugin_version(Some("v0.2.1"), "0.5.0"), "0.2.1");
    assert_eq!(plugin_version(Some(" "), "0.5.0"), " ");
    assert_eq!(plugin_version(None, "0.5.0"), "0.5.0");
}

#[test]
fn hosts_are_read_back_up_to_their_longest() {
    let spread = |count: u32| -> String {
        (0..count).filter_map(|i| char::from_u32(0x4e00 + 20 * i)).collect()
    };
    let short = try_normalize_server_url(&spread(600)).expect("a URL");
    assert!(short.len() < 2_004);
    assert_eq!(try_normalize_server_url(&short), Some(short));
    let long = try_normalize_server_url(&spread(1_000)).expect("a URL");
    assert!(long.len() > 2_004 + "ws:///sendspin".len());
    assert!(try_normalize_server_url(&long).is_none());
    let ascii = try_normalize_server_url(&"a".repeat(3_000)).expect("a URL");
    assert_eq!(try_normalize_server_url(&ascii), Some(ascii));
    let labels = vec![spread(500); 3].join(".");
    let many = try_normalize_server_url(&labels).expect("a URL");
    assert!(many.len() > 3 * 1_000 && many.starts_with("ws://xn--"));
    assert_eq!(try_normalize_server_url(&many), Some(many));
}

#[test]
fn scheme_alone_is_no_server() {
    for raw in ["", "ws://", "wss://", "http://", "https://"] {
        assert!(try_normalize_server_url(raw).is_none());
    }
}
