use sendspin_vst3::mdns::{
    auto_selected_server_url, discovered_server_from_mdns, list_nothing, select_server_url,
    service_url_text, MdnsEvent, MdnsRegistry, MdnsStep, PolledMdnsCommand, ResolvedService,
    ServiceAddress,
};
use sendspin_vst3::network::{NetworkSession, PollOutcome, PolledCommand};
use sendspin_vst3::state::{
    ConnectionState, DiscoveredServer, MdnsCommand, SharedState, WorkerCommand,
};

fn server(id: &str, name: &str, url: &str) -> DiscoveredServer {
    DiscoveredServer {
        id: id.to_string(),
        name: name.to_string(),
        url: url.to_string(),
    }
}

fn address(text: &str) -> ServiceAddress {
    ServiceAddress {
        is_ipv4: !text.contains(':'),
        text: text.to_string(),
    }
}

fn service(name: &str, addresses: &[&str], path: Option<&str>) -> ResolvedService {
    ResolvedService {
        fullname: format!("{name}._sendspin-server._tcp.local."),
        addresses: addresses.iter().map(|text| address(text)).collect(),
        path: path.map(str::to_string),
        port: 8927,
    }
}

fn listed(shared: &SharedState) -> Vec<(String, String)> {
    shared.discovered_servers().into_iter().map(|s| (s.name, s.url)).collect()
}

#[test]
fn auto_select_prefers_configured_server_when_available() {
    let servers = vec![
        server("1", "A", "ws://a.local:8927/sendspin"),
        server("2", "B", "ws://b.local:8927/sendspin"),
    ];

    let selected = auto_selected_server_url("ws://b.local:8927/sendspin", &servers);
    assert_eq!(selected.as_deref(), Some("ws://b.local:8927/sendspin"));
}

#[test]
fn auto_select_falls_back_to_first_discovered_server() {
    let servers = vec![
        server("1", "A", "ws://a.local:8927/sendspin"),
        server("2", "B", "ws://b.local:8927/sendspin"),
    ];

    let selected = auto_selected_server_url("ws://missing.local:8927/sendspin", &servers);
    assert_eq!(selected.as_deref(), Some("ws://a.local:8927/sendspin"));
}

#[test]
fn auto_select_returns_none_when_no_servers() {
    let selected = auto_selected_server_url("ws://a.local:8927/sendspin", &[]);
    assert!(selected.is_none());
}

#[test]
fn auto_select_normalizes_the_configured_server() {
    let servers = vec![
        server("1", "A", "ws://a.local:8927/sendspin"),
        server("2", "B", "ws://b.local:8927/sendspin"),
    ];
    let selected = auto_selected_server_url(" http://B.local:8927 ", &servers);
    assert_eq!(selected.as_deref(), Some("ws://b.local:8927/sendspin"));
    assert_eq!(select_server_url(None, &servers).as_deref(), Some("ws://a.local:8927/sendspin"));
}

#[test]
fn service_becomes_a_server() {
    let found = discovered_server_from_mdns(&service("Den", &["10.0.0.2"], None)).expect("server");
    assert_eq!(found.id, "Den._sendspin-server._tcp.local.");
    assert_eq!(found.name, "Den");
    assert_eq!(found.url, "ws://10.0.0.2:8927/sendspin");
}

#[test]
fn service_prefers_ipv4_and_brackets_ipv6() {
    let both = service("Den", &["fe80::1", "10.0.0.2", "10.0.0.3"], None);
    assert_eq!(
        discovered_server_from_mdns(&both).expect("server").url,
        "ws://10.0.0.2:8927/sendspin"
    );
    let only = service("Den", &["fe80::1", "fe80::2"], Some("x"));
    assert_eq!(discovered_server_from_mdns(&only).expect("server").url, "ws://[fe80::1]:8927/x");
    assert!(discovered_server_from_mdns(&service("Den", &[], None)).is_none());
}

#[test]
fn service_path_gets_its_slash() {
    assert_eq!(service_url_text("h", 1, Some("/a")), "ws://h:1/a");
    assert_eq!(service_url_text("h", 65535, Some("a/b")), "ws://h:65535/a/b");
    assert_eq!(service_url_text("h", 0, Some("")), "ws://h:0/sendspin");
    assert_eq!(service_url_text("::1", 7, None), "ws://[::1]:7/sendspin");
}

#[test]
fn service_of_another_type_keeps_its_full_name() {
    let mut other = service("Den", &["10.0.0.2"], None);
    other.fullname = "Den._other._tcp.local.".to_string();
    assert_eq!(discovered_server_from_mdns(&other).expect("server").name, "Den._other._tcp.local.");
    let mut bad = service("Den", &["not a host"], None);
    bad.fullname = "Den".to_string();
    assert!(discovered_server_from_mdns(&bad).is_none());
}

#[test]
fn registry_lists_in_order_whatever_the_order_of_discovery() {
    let entries = [
        ("3", "B", "ws://b/1"),
        ("1", "A", "ws://b/2"),
        ("2", "A", "ws://b/1"),
        ("0", "B", "ws://b/1"),
    ];
    let mut orders = vec![vec![0, 1, 2, 3], vec![3, 2, 1, 0], vec![2, 0, 3, 1]];
    orders.push(vec![0, 1, 2, 3, 0, 1]);
    for order in orders {
        let mut registry = MdnsRegistry::new();
        for index in order {
            let (id, name, url) = entries[index];
            registry.insert(server(id, name, url));
        }
        let ids: Vec<String> = registry.listing().into_iter().map(|s| s.id).collect();
        assert_eq!(ids, vec!["2", "1", "0", "3"]);
    }
}

#[test]
fn registry_replaces_and_removes_by_identity() {
    let mut registry = MdnsRegistry::new();
    registry.insert(server("1", "A", "ws://a/x"));
    registry.insert(server("2", "B", "ws://b/x"));
    registry.insert(server("1", "C", "ws://c/x"));
    let names: Vec<String> = registry.listing().into_iter().map(|s| s.name).collect();
    assert_eq!(names, vec!["B", "C"]);
    registry.remove("3");
    registry.remove("2");
    let names: Vec<String> = registry.listing().into_iter().map(|s| s.name).collect();
    assert_eq!(names, vec!["C"]);
    registry.clear();
    assert!(registry.listing().is_empty());
}

#[test]
fn first_discovered_server_is_taken_up() {
    let mut shared = SharedState::new(None);
    shared.attach_worker();
    let mut session = NetworkSession::start("", "Deck", None, &mut shared);
    let mut registry = MdnsRegistry::new();
    let command = registry
        .on_event(MdnsEvent::Resolved(service("Den", &["10.0.0.2"], None)), &mut shared)
        .expect("a command");
    assert_eq!(shared.configured_server_url(), "ws://10.0.0.2:8927/sendspin");
    let outcome = session.on_polled(PolledCommand::Command(command), &mut shared);
    assert_eq!(outcome, PollOutcome::PollAgain);
    assert_eq!(session.active_server_url.as_deref(), Some("ws://10.0.0.2:8927/sendspin"));
}

#[test]
fn discovery_follows_services_and_keeps_the_configured_server() {
    let mut shared = SharedState::new(None);
    shared.attach_worker();
    let mut registry = MdnsRegistry::new();
    let den = service("Den", &["10.0.0.2"], None);
    let attic = service("Attic", &["10.0.0.3"], None);
    assert!(registry.on_event(MdnsEvent::Resolved(den), &mut shared).is_some());
    assert!(registry.on_event(MdnsEvent::Resolved(attic), &mut shared).is_none());
    assert_eq!(
        listed(&shared),
        vec![
            ("Attic".to_string(), "ws://10.0.0.3:8927/sendspin".to_string()),
            ("Den".to_string(), "ws://10.0.0.2:8927/sendspin".to_string()),
        ]
    );
    let gone = "Den._sendspin-server._tcp.local.".to_string();
    assert!(matches!(
        registry.on_event(MdnsEvent::Removed(gone), &mut shared),
        Some(WorkerCommand::SetServerUrl(url)) if url == "ws://10.0.0.3:8927/sendspin"
    ));
    assert_eq!(listed(&shared).len(), 1);
    assert!(registry.on_event(MdnsEvent::Other, &mut shared).is_none());
}

#[test]
fn discovery_leaves_a_connection_alone() {
    let mut shared = SharedState::new(None);
    shared.attach_worker();
    shared.set_connection_state(ConnectionState::Connected);
    shared.set_configured_server_url("ws://elsewhere/sendspin".to_string());
    let mut registry = MdnsRegistry::new();
    let found = MdnsEvent::Resolved(service("Den", &["10.0.0.2"], None));
    assert!(registry.on_event(found, &mut shared).is_none());
    assert_eq!(shared.configured_server_url(), "ws://elsewhere/sendspin");
    assert_eq!(listed(&shared).len(), 1);
}

#[test]
fn discovery_steps_follow_commands() {
    let mut shared = SharedState::new(None);
    let mut registry = MdnsRegistry::new();
    registry.on_event(MdnsEvent::Resolved(service("Den", &["10.0.0.2"], None)), &mut shared);
    assert_eq!(registry.on_polled(PolledMdnsCommand::Empty, &mut shared), MdnsStep::Browse);
    assert_eq!(listed(&shared).len(), 1);
    let refresh = PolledMdnsCommand::Command(MdnsCommand::Refresh);
    assert_eq!(registry.on_polled(refresh, &mut shared), MdnsStep::Restart);
    assert!(listed(&shared).is_empty() && registry.listing().is_empty());
    let shutdown = PolledMdnsCommand::Command(MdnsCommand::Shutdown);
    assert_eq!(registry.on_polled(shutdown, &mut shared), MdnsStep::Stop);
    assert_eq!(registry.on_polled(PolledMdnsCommand::Disconnected, &mut shared), MdnsStep::Stop);
    registry.on_event(MdnsEvent::Resolved(service("Den", &["10.0.0.2"], None)), &mut shared);
    list_nothing(&mut shared);
    assert!(listed(&shared).is_empty());
}

#[test]
fn repeated_events_change_nothing() {
    let mut shared = SharedState::new(None);
    let mut registry = MdnsRegistry::new();
    for _ in 0..2 {
        let found = MdnsEvent::Resolved(service("Den", &["10.0.0.2"], None));
        registry.on_event(found, &mut shared);
        assert_eq!(listed(&shared).len(), 1);
    }
    for _ in 0..2 {
        let gone = MdnsEvent::Removed("Den._sendspin-server._tcp.local.".to_string());
        registry.on_event(gone, &mut shared);
        assert!(listed(&shared).is_empty());
    }
}
