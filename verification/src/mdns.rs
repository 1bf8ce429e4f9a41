//! Servers found on the network, and which of them to connect to.

use vstd::prelude::*;

use crate::config::{configure_server_url, try_normalize_server_url};
use crate::constants::{DEFAULT_SERVER_PATH, SENDSPIN_SERVER_SERVICE_TYPE};
use crate::state::{
    CommandModel, ConnectionState, DiscoveredServer, MdnsCommand, ServerModel, SharedModel,
    SharedState, WorkerCommand,
};
use crate::text::{
    contains_char, decimal_text, joined, same_text, starts_with, strip_suffix, text_at_most,
};

verus! {

// ---------------------------------------------------------------------------
// A resolved service

/// An address of a host.
#[derive(Debug)]
pub struct ServiceAddress {
    pub is_ipv4: bool,
    pub text: String,
}

/// A service that was resolved, as far as discovery reads it.
#[derive(Debug)]
pub struct ResolvedService {
    pub fullname: String,
    pub addresses: Vec<ServiceAddress>,
    /// The `path` property, where the service has one.
    pub path: Option<String>,
    pub port: u16,
}

/// The name of a service: its full name without the service type.
pub open spec fn service_name(fullname: Seq<char>) -> Seq<char> {
    let suffix = "."@ + SENDSPIN_SERVER_SERVICE_TYPE@;
    if suffix.is_suffix_of(fullname) {
        fullname.take(fullname.len() - suffix.len())
    } else {
        fullname
    }
}

/// The first IPv4 address of a list.
pub open spec fn first_ipv4(addresses: Seq<ServiceAddress>) -> Option<Seq<char>>
    decreases addresses.len(),
{
    if addresses.len() == 0 {
        None
    } else if addresses[0].is_ipv4 {
        Some(addresses[0].text@)
    } else {
        first_ipv4(addresses.drop_first())
    }
}

/// The address to connect to: the first IPv4 address, or the first of another kind
/// where there is none.
pub open spec fn preferred_address(addresses: Seq<ServiceAddress>) -> Option<Seq<char>> {
    match first_ipv4(addresses) {
        Some(text) => Some(text),
        None => if addresses.len() == 0 {
            None
        } else {
            Some(addresses[0].text@)
        },
    }
}

/// An address as it stands in a URL: in brackets where it holds colons.
pub open spec fn url_host(address: Seq<char>) -> Seq<char> {
    if address.contains(':') {
        "["@ + address + "]"@
    } else {
        address
    }
}

/// The path of a service: the default one where it has none.
pub open spec fn url_path(path: Option<Seq<char>>) -> Seq<char> {
    match path {
        None => DEFAULT_SERVER_PATH@,
        Some(text) => if text.len() == 0 {
            DEFAULT_SERVER_PATH@
        } else if text[0] == '/' {
            text
        } else {
            "/"@ + text
        },
    }
}

/// The URL of a service at an address.
pub open spec fn service_url(address: Seq<char>, port: u16, path: Option<Seq<char>>) -> Seq<char> {
    "ws://"@ + url_host(address) + ":"@ + crate::text::decimal(port as nat) + url_path(path)
}

/// The server that a service stands for; none where it has no address, or where its
/// URL is no WebSocket URL.
pub open spec fn resolved_server(service: ResolvedService) -> Option<ServerModel> {
    match preferred_address(service.addresses@) {
        None => None,
        Some(address) => match crate::config::usable_server_url(
            service_url(address, service.port, crate::config::opt_text(service.path)),
        ) {
            None => None,
            Some(url) => Some(
                ServerModel {
                    id: service.fullname@,
                    name: service_name(service.fullname@),
                    url,
                },
            ),
        },
    }
}

/// The texts of an optional server.
pub open spec fn opt_server(server: Option<DiscoveredServer>) -> Option<ServerModel> {
    match server {
        Some(s) => Some(s@),
        None => None,
    }
}

/// The address of a service to connect to.
pub fn choose_address(addresses: &Vec<ServiceAddress>) -> (r: Option<String>)
    ensures
        crate::config::opt_text(r) == preferred_address(addresses@),
{
    let mut i: usize = 0;
    assert(addresses@.skip(0) =~= addresses@);
    while i < addresses.len()
        invariant
            i <= addresses.len(),
            first_ipv4(addresses@) == first_ipv4(addresses@.skip(i as int)),
        decreases addresses.len() - i,
    {
        assert(addresses@.skip(i as int).drop_first() =~= addresses@.skip(i + 1));
        if addresses[i].is_ipv4 {
            return Some(addresses[i].text.clone());
        }
        i = i + 1;
    }
    if addresses.len() == 0 {
        None
    } else {
        Some(addresses[0].text.clone())
    }
}

/// The URL of a service at an address.
pub fn service_url_text(address: &str, port: u16, path: Option<&str>) -> (r: String)
    ensures
        r@ == service_url(address@, port, crate::config::opt_str(path)),
{
    let mut url = "ws://".to_owned();
    if contains_char(address, ':') {
        url.append("[");
        url.append(address);
        url.append("]");
        assert(url@ =~= "ws://"@ + url_host(address@));
    } else {
        url.append(address);
    }
    url.append(":");
    url.append(&decimal_text(port as u64));
    match path {
        None => url.append(DEFAULT_SERVER_PATH),
        Some(text) => {
            if text.is_empty() {
                url.append(DEFAULT_SERVER_PATH);
            } else {
                proof {
                    reveal_strlit("/");
                    if "/"@.is_prefix_of(text@) {
                        assert("/"@[0] == text@.subrange(0, 1)[0]);
                    }
                    if text@[0] == '/' {
                        assert("/"@ =~= text@.subrange(0, 1));
                    }
                }
                let ghost head = url@;
                if !starts_with(text, "/") {
                    url.append("/");
                }
                url.append(text);
                assert(url@ =~= head + url_path(Some(text@)));
            }
        },
    }
    url
}

/// The server that a resolved service stands for. Its URL is normalized, and stands for
/// itself unless it is too long to be read again.
pub fn discovered_server_from_mdns(info: &ResolvedService) -> (r: Option<DiscoveredServer>)
    ensures
        opt_server(r) == resolved_server(*info),
        r matches Some(server) ==> crate::config::is_server_url(server@.url),
        r matches Some(server) ==> service_reads_back(*info) ==> is_settled_server(server@),
{
    let address = match choose_address(&info.addresses) {
        Some(address) => address,
        None => {
            return None;
        },
    };
    let path = match &info.path {
        Some(text) => Some(text.as_str()),
        None => None,
    };
    let url = match try_normalize_server_url(&service_url_text(&address, info.port, path)) {
        Some(url) => url,
        None => {
            return None;
        },
    };
    let suffix = joined(".", SENDSPIN_SERVER_SERVICE_TYPE);
    let name = match strip_suffix(&info.fullname, &suffix) {
        Some(head) => {
            assert(suffix@.is_suffix_of(info.fullname@)) by {
                assert(info.fullname@.subrange(
                    info.fullname@.len() - suffix@.len(),
                    info.fullname@.len() as int,
                ) =~= suffix@);
            }
            assert(head@ =~= service_name(info.fullname@));
            head.to_owned()
        },
        None => info.fullname.clone(),
    };
    Some(DiscoveredServer { id: info.fullname.clone(), name, url })
}

/// Whether the URL of a service can be read again.
pub open spec fn service_reads_back(service: ResolvedService) -> bool {
    preferred_address(service.addresses@) matches Some(address) ==> crate::config::reads_back(
        service_url(address, service.port, crate::config::opt_text(service.path)),
    )
}

/// Whether a server's URL is normalized and stands for itself.
pub open spec fn is_settled_server(server: ServerModel) -> bool {
    crate::config::usable_server_url(server.url) == Some(server.url)
}

// ---------------------------------------------------------------------------
// Choosing a server

/// Whether a server of the list has the URL.
pub open spec fn is_discovered(url: Seq<char>, servers: Seq<ServerModel>) -> bool {
    exists|i: int| 0 <= i < servers.len() && #[trigger] servers[i].url == url
}

/// The server to connect to: the preferred one where it was discovered, else the
/// first of the list; none where the list is empty.
pub open spec fn selected_url(
    preferred: Option<Seq<char>>,
    servers: Seq<ServerModel>,
) -> Option<Seq<char>> {
    if servers.len() == 0 {
        None
    } else {
        match preferred {
            Some(url) => if is_discovered(url, servers) {
                Some(url)
            } else {
                Some(servers[0].url)
            },
            None => Some(servers[0].url),
        }
    }
}

/// Whether a server of the list has the URL.
pub fn lists_url(servers: &[DiscoveredServer], url: &str) -> (r: bool)
    ensures
        r == is_discovered(url@, crate::state::server_models(servers@)),
{
    let ghost models = crate::state::server_models(servers@);
    let mut i: usize = 0;
    while i < servers.len()
        invariant
            i <= servers.len(),
            models == crate::state::server_models(servers@),
            forall|k: int| 0 <= k < i ==> #[trigger] models[k].url != url@,
        decreases servers.len() - i,
    {
        assert(models[i as int] == servers@[i as int]@);
        if same_text(&servers[i].url, url) {
            assert(models[i as int].url == url@);
            return true;
        }
        i = i + 1;
    }
    false
}

/// The server to connect to, where `preferred` is the one that the user wants.
pub fn select_server_url(preferred: Option<String>, servers: &[DiscoveredServer]) -> (r: Option<
    String,
>)
    ensures
        crate::config::opt_text(r) == selected_url(
            crate::config::opt_text(preferred),
            crate::state::server_models(servers@),
        ),
{
    if servers.len() == 0 {
        return None;
    }
    if let Some(preferred_url) = preferred {
        if lists_url(servers, &preferred_url) {
            return Some(preferred_url);
        }
    }
    Some(servers[0].url.clone())
}

/// The server to connect to: the configured one where it was discovered, else the
/// first discovered.
pub fn auto_selected_server_url(
    configured_server_url: &str,
    discovered_servers: &[DiscoveredServer],
) -> (r: Option<String>)
    ensures
        crate::config::opt_text(r) == selected_url(
            crate::config::usable_server_url(configured_server_url@),
            crate::state::server_models(discovered_servers@),
        ),
{
    if discovered_servers.len() == 0 {
        return None;
    }
    select_server_url(try_normalize_server_url(configured_server_url), discovered_servers)
}

/// The automatic choice is always a discovered server, and stays with the configured
/// one while that is discovered.
pub proof fn law_auto_selection_is_discovered(
    preferred: Option<Seq<char>>,
    servers: Seq<ServerModel>,
)
    ensures
        selected_url(preferred, servers) is Some == (servers.len() > 0),
        selected_url(preferred, servers) matches Some(url) ==> is_discovered(url, servers),
        preferred matches Some(url) ==> is_discovered(url, servers) ==> selected_url(
            preferred,
            servers,
        ) == Some(url),
{
    if servers.len() > 0 {
        assert(servers[0].url == servers[0].url);
    }
}

// ---------------------------------------------------------------------------
// The registry

/// The servers of a list by their identity; of several with the same one, the last.
pub open spec fn by_id(servers: Seq<ServerModel>) -> Map<Seq<char>, ServerModel>
    decreases servers.len(),
{
    if servers.len() == 0 {
        Map::empty()
    } else {
        by_id(servers.drop_last()).insert(servers.last().id, servers.last())
    }
}

/// Whether no two servers of a list have the same identity.
pub open spec fn ids_differ(servers: Seq<ServerModel>) -> bool {
    forall|i: int, j: int|
        0 <= i < j < servers.len() ==> #[trigger] servers[i].id != #[trigger] servers[j].id
}

/// The order in which servers are listed: by name, then by URL, then by identity.
pub open spec fn server_le(a: ServerModel, b: ServerModel) -> bool {
    if a.name != b.name {
        crate::text::text_le(a.name, b.name)
    } else if a.url != b.url {
        crate::text::text_le(a.url, b.url)
    } else {
        crate::text::text_le(a.id, b.id)
    }
}

/// Whether a list is in order.
pub open spec fn is_sorted(servers: Seq<ServerModel>) -> bool {
    forall|i: int, j: int|
        0 <= i < j < servers.len() ==> server_le(#[trigger] servers[i], #[trigger] servers[j])
}

/// Whether a list holds exactly the servers of a registry, each once, in order.
pub open spec fn is_listing(
    servers: Seq<ServerModel>,
    registry: Map<Seq<char>, ServerModel>,
) -> bool {
    ids_differ(servers) && is_sorted(servers) && by_id(servers) == registry
}

proof fn lemma_by_id(servers: Seq<ServerModel>)
    requires
        ids_differ(servers),
    ensures
        forall|i: int|
            0 <= i < servers.len() ==> by_id(servers).dom().contains(#[trigger] servers[i].id)
                && by_id(servers)[servers[i].id] == servers[i],
        forall|id: Seq<char>| #[trigger]
            by_id(servers).dom().contains(id) ==> exists|i: int|
                0 <= i < servers.len() && #[trigger] servers[i].id == id,
    decreases servers.len(),
{
    if servers.len() > 0 {
        let before = servers.drop_last();
        lemma_by_id(before);
        assert forall|i: int| 0 <= i < servers.len() implies by_id(servers).dom().contains(
            #[trigger] servers[i].id,
        ) && by_id(servers)[servers[i].id] == servers[i] by {
            if i < before.len() {
                assert(before[i].id == servers[i].id);
                assert(servers[i].id != servers[servers.len() - 1].id);
            }
        }
        assert forall|id: Seq<char>| #[trigger] by_id(servers).dom().contains(id) implies exists|
            i: int,
        | 0 <= i < servers.len() && #[trigger] servers[i].id == id by {
            if id == servers.last().id {
                assert(servers[servers.len() - 1].id == id);
            } else {
                assert(by_id(before).dom().contains(id));
                let i = choose|i: int| 0 <= i < before.len() && #[trigger] before[i].id == id;
                assert(servers[i].id == id);
            }
        }
    }
}

/// Lists that hold the same servers have the same registry.
proof fn lemma_same_servers(a: Seq<ServerModel>, registry: Map<Seq<char>, ServerModel>)
    requires
        ids_differ(a),
        forall|i: int|
            0 <= i < a.len() ==> registry.dom().contains(#[trigger] a[i].id) && registry[a[i].id]
                == a[i],
        forall|id: Seq<char>| #[trigger]
            registry.dom().contains(id) ==> exists|i: int|
                0 <= i < a.len() && #[trigger] a[i].id == id,
    ensures
        by_id(a) == registry,
{
    lemma_by_id(a);
    assert forall|id: Seq<char>| by_id(a).dom().contains(id) == registry.dom().contains(id) by {
        if registry.dom().contains(id) {
            let i = choose|i: int| 0 <= i < a.len() && #[trigger] a[i].id == id;
            assert(by_id(a).dom().contains(a[i].id));
        }
        if by_id(a).dom().contains(id) {
            let i = choose|i: int| 0 <= i < a.len() && #[trigger] a[i].id == id;
            assert(registry.dom().contains(a[i].id));
        }
    }
    assert forall|id: Seq<char>| registry.dom().contains(id) implies by_id(a)[id] == #[trigger]
        registry[id] by {
        let i = choose|i: int| 0 <= i < a.len() && #[trigger] a[i].id == id;
        assert(by_id(a)[a[i].id] == a[i]);
    }
    assert(by_id(a) =~= registry);
}

proof fn lemma_replaced(servers: Seq<ServerModel>, at: int, server: ServerModel)
    requires
        ids_differ(servers),
        0 <= at < servers.len(),
        servers[at].id == server.id,
    ensures
        ids_differ(servers.update(at, server)),
        by_id(servers.update(at, server)) == by_id(servers).insert(server.id, server),
{
    let changed = servers.update(at, server);
    let registry = by_id(servers).insert(server.id, server);
    lemma_by_id(servers);
    assert forall|i: int, j: int| 0 <= i < j < changed.len() implies #[trigger] changed[i].id
        != #[trigger] changed[j].id by {
        assert(changed[i].id == servers[i].id);
        assert(changed[j].id == servers[j].id);
    }
    assert forall|i: int| 0 <= i < changed.len() implies registry.dom().contains(
        #[trigger] changed[i].id,
    ) && registry[changed[i].id] == changed[i] by {
        assert(changed[i].id == servers[i].id);
        if i != at {
            assert(servers[i].id != servers[at].id);
        }
    }
    assert forall|id: Seq<char>| #[trigger] registry.dom().contains(id) implies exists|i: int|
        0 <= i < changed.len() && #[trigger] changed[i].id == id by {
        if id == server.id {
            assert(changed[at].id == id);
        } else {
            let i = choose|i: int| 0 <= i < servers.len() && #[trigger] servers[i].id == id;
            assert(changed[i].id == id);
        }
    }
    lemma_same_servers(changed, registry);
}

proof fn lemma_removed(servers: Seq<ServerModel>, at: int)
    requires
        ids_differ(servers),
        0 <= at < servers.len(),
    ensures
        ids_differ(servers.remove(at)),
        by_id(servers.remove(at)) == by_id(servers).remove(servers[at].id),
{
    let changed = servers.remove(at);
    let registry = by_id(servers).remove(servers[at].id);
    lemma_by_id(servers);
    assert forall|i: int, j: int| 0 <= i < j < changed.len() implies #[trigger] changed[i].id
        != #[trigger] changed[j].id by {
        let k = if i < at { i } else { i + 1 };
        let l = if j < at { j } else { j + 1 };
        assert(servers[k].id != servers[l].id);
    }
    assert forall|i: int| 0 <= i < changed.len() implies registry.dom().contains(
        #[trigger] changed[i].id,
    ) && registry[changed[i].id] == changed[i] by {
        let k = if i < at { i } else { i + 1 };
        assert(changed[i].id == servers[k].id);
        assert(servers[k].id != servers[at].id);
    }
    assert forall|id: Seq<char>| #[trigger] registry.dom().contains(id) implies exists|i: int|
        0 <= i < changed.len() && #[trigger] changed[i].id == id by {
        let k = choose|k: int| 0 <= k < servers.len() && #[trigger] servers[k].id == id;
        let i = if k < at { k } else { k - 1 };
        assert(changed[i].id == id);
    }
    lemma_same_servers(changed, registry);
}

proof fn lemma_inserted(servers: Seq<ServerModel>, at: int, server: ServerModel)
    requires
        ids_differ(servers),
        0 <= at <= servers.len(),
        forall|i: int| 0 <= i < servers.len() ==> #[trigger] servers[i].id != server.id,
    ensures
        ids_differ(servers.insert(at, server)),
        by_id(servers.insert(at, server)) == by_id(servers).insert(server.id, server),
{
    let changed = servers.insert(at, server);
    let registry = by_id(servers).insert(server.id, server);
    lemma_by_id(servers);
    assert forall|i: int, j: int| 0 <= i < j < changed.len() implies #[trigger] changed[i].id
        != #[trigger] changed[j].id by {
        let k = if i < at { i } else { i - 1 };
        let l = if j < at { j } else { j - 1 };
        if i != at {
            assert(changed[i].id == servers[k].id);
        }
        if j != at {
            assert(changed[j].id == servers[l].id);
        }
    }
    assert forall|i: int| 0 <= i < changed.len() implies registry.dom().contains(
        #[trigger] changed[i].id,
    ) && registry[changed[i].id] == changed[i] by {
        if i != at {
            let k = if i < at { i } else { i - 1 };
            assert(changed[i].id == servers[k].id);
        }
    }
    assert forall|id: Seq<char>| #[trigger] registry.dom().contains(id) implies exists|i: int|
        0 <= i < changed.len() && #[trigger] changed[i].id == id by {
        if id == server.id {
            assert(changed[at].id == id);
        } else {
            let k = choose|k: int| 0 <= k < servers.len() && #[trigger] servers[k].id == id;
            let i = if k < at { k } else { k + 1 };
            assert(changed[i].id == id);
        }
    }
    lemma_same_servers(changed, registry);
}

/// The servers that are known, by their identity.
#[derive(Debug)]
pub struct MdnsRegistry {
    entries: Vec<DiscoveredServer>,
}

impl View for MdnsRegistry {
    type V = Map<Seq<char>, ServerModel>;

    closed spec fn view(&self) -> Map<Seq<char>, ServerModel> {
        by_id(crate::state::server_models(self.entries@))
    }
}

impl MdnsRegistry {
    #[verifier::type_invariant]
    spec fn inv(self) -> bool {
        ids_differ(crate::state::server_models(self.entries@))
    }

    /// A registry of no servers.
    pub fn new() -> (r: Self)
        ensures
            r@ == Map::<Seq<char>, ServerModel>::empty(),
    {
        MdnsRegistry { entries: Vec::new() }
    }

    /// The position of the server with an identity.
    fn position(&self, id: &str) -> (r: Option<usize>)
        ensures
            match r {
                Some(at) => at < self.entries@.len() && self.entries@[at as int].id@ == id@,
                None => forall|i: int|
                    0 <= i < self.entries@.len() ==> #[trigger] self.entries@[i].id@ != id@,
            },
    {
        let mut i: usize = 0;
        while i < self.entries.len()
            invariant
                i <= self.entries.len(),
                forall|k: int| 0 <= k < i ==> #[trigger] self.entries@[k].id@ != id@,
            decreases self.entries.len() - i,
        {
            if same_text(&self.entries[i].id, id) {
                return Some(i);
            }
            i = i + 1;
        }
        None
    }

    /// Takes up a server, in place of the one with the same identity.
    pub fn insert(&mut self, server: DiscoveredServer)
        ensures
            final(self)@ == old(self)@.insert(server@.id, server@),
    {
        proof {
            use_type_invariant(&*self);
        }
        let found = self.position(&server.id);
        let ghost models = crate::state::server_models(self.entries@);
        let mut entries: Vec<DiscoveredServer> = Vec::new();
        std::mem::swap(&mut entries, &mut self.entries);
        match found {
            Some(at) => {
                proof {
                    lemma_replaced(models, at as int, server@);
                    assert(crate::state::server_models(entries@.update(at as int, server))
                        =~= models.update(at as int, server@));
                }
                entries.set(at, server);
            },
            None => {
                proof {
                    assert forall|i: int| 0 <= i < models.len() implies #[trigger] models[i].id
                        != server@.id by {
                        assert(models[i] == entries@[i]@);
                    }
                    lemma_inserted(models, models.len() as int, server@);
                    assert(crate::state::server_models(entries@.push(server)) =~= models.insert(
                        models.len() as int,
                        server@,
                    ));
                }
                entries.push(server);
            },
        }
        self.entries = entries;
    }

    /// Forgets the server with an identity, if there is one.
    pub fn remove(&mut self, id: &str)
        ensures
            final(self)@ == old(self)@.remove(id@),
    {
        proof {
            use_type_invariant(&*self);
            lemma_by_id(crate::state::server_models(self.entries@));
        }
        let found = self.position(id);
        let ghost models = crate::state::server_models(self.entries@);
        match found {
            Some(at) => {
                let mut entries: Vec<DiscoveredServer> = Vec::new();
                std::mem::swap(&mut entries, &mut self.entries);
                proof {
                    lemma_removed(models, at as int);
                    assert(crate::state::server_models(entries@.remove(at as int))
                        =~= models.remove(at as int));
                }
                let _ = entries.remove(at);
                self.entries = entries;
            },
            None => {
                assert(!self@.dom().contains(id@)) by {
                    if self@.dom().contains(id@) {
                        let i = choose|i: int|
                            0 <= i < models.len() && #[trigger] models[i].id == id@;
                        assert(models[i] == self.entries@[i]@);
                    }
                }
                assert(self@.remove(id@) =~= self@);
            },
        }
    }

    /// Forgets all servers.
    pub fn clear(&mut self)
        ensures
            final(self)@ == Map::<Seq<char>, ServerModel>::empty(),
    {
        self.entries = Vec::new();
    }

    /// The known servers in the order in which they are listed.
    pub fn listing(&self) -> (r: Vec<DiscoveredServer>)
        ensures
            is_listing(crate::state::server_models(r@), self@),
    {
        proof {
            use_type_invariant(self);
        }
        let ghost models = crate::state::server_models(self.entries@);
        let mut list: Vec<DiscoveredServer> = Vec::new();
        let mut taken: usize = 0;
        assert(models.take(0) =~= Seq::empty());
        assert(crate::state::server_models(list@) =~= Seq::empty());
        while taken < self.entries.len()
            invariant
                taken <= self.entries.len(),
                models == crate::state::server_models(self.entries@),
                ids_differ(models),
                list@.len() == taken,
                is_listing(crate::state::server_models(list@), by_id(models.take(taken as int))),
            decreases self.entries.len() - taken,
        {
            let ghost before = crate::state::server_models(list@);
            let ghost server = models[taken as int];
            let at = place_of(&list, &self.entries[taken]);
            proof {
                lemma_by_id(before);
                lemma_by_id(models.take(taken as int));
                assert forall|i: int| 0 <= i < before.len() implies #[trigger] before[i].id
                    != server.id by {
                    assert(by_id(before).dom().contains(before[i].id));
                    let k = choose|k: int|
                        0 <= k < taken && #[trigger] models.take(taken as int)[k].id
                            == before[i].id;
                    assert(models[k].id == before[i].id);
                }
                lemma_inserted(before, at as int, server);
                assert(models.take(taken + 1).drop_last() =~= models.take(taken as int));
                assert(crate::state::server_models(
                    list@.insert(at as int, self.entries@[taken as int]),
                ) =~= before.insert(at as int, server));
            }
            list.insert(at, self.entries[taken].clone());
            taken = taken + 1;
        }
        assert(models.take(taken as int) =~= models);
        list
    }
}

/// Whether `a` is listed before `b`.
pub fn listed_before(a: &DiscoveredServer, b: &DiscoveredServer) -> (r: bool)
    ensures
        r == server_le(a@, b@),
{
    if !same_text(&a.name, &b.name) {
        text_at_most(&a.name, &b.name)
    } else if !same_text(&a.url, &b.url) {
        text_at_most(&a.url, &b.url)
    } else {
        text_at_most(&a.id, &b.id)
    }
}

/// Where a server is to go into a list that is in order.
fn place_of(list: &Vec<DiscoveredServer>, server: &DiscoveredServer) -> (r: usize)
    requires
        is_sorted(crate::state::server_models(list@)),
    ensures
        r <= list@.len(),
        is_sorted(crate::state::server_models(list@).insert(r as int, server@)),
{
    let ghost models = crate::state::server_models(list@);
    let mut at: usize = list.len();
    while at > 0 && !listed_before(&list[at - 1], server)
        invariant
            at <= list.len(),
            models == crate::state::server_models(list@),
            forall|i: int| at <= i < models.len() ==> !server_le(#[trigger] models[i], server@),
        decreases at,
    {
        at = at - 1;
    }
    proof {
        let changed = models.insert(at as int, server@);
        assert forall|i: int, j: int| 0 <= i < j < changed.len() implies server_le(
            #[trigger] changed[i],
            #[trigger] changed[j],
        ) by {
            if i < at && j == at {
                if i < at - 1 {
                    lemma_order_is_transitive(models[i], models[at - 1], server@);
                }
            } else if i == at {
                lemma_order_is_total(models[j - 1], server@);
            } else {
                let k = if i < at { i } else { i - 1 };
                let l = if j < at { j } else { j - 1 };
                assert(changed[i] == models[k] && changed[j] == models[l]);
            }
        }
    }
    at
}

proof fn lemma_order_is_total(a: ServerModel, b: ServerModel)
    ensures
        server_le(a, b) || server_le(b, a),
{
    crate::text::lemma_text_order_is_total(a.name, b.name);
    crate::text::lemma_text_order_is_total(a.url, b.url);
    crate::text::lemma_text_order_is_total(a.id, b.id);
}

proof fn lemma_order_is_transitive(a: ServerModel, b: ServerModel, c: ServerModel)
    requires
        server_le(a, b),
        server_le(b, c),
    ensures
        server_le(a, c),
{
    if a.name != b.name && b.name != c.name {
        crate::text::lemma_text_order_is_transitive(a.name, b.name, c.name);
        if a.name == c.name {
            crate::text::lemma_text_order_is_antisymmetric(a.name, b.name);
        }
    } else if a.name == b.name && b.name == c.name {
        if a.url != b.url && b.url != c.url {
            crate::text::lemma_text_order_is_transitive(a.url, b.url, c.url);
            if a.url == c.url {
                crate::text::lemma_text_order_is_antisymmetric(a.url, b.url);
            }
        } else if a.url == b.url && b.url == c.url {
            crate::text::lemma_text_order_is_transitive(a.id, b.id, c.id);
        }
    }
}

proof fn lemma_order_is_antisymmetric(a: ServerModel, b: ServerModel)
    requires
        server_le(a, b),
        server_le(b, a),
    ensures
        a == b,
{
    if a.name != b.name {
        crate::text::lemma_text_order_is_antisymmetric(a.name, b.name);
    } else if a.url != b.url {
        crate::text::lemma_text_order_is_antisymmetric(a.url, b.url);
    } else {
        crate::text::lemma_text_order_is_antisymmetric(a.id, b.id);
    }
}

/// A registry has just one listing, whatever the order in which its servers were
/// found.
pub proof fn law_listing_is_unique(
    a: Seq<ServerModel>,
    b: Seq<ServerModel>,
    registry: Map<Seq<char>, ServerModel>,
)
    requires
        is_listing(a, registry),
        is_listing(b, registry),
    ensures
        a == b,
    decreases a.len(),
{
    lemma_by_id(a);
    lemma_by_id(b);
    if a.len() == 0 {
        if b.len() > 0 {
            assert(by_id(b).dom().contains(b[0].id));
        }
        assert(a =~= b);
    } else {
        assert(by_id(a).dom().contains(a[0].id));
        let i = choose|i: int| 0 <= i < b.len() && #[trigger] b[i].id == a[0].id;
        assert(b[i] == a[0]);
        assert(by_id(b).dom().contains(b[0].id));
        let j = choose|j: int| 0 <= j < a.len() && #[trigger] a[j].id == b[0].id;
        assert(a[j] == b[0]);
        if i > 0 && j > 0 {
            lemma_order_is_antisymmetric(a[0], b[0]);
        }
        assert(a[0] == b[0]);
        lemma_removed(a, 0);
        lemma_removed(b, 0);
        let rest = registry.remove(a[0].id);
        assert(is_sorted(a.remove(0))) by {
            assert forall|k: int, l: int| 0 <= k < l < a.remove(0).len() implies server_le(
                #[trigger] a.remove(0)[k],
                #[trigger] a.remove(0)[l],
            ) by {
                assert(a.remove(0)[k] == a[k + 1] && a.remove(0)[l] == a[l + 1]);
            }
        }
        assert(is_sorted(b.remove(0))) by {
            assert forall|k: int, l: int| 0 <= k < l < b.remove(0).len() implies server_le(
                #[trigger] b.remove(0)[k],
                #[trigger] b.remove(0)[l],
            ) by {
                assert(b.remove(0)[k] == b[k + 1] && b.remove(0)[l] == b[l + 1]);
            }
        }
        law_listing_is_unique(a.remove(0), b.remove(0), rest);
        assert(a =~= seq![a[0]] + a.remove(0));
        assert(b =~= seq![b[0]] + b.remove(0));
    }
}

// ---------------------------------------------------------------------------
// Browsing

/// What polling for a command gives.
#[derive(Clone, Copy, Debug, PartialEq, Eq, Structural)]
pub enum PolledMdnsCommand {
    Command(MdnsCommand),
    Empty,
    Disconnected,
}

/// What discovery does next.
#[derive(Clone, Copy, Debug, PartialEq, Eq, Structural)]
pub enum MdnsStep {
    /// To wait for an event.
    Browse,
    /// To browse anew.
    Restart,
    /// To end.
    Stop,
}

/// What browsing reports.
#[derive(Debug)]
pub enum MdnsEvent {
    Resolved(ResolvedService),
    /// A service with this full name is gone.
    Removed(String),
    Other,
}

/// The registry after an event. A service that stands for no server is passed over.
pub open spec fn registry_after(
    event: MdnsEvent,
    registry: Map<Seq<char>, ServerModel>,
) -> Map<Seq<char>, ServerModel> {
    match event {
        MdnsEvent::Resolved(service) => match resolved_server(service) {
            Some(server) => registry.insert(server.id, server),
            None => registry,
        },
        MdnsEvent::Removed(fullname) => registry.remove(fullname@),
        MdnsEvent::Other => registry,
    }
}

/// The shared state after an event that leaves the listing `servers`, and the command
/// for the network worker. Without a connection the automatic choice is switched to,
/// where it is not configured already.
pub open spec fn after_browsing(servers: Seq<ServerModel>, shared: SharedModel) -> (
    SharedModel,
    Option<CommandModel>,
) {
    let listed = SharedModel { discovered_servers: servers, ..shared };
    let configured = crate::config::configured_url(shared.configured_server_url);
    if shared.connection_state == ConnectionState::Connected {
        (listed, None)
    } else {
        match selected_url(crate::config::usable_server_url(configured), servers) {
            None => (listed, None),
            Some(desired) => if desired == configured {
                (listed, None)
            } else {
                (
                    SharedModel { configured_server_url: desired, ..listed },
                    if shared.worker_attached {
                        Some(CommandModel::SetServerUrl(desired))
                    } else {
                        None
                    },
                )
            },
        }
    }
}

/// Whether the URLs of all servers of a registry are normalized and stand for
/// themselves.
pub open spec fn all_settled(registry: Map<Seq<char>, ServerModel>) -> bool {
    forall|id: Seq<char>| #[trigger]
        registry.dom().contains(id) ==> is_settled_server(registry[id])
}

impl MdnsRegistry {
    /// Takes in what polling for a command gave. A refresh forgets all servers.
    pub fn on_polled(
        &mut self,
        polled: PolledMdnsCommand,
        shared: &mut SharedState,
    ) -> (r: MdnsStep)
        ensures
            match polled {
                PolledMdnsCommand::Command(MdnsCommand::Refresh) => r == MdnsStep::Restart
                    && final(self)@ == Map::<Seq<char>, ServerModel>::empty() && final(shared)@
                    == (SharedModel { discovered_servers: Seq::empty(), ..old(shared)@ }),
                _ => r == (if polled == PolledMdnsCommand::Empty {
                    MdnsStep::Browse
                } else {
                    MdnsStep::Stop
                }) && final(self)@ == old(self)@ && final(shared)@ == old(shared)@,
            },
    {
        match polled {
            PolledMdnsCommand::Command(MdnsCommand::Shutdown) => MdnsStep::Stop,
            PolledMdnsCommand::Disconnected => MdnsStep::Stop,
            PolledMdnsCommand::Command(MdnsCommand::Refresh) => {
                self.clear();
                list_nothing(shared);
                MdnsStep::Restart
            },
            PolledMdnsCommand::Empty => MdnsStep::Browse,
        }
    }

    /// Takes in what browsing reported, lists the servers that are known then, and
    /// returns the command for the network worker, if there is one.
    pub fn on_event(&mut self, event: MdnsEvent, shared: &mut SharedState) -> (r: Option<
        WorkerCommand,
    >)
        ensures
            final(self)@ == registry_after(event, old(self)@),
            is_listing(final(shared)@.discovered_servers, final(self)@),
            (final(shared)@, crate::state::opt_command(r)) == after_browsing(
                final(shared)@.discovered_servers,
                old(shared)@,
            ),
            all_settled(old(self)@) && (event matches MdnsEvent::Resolved(service)
                ==> service_reads_back(service)) ==> all_settled(final(self)@),
    {
        match event {
            MdnsEvent::Resolved(info) => {
                if let Some(server) = discovered_server_from_mdns(&info) {
                    self.insert(server);
                }
            },
            MdnsEvent::Removed(fullname) => self.remove(&fullname),
            MdnsEvent::Other => {},
        }
        let servers = self.listing();
        let configured = configure_server_url(&shared.configured_server_url);
        let desired = auto_selected_server_url(&configured, servers.as_slice());
        shared.set_discovered_servers(servers);
        if shared.connection_state() != ConnectionState::Connected {
            if let Some(desired) = desired {
                if !same_text(&configured, &desired) {
                    return shared.request_server_switch(desired);
                }
            }
        }
        None
    }
}

/// Lists no servers, as after the end of discovery.
pub fn list_nothing(shared: &mut SharedState)
    ensures
        final(shared)@ == (SharedModel { discovered_servers: Seq::empty(), ..old(shared)@ }),
{
    let none: Vec<DiscoveredServer> = Vec::new();
    assert(crate::state::server_models(none@) =~= Seq::empty());
    shared.set_discovered_servers(none);
}

/// Discovery never changes the server of a connection that stands.
pub proof fn law_discovery_keeps_connection(servers: Seq<ServerModel>, shared: SharedModel)
    requires
        shared.connection_state == ConnectionState::Connected,
    ensures
        after_browsing(servers, shared) == (
            (SharedModel { discovered_servers: servers, ..shared }),
            None::<CommandModel>,
        ),
{
}

/// Where no server is configured yet, the first discovered one is configured, and
/// the network worker connects to it next.
pub proof fn law_first_discovered_server_is_taken_up(
    servers: Seq<ServerModel>,
    shared: SharedModel,
    session: crate::network::SessionModel,
)
    requires
        servers.len() > 0,
        is_settled_server(servers[0]),
        shared.connection_state != ConnectionState::Connected,
        shared.configured_server_url.len() == 0,
        shared.worker_attached,
    ensures
        ({
            let url = servers[0].url;
            let browsed = after_browsing(servers, shared);
            &&& browsed.0.configured_server_url == url
            &&& browsed.1 matches Some(command)
                && crate::network::after_polled_command(
                command,
                session,
                browsed.0,
            ).0.active_server_url == Some(url)
        }),
{
    let raw = shared.configured_server_url;
    assert(crate::text::trimmed(raw).len() == 0);
    assert(crate::config::configured_url(raw).len() == 0);
    let url = servers[0].url;
    assert(url.len() > 0) by {
        if url.len() == 0 {
            assert(crate::text::trimmed(url).len() == 0);
        }
    }
}

/// An event is taken in the same way whether or not it was taken in before.
pub proof fn law_repeated_event_changes_nothing(
    event: MdnsEvent,
    registry: Map<Seq<char>, ServerModel>,
)
    ensures
        registry_after(event, registry_after(event, registry)) == registry_after(event, registry),
{
    let once = registry_after(event, registry);
    assert(registry_after(event, once) =~= once);
}

// ---------------------------------------------------------------------------
// Laws of discovery

proof fn lemma_first_ipv4(addresses: Seq<ServiceAddress>, at: int)
    requires
        0 <= at <= addresses.len(),
        forall|i: int| 0 <= i < at ==> !(#[trigger] addresses[i]).is_ipv4,
        at < addresses.len() ==> addresses[at].is_ipv4,
    ensures
        first_ipv4(addresses) == if at < addresses.len() {
            Some(addresses[at].text@)
        } else {
            None
        },
    decreases at,
{
    if at > 0 {
        let rest = addresses.drop_first();
        assert forall|i: int| 0 <= i < at - 1 implies !(#[trigger] rest[i]).is_ipv4 by {
            assert(rest[i] == addresses[i + 1]);
        }
        lemma_first_ipv4(rest, at - 1);
    }
}

/// The address at `at` is the one to connect to where it is an IPv4 address and none
/// before it is, or where it is the first of all and none is an IPv4 address. Without
/// addresses there is none.
pub proof fn law_first_ipv4_address_is_preferred(addresses: Seq<ServiceAddress>, at: int)
    ensures
        addresses.len() == 0 ==> preferred_address(addresses) is None,
        0 <= at < addresses.len() && addresses[at].is_ipv4 && (forall|i: int|
            0 <= i < at ==> !(#[trigger] addresses[i]).is_ipv4) ==> preferred_address(addresses)
            == Some(addresses[at].text@),
        addresses.len() > 0 && (forall|i: int|
            0 <= i < addresses.len() ==> !(#[trigger] addresses[i]).is_ipv4) ==> preferred_address(
            addresses,
        ) == Some(addresses[0].text@),
{
    if 0 <= at < addresses.len() && addresses[at].is_ipv4 && (forall|i: int|
        0 <= i < at ==> !(#[trigger] addresses[i]).is_ipv4) {
        lemma_first_ipv4(addresses, at);
    }
    if forall|i: int| 0 <= i < addresses.len() ==> !(#[trigger] addresses[i]).is_ipv4 {
        lemma_first_ipv4(addresses, addresses.len() as int);
    }
}

/// The URL of a service is `ws://`, its address, in brackets where that holds colons,
/// then a colon, its own port in decimal digits, and its path: the default one where it
/// has none, and otherwise its own behind one slash at least.
pub proof fn law_service_url_is_assembled(
    address: Seq<char>,
    port: u16,
    path: Option<Seq<char>>,
    host: Seq<char>,
    digits: Seq<char>,
    tail: Seq<char>,
)
    requires
        address.contains(':') ==> host == seq!['['] + address + seq![']'],
        !address.contains(':') ==> host == address,
        digits.len() > 0,
        forall|i: int| 0 <= i < digits.len() ==> '0' <= #[trigger] digits[i] <= '9',
        digits.len() > 1 ==> digits[0] != '0',
        crate::text::digits_value(digits) == port,
        match path {
            None => tail == "/sendspin"@,
            Some(text) => if text.len() == 0 {
                tail == "/sendspin"@
            } else if text[0] == '/' {
                tail == text
            } else {
                tail == seq!['/'] + text
            },
        },
    ensures
        service_url(address, port, path) == "ws://"@ + host + seq![':'] + digits + tail,
{
    crate::text::law_digits_are_unique(digits);
    reveal_strlit("[");
    reveal_strlit("]");
    reveal_strlit(":");
    reveal_strlit("/");
    assert("["@ =~= seq!['[']);
    assert("]"@ =~= seq![']']);
    assert(":"@ =~= seq![':']);
    assert("/"@ =~= seq!['/']);
}

/// A service stands for the server at its preferred address, its own port and its own
/// path: the server's URL is what that URL is normalized to. The server is known by the
/// service's full name. Where that URL is none to connect to, or the service has no
/// address, it stands for no server.
pub proof fn law_service_stands_for_its_own_url(service: ResolvedService, at: int)
    requires
        0 <= at < service.addresses@.len(),
        forall|i: int| 0 <= i < at ==> !(#[trigger] service.addresses@[i]).is_ipv4,
        !service.addresses@[at].is_ipv4 ==> at == 0 && forall|i: int|
            0 <= i < service.addresses@.len() ==> !(#[trigger] service.addresses@[i]).is_ipv4,
    ensures
        ({
            let address = service.addresses@[at].text@;
            let host = if address.contains(':') {
                "["@ + address + "]"@
            } else {
                address
            };
            let path = match service.path {
                None => "/sendspin"@,
                Some(text) => if text@.len() == 0 {
                    "/sendspin"@
                } else if text@[0] == '/' {
                    text@
                } else {
                    "/"@ + text@
                },
            };
            let written = "ws://"@ + host + ":"@ + crate::text::decimal(service.port as nat) + path;
            match crate::config::usable_server_url(written) {
                Some(url) => resolved_server(service) matches Some(server) && server.url == url
                    && server.id == service.fullname@,
                None => resolved_server(service) is None,
            }
        }),
{
    law_first_ipv4_address_is_preferred(service.addresses@, at);
}

/// Two services that differ in nothing but their ports have URLs written with their own
/// ports, and so written differently.
pub proof fn law_ports_are_told_apart(
    address: Seq<char>,
    path: Option<Seq<char>>,
    one: u16,
    other: u16,
)
    requires
        one != other,
    ensures
        service_url(address, one, path) != service_url(address, other, path),
        exists|head: Seq<char>, tail: Seq<char>|
            service_url(address, one, path) == head + crate::text::decimal(one as nat) + tail
                && service_url(address, other, path) == #[trigger] (head + crate::text::decimal(
                other as nat,
            ) + tail),
{
    let head = "ws://"@ + url_host(address) + ":"@;
    let tail = url_path(path);
    let a = crate::text::decimal(one as nat);
    let b = crate::text::decimal(other as nat);
    crate::text::law_decimal_stands_for_its_number(one as nat);
    crate::text::law_decimal_stands_for_its_number(other as nat);
    assert(service_url(address, one, path) == head + a + tail);
    assert(service_url(address, other, path) == head + b + tail);
    if head + a + tail == head + b + tail {
        assert((head + a + tail).len() == (head + b + tail).len());
        let n = head.len() as int;
        assert((head + a + tail).subrange(n, n + a.len()) =~= a);
        assert((head + b + tail).subrange(n, n + b.len()) =~= b);
    }
}

/// A service's name is its full name up to the service type, and the whole of a full
/// name that does not end in the type.
pub proof fn law_service_type_comes_off(name: Seq<char>)
    ensures
        service_name(name + "._sendspin-server._tcp.local."@) == name,
        !"._sendspin-server._tcp.local."@.is_suffix_of(name) ==> service_name(name) == name,
{
    reveal_strlit(".");
    reveal_strlit("_sendspin-server._tcp.local.");
    reveal_strlit("._sendspin-server._tcp.local.");
    let suffix = "."@ + SENDSPIN_SERVER_SERVICE_TYPE@;
    assert(suffix =~= "._sendspin-server._tcp.local."@);
    let full = name + suffix;
    assert(full.subrange(full.len() - suffix.len(), full.len() as int) =~= suffix);
    assert(full.take(full.len() - suffix.len()) =~= name);
}

/// A discovered server carries the name that its service is announced under.
pub proof fn law_server_carries_the_service_name(service: ResolvedService, name: Seq<char>)
    requires
        service.fullname@ == name + "._sendspin-server._tcp.local."@,
    ensures
        resolved_server(service) matches Some(server) ==> server.name == name && server.id
            == service.fullname@,
        service.addresses@.len() == 0 ==> resolved_server(service) is None,
{
    law_service_type_comes_off(name);
    law_first_ipv4_address_is_preferred(service.addresses@, 0);
}

/// Without a preferred server among the discovered ones the first of the list is chosen;
/// one that is among them, anywhere, is chosen itself.
pub proof fn law_first_listed_server_is_the_default(
    preferred: Option<Seq<char>>,
    servers: Seq<ServerModel>,
    at: int,
)
    requires
        servers.len() > 0,
    ensures
        preferred is None ==> selected_url(preferred, servers) == Some(servers[0].url),
        preferred matches Some(url) ==> (forall|i: int|
            0 <= i < servers.len() ==> #[trigger] servers[i].url != url) ==> selected_url(
            preferred,
            servers,
        ) == Some(servers[0].url),
        0 <= at < servers.len() && preferred == Some(servers[at].url) ==> selected_url(
            preferred,
            servers,
        ) == Some(servers[at].url),
{
    if 0 <= at < servers.len() && preferred == Some(servers[at].url) {
        assert(is_discovered(servers[at].url, servers));
    }
}

/// An event concerns just the server that it is about: a resolved service is entered
/// under its full name, in place of what was there, a removed one is gone, and all
/// others stay as they are.
pub proof fn law_event_concerns_one_server(
    event: MdnsEvent,
    registry: Map<Seq<char>, ServerModel>,
    id: Seq<char>,
)
    ensures
        ({
            let after = registry_after(event, registry);
            let concerned = match event {
                MdnsEvent::Resolved(service) => service.fullname@ == id && resolved_server(
                    service,
                ) is Some,
                MdnsEvent::Removed(fullname) => fullname@ == id,
                MdnsEvent::Other => false,
            };
            &&& !concerned ==> after.dom().contains(id) == registry.dom().contains(id)
            &&& !concerned && registry.dom().contains(id) ==> after[id] == registry[id]
            &&& concerned ==> after.dom().contains(id) == (event is Resolved)
            &&& event matches MdnsEvent::Resolved(service) ==> concerned ==> resolved_server(
                service,
            ) == Some(after[id])
        }),
{
}

/// A listing shows each known server once and nothing else, ordered by name, then by
/// URL, then by identity.
pub proof fn law_listing_shows_each_server_once(
    servers: Seq<ServerModel>,
    registry: Map<Seq<char>, ServerModel>,
)
    requires
        is_listing(servers, registry),
    ensures
        forall|i: int|
            0 <= i < servers.len() ==> registry.dom().contains((#[trigger] servers[i]).id)
                && registry[servers[i].id] == servers[i],
        forall|id: Seq<char>| #[trigger]
            registry.dom().contains(id) ==> exists|i: int|
                0 <= i < servers.len() && #[trigger] servers[i] == registry[id],
        forall|i: int, j: int|
            0 <= i < j < servers.len() ==> {
                let a = #[trigger] servers[i];
                let b = #[trigger] servers[j];
                &&& a.id != b.id
                &&& crate::text::text_le(a.name, b.name)
                &&& a.name == b.name ==> crate::text::text_le(a.url, b.url)
                &&& a.name == b.name && a.url == b.url ==> crate::text::text_le(a.id, b.id)
            },
{
    lemma_by_id(servers);
    assert forall|id: Seq<char>| #[trigger] registry.dom().contains(id) implies exists|i: int|
        0 <= i < servers.len() && #[trigger] servers[i] == registry[id] by {
        let i = choose|i: int| 0 <= i < servers.len() && #[trigger] servers[i].id == id;
        assert(servers[i] == registry[id]);
    }
    assert forall|i: int, j: int| 0 <= i < j < servers.len() implies {
        let a = #[trigger] servers[i];
        let b = #[trigger] servers[j];
        &&& a.id != b.id
        &&& crate::text::text_le(a.name, b.name)
        &&& a.name == b.name ==> crate::text::text_le(a.url, b.url)
        &&& a.name == b.name && a.url == b.url ==> crate::text::text_le(a.id, b.id)
    } by {
        assert(server_le(servers[i], servers[j]));
        assert(servers[i].id != servers[j].id);
        crate::text::lemma_text_order_is_total(servers[i].name, servers[i].name);
        crate::text::lemma_text_order_is_total(servers[i].url, servers[i].url);
    }
}

/// Browsing changes nothing but the list and the configured server; and not even that
/// one where no server is listed, or where the configured one is.
pub proof fn law_listed_choice_is_kept(servers: Seq<ServerModel>, shared: SharedModel, at: int)
    ensures
        ({
            let browsed = after_browsing(servers, shared);
            let url = shared.configured_server_url;
            &&& browsed.0.discovered_servers == servers
            &&& browsed.0 == (SharedModel {
                discovered_servers: servers,
                configured_server_url: browsed.0.configured_server_url,
                ..shared
            })
            &&& servers.len() == 0 ==> browsed.0.configured_server_url == url && browsed.1 is None
            &&& 0 <= at < servers.len() && servers[at].url == url && is_settled_server(servers[at])
                ==> browsed.0.configured_server_url == url && browsed.1 is None
        }),
{
    if 0 <= at < servers.len() && servers[at].url == shared.configured_server_url {
        assert(is_discovered(servers[at].url, servers));
    }
}

/// Without a connection, and where the configured server is not listed, the first listed
/// one is configured, and the network worker, if there is one, is told to connect to it.
pub proof fn law_first_listed_server_replaces_an_absent_one(
    servers: Seq<ServerModel>,
    shared: SharedModel,
)
    requires
        servers.len() > 0,
        servers[0].url.len() > 0,
        shared.connection_state != ConnectionState::Connected,
        crate::config::usable_server_url(shared.configured_server_url) matches Some(url) ==> {
            &&& crate::config::usable_server_url(url) == Some(url)
            &&& forall|i: int| 0 <= i < servers.len() ==> #[trigger] servers[i].url != url
        },
    ensures
        ({
            let browsed = after_browsing(servers, shared);
            &&& browsed.0.configured_server_url == servers[0].url
            &&& shared.worker_attached ==> browsed.1 == Some(
                CommandModel::SetServerUrl(servers[0].url),
            )
            &&& !shared.worker_attached ==> browsed.1 is None
        }),
{
    let none = Seq::<char>::empty();
    assert(crate::text::trimmed(none).len() == 0);
    assert(crate::config::usable_server_url(none) is None);
    if let Some(url) = crate::config::usable_server_url(shared.configured_server_url) {
        assert(!is_discovered(url, servers));
        assert(servers[0].url != url);
    }
}

} // verus!
