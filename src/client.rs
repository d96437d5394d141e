//! The connection registry: one entry per client identifier, each holding the
//! transport session and its lifecycle status.

use vstd::prelude::*;
use crate::types::{
    ClientStatus, ClientStatusResponse, ServerInfo, ServerInfoView, Timestamp,
    duplicate_server_info, server_view,
};

verus! {

/// Why a registry operation could not be carried out.
#[derive(Debug, Clone, PartialEq)]
pub enum RegistryError {
    /// The identifier is already registered.
    DuplicateIdentifier(String),
    /// No client is registered under the identifier.
    NotFound(String),
    /// The client is registered but not connected.
    NotConnected(String),
    /// A streaming transport was asked for without an endpoint URL.
    MissingUrl,
    /// A subprocess transport was asked for without a command.
    MissingCommand,
    /// The transport could not be started; carries the transport's message.
    TransportStartFailed(String),
    /// The initialize handshake failed; carries the protocol's message.
    HandshakeFailed(String),
}

/// The text of a registry error.
pub open spec fn registry_error_text(e: RegistryError) -> Seq<char> {
    match e {
        RegistryError::DuplicateIdentifier(id) => "Client with ID '"@ + id@ + "' already exists"@,
        RegistryError::NotFound(id) => "Client with ID '"@ + id@ + "' not found"@,
        RegistryError::NotConnected(id) => "Client with ID '"@ + id@ + "' is not connected"@,
        RegistryError::MissingUrl => "URL is required for SSE transport"@,
        RegistryError::MissingCommand => "Command is required for Stdio transport"@,
        RegistryError::TransportStartFailed(m) => m@,
        RegistryError::HandshakeFailed(m) => "Failed to initialize client: "@ + m@,
    }
}

impl RegistryError {
    /// The human-readable message of the error.
    pub fn message(&self) -> (r: String)
        ensures
            r@ == registry_error_text(*self),
    {
        match self {
            RegistryError::DuplicateIdentifier(id) => {
                String::from_str("Client with ID '").concat(id.as_str()).concat("' already exists")
            },
            RegistryError::NotFound(id) => {
                String::from_str("Client with ID '").concat(id.as_str()).concat("' not found")
            },
            RegistryError::NotConnected(id) => {
                String::from_str("Client with ID '").concat(id.as_str()).concat(
                    "' is not connected",
                )
            },
            RegistryError::MissingUrl => String::from_str("URL is required for SSE transport"),
            RegistryError::MissingCommand => String::from_str(
                "Command is required for Stdio transport",
            ),
            RegistryError::TransportStartFailed(m) => m.clone(),
            RegistryError::HandshakeFailed(m) => {
                String::from_str("Failed to initialize client: ").concat(m.as_str())
            },
        }
    }
}

/// One registered client: its session and what the registry knows of it.
pub struct ClientInstance<S> {
    pub id: String,
    pub client: S,
    pub status: ClientStatus,
    pub connected_at: Option<Timestamp>,
    pub server_info: Option<ServerInfo>,
}

/// The registry's record of one client, as contracts see it.
pub struct ClientRecord<S> {
    pub client: S,
    pub status: ClientStatus,
    pub connected_at: Option<Timestamp>,
    pub server_info: Option<ServerInfoView>,
}

/// The record that an instance stands for.
pub open spec fn record_of<S>(inst: ClientInstance<S>) -> ClientRecord<S> {
    ClientRecord {
        client: inst.client,
        status: inst.status,
        connected_at: inst.connected_at,
        server_info: server_view(inst.server_info),
    }
}

/// The message that a status snapshot reports for a status.
pub open spec fn status_error(status: ClientStatus) -> Option<String> {
    match status {
        ClientStatus::Error(e) => Some(e),
        _ => None,
    }
}

/// `resp` is the snapshot of the client `id` whose record is `rec`.
pub open spec fn snapshot_of<S>(resp: ClientStatusResponse, id: Seq<char>, rec: ClientRecord<S>) -> bool {
    &&& resp.id@ == id
    &&& resp.status == rec.status
    &&& resp.error == status_error(rec.status)
    &&& resp.connected_at == rec.connected_at
    &&& server_view(resp.server_info) == rec.server_info
}

/// A connection timestamp is present exactly while the client is connected.
pub open spec fn timestamp_consistent<S>(rec: ClientRecord<S>) -> bool {
    rec.connected_at is Some <==> rec.status is Connected
}

/// No two instances share an identifier.
pub open spec fn ids_unique<S>(s: Seq<ClientInstance<S>>) -> bool {
    forall|i: int, j: int| 0 <= i < j < s.len() ==> s[i].id@ != s[j].id@
}

/// The map from identifier to record that a list of instances stands for.
pub open spec fn records_of<S>(s: Seq<ClientInstance<S>>) -> Map<Seq<char>, ClientRecord<S>>
    decreases s.len(),
{
    if s.len() == 0 {
        Map::empty()
    } else {
        records_of(s.drop_last()).insert(s.last().id@, record_of(s.last()))
    }
}

proof fn lemma_records_lookup<S>(s: Seq<ClientInstance<S>>, k: Seq<char>)
    requires
        ids_unique(s),
    ensures
        records_of(s).contains_key(k) <==> exists|i: int| 0 <= i < s.len() && s[i].id@ == k,
        forall|i: int| 0 <= i < s.len() && s[i].id@ == k ==> records_of(s)[k] == record_of(s[i]),
    decreases s.len(),
{
    if s.len() > 0 {
        let t = s.drop_last();
        lemma_records_lookup(t, k);
        if records_of(s).contains_key(k) {
            if s.last().id@ == k {
                assert(s[s.len() - 1].id@ == k);
            } else {
                let i = choose|i: int| 0 <= i < t.len() && t[i].id@ == k;
                assert(s[i].id@ == k);
            }
        }
        if exists|i: int| 0 <= i < s.len() && s[i].id@ == k {
            let i = choose|i: int| 0 <= i < s.len() && s[i].id@ == k;
            if i < s.len() - 1 {
                assert(t[i].id@ == k);
            }
        }
    }
}

proof fn lemma_records_update<S>(s: Seq<ClientInstance<S>>, i: int, x: ClientInstance<S>)
    requires
        ids_unique(s),
        0 <= i < s.len(),
        x.id@ == s[i].id@,
    ensures
        ids_unique(s.update(i, x)),
        records_of(s.update(i, x)) == records_of(s).insert(x.id@, record_of(x)),
    decreases s.len(),
{
    let u = s.update(i, x);
    let t = s.drop_last();
    assert(ids_unique(u)) by {
        assert forall|a: int, b: int| 0 <= a < b < u.len() implies u[a].id@ != u[b].id@ by {
            assert(s[a].id@ != s[b].id@);
        }
    }
    if i == s.len() - 1 {
        assert(u.drop_last() =~= t);
        assert(records_of(u) =~= records_of(s).insert(x.id@, record_of(x)));
    } else {
        lemma_records_update(t, i, x);
        assert(u.drop_last() =~= t.update(i, x));
        assert(s.last().id@ != x.id@);
        assert(records_of(u) =~= records_of(s).insert(x.id@, record_of(x)));
    }
}

proof fn lemma_records_remove<S>(s: Seq<ClientInstance<S>>, i: int)
    requires
        ids_unique(s),
        0 <= i < s.len(),
    ensures
        ids_unique(s.remove(i)),
        records_of(s.remove(i)) == records_of(s).remove(s[i].id@),
    decreases s.len(),
{
    let r = s.remove(i);
    let t = s.drop_last();
    let k = s[i].id@;
    assert(ids_unique(r)) by {
        assert forall|a: int, b: int| 0 <= a < b < r.len() implies r[a].id@ != r[b].id@ by {
            if a < i {
                if b < i {
                    assert(s[a].id@ != s[b].id@);
                } else {
                    assert(s[a].id@ != s[b + 1].id@);
                }
            } else {
                assert(s[a + 1].id@ != s[b + 1].id@);
            }
        }
    }
    if i == s.len() - 1 {
        assert(r =~= t);
        lemma_records_lookup(t, k);
        assert forall|j: int| 0 <= j < t.len() implies t[j].id@ != k by {
            assert(s[j].id@ != s[i].id@);
        }
        assert(records_of(r) =~= records_of(s).remove(k));
    } else {
        lemma_records_remove(t, i);
        assert(r.drop_last() =~= t.remove(i));
        assert(r.last() == s.last());
        assert(s.last().id@ != k);
        assert(records_of(r) =~= records_of(s).remove(k));
    }
}

proof fn lemma_records_push<S>(s: Seq<ClientInstance<S>>, x: ClientInstance<S>)
    requires
        ids_unique(s),
        !records_of(s).contains_key(x.id@),
    ensures
        ids_unique(s.push(x)),
        records_of(s.push(x)) == records_of(s).insert(x.id@, record_of(x)),
{
    lemma_records_lookup(s, x.id@);
    assert(s.push(x).drop_last() =~= s);
    let p = s.push(x);
    assert forall|a: int, b: int| 0 <= a < b < p.len() implies p[a].id@ != p[b].id@ by {
        if b == s.len() {
            assert(p[a] == s[a]);
        } else {
            assert(p[a] == s[a] && p[b] == s[b]);
        }
    }
}

proof fn lemma_records_len<S>(s: Seq<ClientInstance<S>>)
    requires
        ids_unique(s),
    ensures
        records_of(s).dom().finite(),
        records_of(s).dom().len() == s.len(),
    decreases s.len(),
{
    if s.len() > 0 {
        let t = s.drop_last();
        assert(ids_unique(t));
        lemma_records_len(t);
        lemma_records_lookup(t, s.last().id@);
        assert forall|j: int| 0 <= j < t.len() implies t[j].id@ != s.last().id@ by {
            assert(s[j].id@ != s[s.len() - 1].id@);
        }
    }
}

/// `r` is the `NotFound` error for `id`.
pub open spec fn not_found<T>(r: Result<T, RegistryError>, id: Seq<char>) -> bool {
    r matches Err(RegistryError::NotFound(x)) && x@ == id
}

/// `r` is the `NotConnected` error for `id`.
pub open spec fn not_connected<T>(r: Result<T, RegistryError>, id: Seq<char>) -> bool {
    r matches Err(RegistryError::NotConnected(x)) && x@ == id
}

/// The outcome of registering `client` under `id`, connected at `at`, with
/// descriptor `info`: the registry went from `before` to `after` and `r`
/// was returned.
pub open spec fn registration<S>(
    before: Map<Seq<char>, ClientRecord<S>>,
    id: String,
    client: S,
    info: ServerInfoView,
    at: Timestamp,
    r: Result<ClientStatusResponse, RegistryError>,
    after: Map<Seq<char>, ClientRecord<S>>,
) -> bool {
    if before.contains_key(id@) {
        &&& r == Err::<ClientStatusResponse, RegistryError>(RegistryError::DuplicateIdentifier(id))
        &&& after == before
    } else {
        &&& r is Ok
        &&& after == before.insert(
            id@,
            ClientRecord {
                client,
                status: ClientStatus::Connected,
                connected_at: Some(at),
                server_info: Some(info),
            },
        )
        &&& snapshot_of(r->Ok_0, id@, after[id@])
    }
}

/// The outcome of disconnecting `id`.
pub open spec fn disconnection<S>(
    before: Map<Seq<char>, ClientRecord<S>>,
    id: Seq<char>,
    r: Result<ClientStatusResponse, RegistryError>,
    after: Map<Seq<char>, ClientRecord<S>>,
) -> bool {
    if before.contains_key(id) {
        &&& r is Ok
        &&& after == before.insert(
            id,
            ClientRecord { status: ClientStatus::Disconnected, connected_at: None, ..before[id] },
        )
        &&& snapshot_of(r->Ok_0, id, after[id])
    } else {
        not_found(r, id) && after == before
    }
}

/// The outcome of deleting `id`.
pub open spec fn removal<S>(
    before: Map<Seq<char>, ClientRecord<S>>,
    id: Seq<char>,
    r: Result<(), RegistryError>,
    after: Map<Seq<char>, ClientRecord<S>>,
) -> bool {
    if before.contains_key(id) {
        r is Ok && after == before.remove(id)
    } else {
        not_found(r, id) && after == before
    }
}

/// The outcome of asking for the status of `id`.
pub open spec fn status_report<S>(
    m: Map<Seq<char>, ClientRecord<S>>,
    id: Seq<char>,
    r: Result<ClientStatusResponse, RegistryError>,
) -> bool {
    if m.contains_key(id) {
        r is Ok && snapshot_of(r->Ok_0, id, m[id])
    } else {
        not_found(r, id)
    }
}

/// `v` holds the snapshot of every client of `m`, one per identifier.
pub open spec fn all_statuses<S>(m: Map<Seq<char>, ClientRecord<S>>, v: Seq<ClientStatusResponse>) -> bool {
    &&& v.len() == m.dom().len()
    &&& forall|i: int|
        0 <= i < v.len() ==> m.contains_key(#[trigger] v[i].id@) && snapshot_of(
            v[i],
            v[i].id@,
            m[v[i].id@],
        )
    &&& forall|i: int, j: int| 0 <= i < j < v.len() ==> v[i].id@ != v[j].id@
    &&& forall|k: Seq<char>| #[trigger]
        m.contains_key(k) ==> exists|i: int| 0 <= i < v.len() && v[i].id@ == k
}

/// The outcome of repairing `id` at time `at`.
pub open spec fn repair<S>(
    before: Map<Seq<char>, ClientRecord<S>>,
    id: Seq<char>,
    at: Timestamp,
    r: Result<ClientStatusResponse, RegistryError>,
    after: Map<Seq<char>, ClientRecord<S>>,
) -> bool {
    if !before.contains_key(id) {
        not_found(r, id) && after == before
    } else {
        &&& r is Ok
        &&& snapshot_of(r->Ok_0, id, after[id])
        &&& if before[id].status is Connected {
            after == before
        } else {
            after == before.insert(
                id,
                ClientRecord { status: ClientStatus::Connected, connected_at: Some(at), ..before[id] },
            )
        }
    }
}

/// The outcome of resolving `id` for a forwarded operation: the session of a
/// connected client, `NotFound` for an unknown identifier, `NotConnected`
/// for a client that is not connected.
pub open spec fn session_lookup<S>(m: Map<Seq<char>, ClientRecord<S>>, id: Seq<char>, r: Result<&S, RegistryError>) -> bool {
    if !m.contains_key(id) {
        not_found(r, id)
    } else if !(m[id].status is Connected) {
        not_connected(r, id)
    } else {
        r is Ok && *r->Ok_0 == m[id].client
    }
}

/// The registry of client connections, keyed by client identifier. `S` is
/// the transport session that each client owns.
pub struct McpClientManager<S> {
    clients: Vec<ClientInstance<S>>,
}

impl<S> View for McpClientManager<S> {
    type V = Map<Seq<char>, ClientRecord<S>>;

    closed spec fn view(&self) -> Map<Seq<char>, ClientRecord<S>> {
        records_of(self.clients@)
    }
}

/// Relies on chrono::Utc::now: reads the system clock. chrono documents the
/// sub-second part as below two seconds' worth of nanoseconds.
#[verifier::external_body]
pub(crate) fn current_time() -> (r: Timestamp)
    ensures
        r.nanos < 2_000_000_000,
{
    let now = chrono::Utc::now();
    Timestamp { secs: now.timestamp(), nanos: now.timestamp_subsec_nanos() }
}

impl<S> McpClientManager<S> {
    /// Identifiers are unique and every record's timestamp matches its status.
    pub closed spec fn wf(&self) -> bool {
        &&& ids_unique(self.clients@)
        &&& forall|i: int|
            0 <= i < self.clients.len() ==> timestamp_consistent(
                #[trigger] record_of(self.clients@[i]),
            )
    }

    /// An empty registry.
    pub fn new() -> (r: Self)
        ensures
            r.wf(),
            r@ == Map::<Seq<char>, ClientRecord<S>>::empty(),
    {
        McpClientManager { clients: Vec::new() }
    }

    /// In a well-formed registry, a client has a connection timestamp exactly
    /// while it is connected.
    pub proof fn lemma_timestamps_consistent(&self)
        requires
            self.wf(),
        ensures
            forall|k: Seq<char>| #[trigger]
                self@.contains_key(k) ==> timestamp_consistent(self@[k]),
    {
        assert forall|k: Seq<char>| #[trigger] self@.contains_key(k) implies timestamp_consistent(
            self@[k],
        ) by {
            lemma_records_lookup(self.clients@, k);
            let i = choose|i: int| 0 <= i < self.clients.len() && self.clients@[i].id@ == k;
            assert(timestamp_consistent(record_of(self.clients@[i])));
        }
    }

    /// Position of the client `id`.
    fn find(&self, id: &String) -> (r: Option<usize>)
        requires
            self.wf(),
        ensures
            match r {
                Some(i) => i < self.clients.len() && self.clients@[i as int].id@ == id@
                    && self@.contains_key(id@) && self@[id@] == record_of(
                    self.clients@[i as int],
                ),
                None => !self@.contains_key(id@),
            },
    {
        let mut i: usize = 0;
        while i < self.clients.len()
            invariant
                self.wf(),
                i <= self.clients.len(),
                forall|j: int| 0 <= j < i ==> self.clients@[j].id@ != id@,
            decreases self.clients.len() - i,
        {
            if self.clients[i].id == *id {
                proof {
                    lemma_records_lookup(self.clients@, id@);
                }
                return Some(i);
            }
            i = i + 1;
        }
        proof {
            lemma_records_lookup(self.clients@, id@);
        }
        None
    }

    /// Whether a client is registered under `client_id`.
    pub fn contains(&self, client_id: &str) -> (r: bool)
        requires
            self.wf(),
        ensures
            r == self@.contains_key(client_id@),
    {
        let id = String::from_str(client_id);
        self.find(&id).is_some()
    }

    /// The snapshot of the instance at `i`.
    fn snapshot(&self, i: usize) -> (r: ClientStatusResponse)
        requires
            i < self.clients.len(),
        ensures
            snapshot_of(r, self.clients@[i as int].id@, record_of(self.clients@[i as int])),
    {
        let inst = &self.clients[i];
        ClientStatusResponse {
            id: inst.id.clone(),
            status: inst.status.duplicate(),
            error: inst.status.error_message(),
            connected_at: inst.connected_at,
            server_info: duplicate_server_info(&inst.server_info),
        }
    }
    /// Stores a newly connected client under `id`, connected at `at`, with
    /// the server descriptor from its handshake. An identifier that is
    /// already registered is refused and the registry is left as it was.
    pub fn initialize_client_at(
        &mut self,
        id: String,
        client: S,
        server_info: ServerInfo,
        at: Timestamp,
    ) -> (r: Result<ClientStatusResponse, RegistryError>)
        requires
            old(self).wf(),
        ensures
            final(self).wf(),
            registration(old(self)@, id, client, server_info@, at, r, final(self)@),
    {
        if self.find(&id).is_some() {
            return Err(RegistryError::DuplicateIdentifier(id));
        }
        let response = ClientStatusResponse {
            id: id.clone(),
            status: ClientStatus::Connected,
            error: None,
            connected_at: Some(at),
            server_info: Some(server_info.duplicate()),
        };
        let instance = ClientInstance {
            id,
            client,
            status: ClientStatus::Connected,
            connected_at: Some(at),
            server_info: Some(server_info),
        };
        proof {
            lemma_records_push(self.clients@, instance);
        }
        self.clients.push(instance);
        proof {
            lemma_records_lookup(self.clients@, id@);
        }
        Ok(response)
    }

    /// Registers a client whose transport has started and whose handshake
    /// has succeeded, stamped with the current time. An identifier that is
    /// already registered is refused and the registry is left as it was.
    pub fn initialize_client(&mut self, id: String, client: S, server_info: ServerInfo) -> (r:
        Result<ClientStatusResponse, RegistryError>)
        requires
            old(self).wf(),
        ensures
            final(self).wf(),
            exists|at: Timestamp| registration(old(self)@, id, client, server_info@, at, r, final(self)@),
    {
        let at = current_time();
        self.initialize_client_at(id, client, server_info, at)
    }

    /// Marks the client `client_id` disconnected: its timestamp is cleared,
    /// its descriptor and its entry are kept.
    pub fn disconnect_client(&mut self, client_id: &str) -> (r: Result<
        ClientStatusResponse,
        RegistryError,
    >)
        requires
            old(self).wf(),
        ensures
            final(self).wf(),
            disconnection(old(self)@, client_id@, r, final(self)@),
    {
        let id = String::from_str(client_id);
        match self.find(&id) {
            None => Err(RegistryError::NotFound(id)),
            Some(i) => {
                let ghost before = self.clients@;
                self.clients[i].status = ClientStatus::Disconnected;
                self.clients[i].connected_at = None;
                proof {
                    lemma_records_update(before, i as int, self.clients@[i as int]);
                    assert(self.clients@ =~= before.update(i as int, self.clients@[i as int]));
                    lemma_records_lookup(self.clients@, id@);
                }
                Ok(self.snapshot(i))
            },
        }
    }

    /// Removes the client `client_id` from the registry.
    pub fn delete_client(&mut self, client_id: &str) -> (r: Result<(), RegistryError>)
        requires
            old(self).wf(),
        ensures
            final(self).wf(),
            removal(old(self)@, client_id@, r, final(self)@),
    {
        let id = String::from_str(client_id);
        match self.find(&id) {
            None => Err(RegistryError::NotFound(id)),
            Some(i) => {
                proof {
                    lemma_records_remove(self.clients@, i as int);
                }
                let ghost before = self.clients@;
                self.clients.remove(i);
                assert forall|j: int| 0 <= j < self.clients.len() implies timestamp_consistent(
                    #[trigger] record_of(self.clients@[j]),
                ) by {
                    if j < i {
                        assert(self.clients@[j] == before[j]);
                    } else {
                        assert(self.clients@[j] == before[j + 1]);
                    }
                }
                Ok(())
            },
        }
    }

    /// The snapshot of the client `client_id`.
    pub fn get_client_status(&self, client_id: &str) -> (r: Result<
        ClientStatusResponse,
        RegistryError,
    >)
        requires
            self.wf(),
        ensures
            status_report(self@, client_id@, r),
    {
        let id = String::from_str(client_id);
        match self.find(&id) {
            None => Err(RegistryError::NotFound(id)),
            Some(i) => Ok(self.snapshot(i)),
        }
    }

    /// The snapshots of every client, one per identifier, in no promised order.
    pub fn get_all_client_statuses(&self) -> (r: Vec<ClientStatusResponse>)
        requires
            self.wf(),
        ensures
            all_statuses(self@, r@),
    {
        let mut out: Vec<ClientStatusResponse> = Vec::new();
        let mut i: usize = 0;
        while i < self.clients.len()
            invariant
                self.wf(),
                i <= self.clients.len(),
                out.len() == i,
                forall|j: int|
                    0 <= j < i ==> #[trigger] out[j].id@ == self.clients@[j].id@ && snapshot_of(
                        out[j],
                        self.clients@[j].id@,
                        record_of(self.clients@[j]),
                    ),
            decreases self.clients.len() - i,
        {
            out.push(self.snapshot(i));
            i = i + 1;
        }
        proof {
            lemma_records_len(self.clients@);
            assert forall|j: int| 0 <= j < out.len() implies self@.contains_key(
                #[trigger] out[j].id@,
            ) && snapshot_of(out[j], out[j].id@, self@[out[j].id@]) by {
                lemma_records_lookup(self.clients@, out[j].id@);
            }
            assert forall|a: int, b: int| 0 <= a < b < out.len() implies out[a].id@
                != out[b].id@ by {
                assert(out[a].id@ == self.clients@[a].id@);
                assert(out[b].id@ == self.clients@[b].id@);
            }
            assert forall|k: Seq<char>| #[trigger] self@.contains_key(k) implies exists|j: int|
                0 <= j < out.len() && out[j].id@ == k by {
                lemma_records_lookup(self.clients@, k);
                let j = choose|j: int| 0 <= j < self.clients.len() && self.clients@[j].id@ == k;
                assert(out[j].id@ == k);
            }
        }
        out
    }

    /// Brings the client `client_id` back to `Connected`, stamped `at`. A
    /// client that is connected already is left as it is. The session is
    /// reused as it stands: nothing here revives a dead transport.
    pub fn repair_client_at(&mut self, client_id: &str, at: Timestamp) -> (r: Result<
        ClientStatusResponse,
        RegistryError,
    >)
        requires
            old(self).wf(),
        ensures
            final(self).wf(),
            repair(old(self)@, client_id@, at, r, final(self)@),
    {
        let id = String::from_str(client_id);
        match self.find(&id) {
            None => Err(RegistryError::NotFound(id)),
            Some(i) => {
                let connected = match self.clients[i].status {
                    ClientStatus::Connected => true,
                    _ => false,
                };
                if connected {
                    return Ok(self.snapshot(i));
                }
                let ghost before = self.clients@;
                self.clients[i].status = ClientStatus::Connecting;
                self.clients[i].status = ClientStatus::Connected;
                self.clients[i].connected_at = Some(at);
                proof {
                    lemma_records_update(before, i as int, self.clients@[i as int]);
                    assert(self.clients@ =~= before.update(i as int, self.clients@[i as int]));
                    lemma_records_lookup(self.clients@, id@);
                }
                Ok(self.snapshot(i))
            },
        }
    }

    /// Brings the client `client_id` back to `Connected`, stamped with the
    /// current time; see `repair_client_at`.
    pub fn repair_client(&mut self, client_id: &str) -> (r: Result<
        ClientStatusResponse,
        RegistryError,
    >)
        requires
            old(self).wf(),
        ensures
            final(self).wf(),
            exists|at: Timestamp| repair(old(self)@, client_id@, at, r, final(self)@),
    {
        let at = current_time();
        self.repair_client_at(client_id, at)
    }

    /// The session of the client `client_id`, which must be registered and
    /// connected for any operation to be forwarded to it.
    pub fn get_client(&self, client_id: &str) -> (r: Result<&S, RegistryError>)
        requires
            self.wf(),
        ensures
            session_lookup(self@, client_id@, r),
    {
        let id = String::from_str(client_id);
        match self.find(&id) {
            None => Err(RegistryError::NotFound(id)),
            Some(i) => {
                match self.clients[i].status {
                    ClientStatus::Connected => Ok(&self.clients[i].client),
                    _ => Err(RegistryError::NotConnected(id)),
                }
            },
        }
    }
}

} // verus!
