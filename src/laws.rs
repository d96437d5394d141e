//! Properties that relate several registry operations, proved from the
//! operations' own contracts.

use vstd::prelude::*;
use crate::client::{
    ClientRecord, RegistryError, all_statuses, disconnection, not_connected, not_found,
    registration, removal, session_lookup, status_report,
};
use crate::dispatch::tool_call_decision;
use crate::dispatch::ToolCallStep;
use crate::json::{Json, entry_of, invocation_arguments, normalized_arguments, parsed_json};
use crate::types::{
    ClientStatus, ClientStatusResponse, ServerInfoView, Timestamp, ToolCallRequest, server_view,
};

verus! {

/// The registry of client records, as the operations' contracts see it.
pub type Registry<S> = Map<Seq<char>, ClientRecord<S>>;

/// Two snapshots report the same client in the same state.
pub open spec fn same_snapshot(x: ClientStatusResponse, y: ClientStatusResponse) -> bool {
    &&& x.id@ == y.id@
    &&& x.status == y.status
    &&& x.error == y.error
    &&& x.connected_at == y.connected_at
    &&& server_view(x.server_info) == server_view(y.server_info)
}

/// Registering an identifier that a registration has already used is
/// refused with `DuplicateIdentifier`, and the registry keeps the record
/// that the first registration stored.
pub proof fn lemma_duplicate_registration_refused<S>(
    m0: Registry<S>,
    id: String,
    first: S,
    first_info: ServerInfoView,
    first_at: Timestamp,
    r1: Result<ClientStatusResponse, RegistryError>,
    m1: Registry<S>,
    second: S,
    second_info: ServerInfoView,
    second_at: Timestamp,
    r2: Result<ClientStatusResponse, RegistryError>,
    m2: Registry<S>,
)
    requires
        registration(m0, id, first, first_info, first_at, r1, m1),
        registration(m1, id, second, second_info, second_at, r2, m2),
    ensures
        r2 == Err::<ClientStatusResponse, RegistryError>(RegistryError::DuplicateIdentifier(id)),
        m2 == m1,
        m2.contains_key(id@),
        !m0.contains_key(id@) ==> m2[id@] == (ClientRecord {
            client: first,
            status: ClientStatus::Connected,
            connected_at: Some(first_at),
            server_info: Some(first_info),
        }),
{
}

/// After a successful registration, the status of the new client is
/// `Connected`, with its connection time and its server descriptor.
pub proof fn lemma_registered_client_connected<S>(
    m0: Registry<S>,
    id: String,
    client: S,
    info: ServerInfoView,
    at: Timestamp,
    r1: Result<ClientStatusResponse, RegistryError>,
    m1: Registry<S>,
    r2: Result<ClientStatusResponse, RegistryError>,
)
    requires
        registration(m0, id, client, info, at, r1, m1),
        (r1 is Ok),
        status_report(m1, id@, r2),
    ensures
        (r2 is Ok),
        r2->Ok_0.status == ClientStatus::Connected,
        r2->Ok_0.connected_at == Some(at),
        server_view(r2->Ok_0.server_info) == Some(info),
{
}

/// After a disconnect, the client is still registered and its status is
/// `Disconnected` with no connection time.
pub proof fn lemma_disconnected_client_kept<S>(
    m0: Registry<S>,
    id: Seq<char>,
    r1: Result<ClientStatusResponse, RegistryError>,
    m1: Registry<S>,
    r2: Result<ClientStatusResponse, RegistryError>,
)
    requires
        disconnection(m0, id, r1, m1),
        m0.contains_key(id),
        status_report(m1, id, r2),
    ensures
        m1.contains_key(id),
        (r2 is Ok),
        r2->Ok_0.status == ClientStatus::Disconnected,
        (r2->Ok_0.connected_at is None),
        server_view(r2->Ok_0.server_info) == m0[id].server_info,
{
}

/// After a delete, asking for the client's status fails with `NotFound`.
pub proof fn lemma_deleted_client_not_found<S>(
    m0: Registry<S>,
    id: Seq<char>,
    r1: Result<(), RegistryError>,
    m1: Registry<S>,
    r2: Result<ClientStatusResponse, RegistryError>,
)
    requires
        removal(m0, id, r1, m1),
        status_report(m1, id, r2),
    ensures
        !m1.contains_key(id),
        not_found(r2, id),
{
}

/// An operation forwarded to a client that was disconnected fails with
/// `NotConnected`; one forwarded to an identifier never registered fails
/// with `NotFound`. Neither reaches a transport.
pub proof fn lemma_forwarding_needs_connection<S>(
    m0: Registry<S>,
    id: Seq<char>,
    r1: Result<ClientStatusResponse, RegistryError>,
    m1: Registry<S>,
    r2: Result<&S, RegistryError>,
    unknown: Seq<char>,
    r3: Result<&S, RegistryError>,
)
    requires
        disconnection(m0, id, r1, m1),
        m0.contains_key(id),
        session_lookup(m1, id, r2),
        !m1.contains_key(unknown),
        session_lookup(m1, unknown, r3),
    ensures
        not_connected(r2, id),
        not_found(r3, unknown),
{
}

/// A tool call to a client that was disconnected fails with `NotConnected`,
/// and one to an identifier never registered fails with `NotFound`.
pub proof fn lemma_tool_call_needs_connection<'a, S>(
    m0: Registry<S>,
    r1: Result<ClientStatusResponse, RegistryError>,
    m1: Registry<S>,
    request: ToolCallRequest,
    r2: Result<ToolCallStep<'a, S>, RegistryError>,
)
    requires
        disconnection(m0, request.client_id@, r1, m1) && m0.contains_key(request.client_id@)
            || !m1.contains_key(request.client_id@),
        tool_call_decision(m1, request, r2),
    ensures
        m0.contains_key(request.client_id@) && disconnection(m0, request.client_id@, r1, m1)
            ==> not_connected(r2, request.client_id@),
        !m1.contains_key(request.client_id@) ==> not_found(r2, request.client_id@),
{
}

/// Listing every status after two registrations of distinct identifiers in
/// an empty registry gives exactly two snapshots, one per identifier, each
/// the same as that client's own status.
pub proof fn lemma_two_registrations_listed<S>(
    a: String,
    client_a: S,
    info_a: ServerInfoView,
    at_a: Timestamp,
    ra: Result<ClientStatusResponse, RegistryError>,
    m1: Registry<S>,
    b: String,
    client_b: S,
    info_b: ServerInfoView,
    at_b: Timestamp,
    rb: Result<ClientStatusResponse, RegistryError>,
    m2: Registry<S>,
    all: Seq<ClientStatusResponse>,
)
    requires
        registration(Map::empty(), a, client_a, info_a, at_a, ra, m1),
        registration(m1, b, client_b, info_b, at_b, rb, m2),
        a@ != b@,
        all_statuses(m2, all),
    ensures
        all.len() == 2,
        all[0].id@ == a@ && all[1].id@ == b@ || all[0].id@ == b@ && all[1].id@ == a@,
        forall|i: int, r: Result<ClientStatusResponse, RegistryError>|
            0 <= i < 2 && #[trigger] status_report(m2, all[i].id@, r) ==> r is Ok && same_snapshot(
                r->Ok_0,
                all[i],
            ),
{
    assert(m2.dom() =~= Set::empty().insert(a@).insert(b@));
    assert(all.len() == 2);
    assert(all[0].id@ != all[1].id@);
}

/// Tool-call parameters that are not a string are forwarded unchanged.
pub proof fn lemma_non_string_arguments_unchanged(params: Json)
    requires
        !(params is String),
    ensures
        normalized_arguments(params) == params,
{
}

/// A string that is not JSON text is forwarded unchanged.
pub proof fn lemma_unparsable_text_unchanged(text: String)
    requires
        parsed_json(text@) is None,
    ensures
        normalized_arguments(Json::String(text)) == Json::String(text),
{
}

/// A string holding an invocation envelope, an object whose only entries
/// are `name` and an object under `arguments`, is forwarded as that
/// `arguments` object.
pub proof fn lemma_invocation_envelope_unwrapped(
    text: String,
    name_key: String,
    name: Json,
    arguments_key: String,
    arguments: Vec<(String, Json)>,
    envelope: Vec<(String, Json)>,
)
    requires
        name_key@ == "name"@,
        arguments_key@ == "arguments"@,
        envelope@ == seq![(name_key, name), (arguments_key, Json::Object(arguments))],
        parsed_json(text@) == Some(Json::Object(envelope)),
    ensures
        normalized_arguments(Json::String(text)) == Json::Object(arguments),
{
    reveal_strlit("name");
    reveal_strlit("arguments");
    let e = envelope@;
    assert(e[0].0@ == "name"@);
    assert(e[1].0@ == "arguments"@);
    assert("name"@ != "arguments"@);
    assert(entry_of(e, "name"@) == Some(name));
    assert(e.drop_first()[0] == e[1]);
    assert(entry_of(e.drop_first(), "arguments"@) == Some(Json::Object(arguments)));
    assert(entry_of(e, "arguments"@) == Some(Json::Object(arguments)));
    assert(invocation_arguments(Json::Object(envelope)) == Json::Object(arguments));
}

} // verus!
