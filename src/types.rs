//! Requests, status snapshots and response envelopes exchanged with callers.

use vstd::prelude::*;
use crate::json::{Json, JsonModel, duplicate_entries};

verus! {

/// The two kinds of transport a tool server is reached over.
#[derive(Debug, Clone, Copy, PartialEq, Eq, Structural)]
pub enum TransportType {
    /// A streaming HTTP connection.
    SSE,
    /// A locally spawned subprocess spoken to over standard input and output.
    Stdio,
}

/// What a caller supplies to register a client.
#[derive(Debug, Clone)]
pub struct InitializeClientRequest {
    pub id: String,
    pub transport_type: TransportType,
    pub sse_url: Option<String>,
    pub command: Option<String>,
    pub args: Option<Vec<String>>,
    /// Connection headers for a streaming transport; environment variables
    /// for a subprocess.
    pub headers: Option<Vec<(String, String)>>,
    pub timeout_secs: Option<u64>,
    pub client_name: String,
    pub client_version: String,
}

/// Lifecycle status of a client.
#[derive(Debug, Clone, PartialEq)]
pub enum ClientStatus {
    Disconnected,
    Connecting,
    Connected,
    Error(String),
}

impl ClientStatus {
    /// A copy of the status.
    pub fn duplicate(&self) -> (r: ClientStatus)
        ensures
            r == *self,
    {
        match self {
            ClientStatus::Disconnected => ClientStatus::Disconnected,
            ClientStatus::Connecting => ClientStatus::Connecting,
            ClientStatus::Connected => ClientStatus::Connected,
            ClientStatus::Error(e) => ClientStatus::Error(e.clone()),
        }
    }

    /// The message of an `Error` status.
    pub fn error_message(&self) -> (r: Option<String>)
        ensures
            match *self {
                ClientStatus::Error(e) => r == Some(e),
                _ => r is None,
            },
    {
        match self {
            ClientStatus::Error(e) => Some(e.clone()),
            _ => None,
        }
    }
}

/// A point in time: whole seconds since the Unix epoch and the nanoseconds
/// past that second.
#[derive(Debug, Clone, Copy, PartialEq, Eq, Structural)]
pub struct Timestamp {
    pub secs: i64,
    pub nanos: u32,
}

/// What a server said of itself during the handshake.
#[derive(Debug, PartialEq)]
pub struct ServerInfo {
    pub name: String,
    pub version: String,
    /// Capability map, kept as the server sent it.
    pub capabilities: Vec<(String, Json)>,
}

/// The mathematical form of a server descriptor.
pub struct ServerInfoView {
    pub name: Seq<char>,
    pub version: Seq<char>,
    pub capabilities: Seq<(Seq<char>, JsonModel)>,
}

impl View for ServerInfo {
    type V = ServerInfoView;

    open spec fn view(&self) -> ServerInfoView {
        ServerInfoView {
            name: self.name@,
            version: self.version@,
            capabilities: Seq::new(
                self.capabilities.len() as nat,
                |i: int| (self.capabilities[i].0@, self.capabilities[i].1@),
            ),
        }
    }
}

impl ServerInfo {
    /// A copy of the descriptor.
    pub fn duplicate(&self) -> (r: ServerInfo)
        ensures
            r@ == self@,
    {
        let r = ServerInfo {
            name: self.name.clone(),
            version: self.version.clone(),
            capabilities: duplicate_entries(&self.capabilities),
        };
        assert(r@.capabilities =~= self@.capabilities);
        r
    }
}

/// The view of an optional server descriptor.
pub open spec fn server_view(s: Option<ServerInfo>) -> Option<ServerInfoView> {
    match s {
        Some(info) => Some(info@),
        None => None,
    }
}

/// A copy of an optional server descriptor.
pub fn duplicate_server_info(s: &Option<ServerInfo>) -> (r: Option<ServerInfo>)
    ensures
        server_view(r) == server_view(*s),
{
    match s {
        Some(info) => Some(info.duplicate()),
        None => None,
    }
}

/// A snapshot of one client.
#[derive(Debug)]
pub struct ClientStatusResponse {
    pub id: String,
    pub status: ClientStatus,
    pub error: Option<String>,
    pub connected_at: Option<Timestamp>,
    pub server_info: Option<ServerInfo>,
}

/// A request that names a client.
#[derive(Debug, Clone)]
pub struct OperationRequest {
    pub client_id: String,
}

/// A request to call a tool.
#[derive(Debug)]
pub struct ToolCallRequest {
    pub client_id: String,
    pub tool_name: String,
    pub params: Json,
}

/// A request to read a resource.
#[derive(Debug, Clone)]
pub struct ResourceReadRequest {
    pub client_id: String,
    pub resource_uri: String,
}

/// A request to fetch a prompt.
#[derive(Debug)]
pub struct PromptRequest {
    pub client_id: String,
    pub prompt_name: String,
    pub params: Json,
}

/// A listing request with an optional cursor or filter.
#[derive(Debug, Clone)]
pub struct FilterRequest {
    pub client_id: String,
    pub filter: Option<String>,
}

/// The envelope of every forwarded operation: `data` on success, a message
/// on failure, never both.
#[derive(Debug)]
pub struct McpResponse<T> {
    pub success: bool,
    pub data: Option<T>,
    pub error: Option<String>,
}

impl<T> McpResponse<T> {
    /// Success carries no message and failure carries no payload.
    pub open spec fn well_formed(&self) -> bool {
        &&& self.success ==> self.error is None
        &&& !self.success ==> self.data is None
    }

    /// A successful envelope around `data`.
    pub fn succeeded(data: T) -> (r: McpResponse<T>)
        ensures
            r.success,
            r.data == Some(data),
            r.error is None,
    {
        McpResponse { success: true, data: Some(data), error: None }
    }

    /// A failed envelope carrying `message`.
    pub fn failed(message: String) -> (r: McpResponse<T>)
        ensures
            !r.success,
            r.data is None,
            r.error == Some(message),
    {
        McpResponse { success: false, data: None, error: Some(message) }
    }
}

/// A tool as listed by a server.
#[derive(Debug)]
pub struct ToolInfo {
    pub name: String,
    pub description: String,
    pub parameters_schema: Option<Json>,
    pub result_schema: Option<Json>,
}

impl ToolInfo {
    /// A listed tool: its input schema is its parameter schema; no result
    /// schema is known.
    pub fn listed(name: String, description: String, input_schema: Json) -> (r: ToolInfo)
        ensures
            r.name == name,
            r.description == description,
            r.parameters_schema == Some(input_schema),
            r.result_schema is None,
    {
        ToolInfo { name, description, parameters_schema: Some(input_schema), result_schema: None }
    }
}

/// A resource as listed by a server.
#[derive(Debug, Clone, PartialEq)]
pub struct ResourceInfo {
    pub uri: String,
    pub description: String,
    pub content_type: String,
}

impl ResourceInfo {
    /// A listed resource; a missing description reads as empty.
    pub fn listed(uri: String, description: Option<String>, mime_type: String) -> (r: ResourceInfo)
        ensures
            r.uri == uri,
            r.content_type == mime_type,
            match description {
                Some(d) => r.description == d,
                None => r.description@ == Seq::<char>::empty(),
            },
    {
        let description = match description {
            Some(d) => d,
            None => String::new(),
        };
        ResourceInfo { uri, description, content_type: mime_type }
    }
}

/// A prompt as listed by a server.
#[derive(Debug)]
pub struct PromptInfo {
    pub name: String,
    pub description: String,
    pub parameters_schema: Option<Json>,
}

impl PromptInfo {
    /// A listed prompt; a missing description reads as empty, and the
    /// argument list is its parameter schema.
    pub fn listed(name: String, description: Option<String>, arguments: Json) -> (r: PromptInfo)
        ensures
            r.name == name,
            match description {
                Some(d) => r.description == d,
                None => r.description@ == Seq::<char>::empty(),
            },
            r.parameters_schema == Some(arguments),
    {
        let description = match description {
            Some(d) => d,
            None => String::new(),
        };
        PromptInfo { name, description, parameters_schema: Some(arguments) }
    }
}

impl ServerInfo {
    /// The descriptor a handshake reported: the capability map is the
    /// entries of `capabilities` when it is an object, and empty otherwise.
    pub fn from_handshake(name: String, version: String, capabilities: Json) -> (r: ServerInfo)
        ensures
            r.name == name,
            r.version == version,
            match capabilities {
                Json::Object(entries) => r.capabilities == entries,
                _ => r.capabilities@.len() == 0,
            },
    {
        let capabilities = match capabilities {
            Json::Object(entries) => entries,
            _ => Vec::new(),
        };
        ServerInfo { name, version, capabilities }
    }
}

} // verus!
