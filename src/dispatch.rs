//! Forwarding operations: the checks made before a call reaches a server,
//! and the rendering of every outcome into a response envelope.

use vstd::prelude::*;
use crate::client::{ClientRecord, McpClientManager, RegistryError, not_connected, not_found};
use crate::json::{Json, normalize_tool_arguments, normalized_arguments};
use crate::types::{McpResponse, ToolCallRequest};

verus! {

/// Seconds a tool call may take before its result is no longer awaited.
pub const TOOL_CALL_TIMEOUT_SECS: u64 = 30;

/// A failure reported by the protocol client for a forwarded call.
#[derive(Debug, Clone, PartialEq)]
pub enum RemoteFailure {
    /// The transport failed; carries its message.
    Transport(String),
    /// The server answered with an RPC error.
    Rpc { code: i32, message: String },
    /// A message could not be encoded or decoded.
    Serialization(String),
    /// The server's answer had an unexpected shape.
    UnexpectedResponse(String),
    /// The session has not been initialised.
    NotInitialized,
    /// The service was not ready, or the wait for it ran out.
    NotReady,
    /// The request timed out inside the protocol client.
    Timeout,
    /// The server reported an error of its own.
    ServerBox(String),
    /// A method failed on a named server.
    ServerCall { method: String, server: String, source: String },
    /// Any other failure, by its default text.
    Unknown(String),
}

pub open spec fn digit_char(d: nat) -> char {
    if d == 0 { '0' }
    else if d == 1 { '1' }
    else if d == 2 { '2' }
    else if d == 3 { '3' }
    else if d == 4 { '4' }
    else if d == 5 { '5' }
    else if d == 6 { '6' }
    else if d == 7 { '7' }
    else if d == 8 { '8' }
    else { '9' }
}

/// The decimal digits of `n`, most significant first.
pub open spec fn digits(n: nat) -> Seq<char>
    decreases n,
{
    if n < 10 {
        seq![digit_char(n)]
    } else {
        digits(n / 10).push(digit_char(n % 10))
    }
}

/// The decimal text of `n`, with a leading `-` when negative.
pub open spec fn decimal(n: int) -> Seq<char> {
    if n < 0 {
        seq!['-'] + digits((-n) as nat)
    } else {
        digits(n as nat)
    }
}

fn digit_text(d: u64) -> (r: &'static str)
    requires
        d < 10,
    ensures
        r@ == seq![digit_char(d as nat)],
{
    let r = if d == 0 { "0" }
    else if d == 1 { "1" }
    else if d == 2 { "2" }
    else if d == 3 { "3" }
    else if d == 4 { "4" }
    else if d == 5 { "5" }
    else if d == 6 { "6" }
    else if d == 7 { "7" }
    else if d == 8 { "8" }
    else { "9" };
    proof {
        reveal_strlit("0");
        reveal_strlit("1");
        reveal_strlit("2");
        reveal_strlit("3");
        reveal_strlit("4");
        reveal_strlit("5");
        reveal_strlit("6");
        reveal_strlit("7");
        reveal_strlit("8");
        reveal_strlit("9");
    }
    assert(r@ =~= seq![digit_char(d as nat)]);
    r
}

/// The decimal text of an integer.
pub fn decimal_text(n: i64) -> (r: String)
    ensures
        r@ == decimal(n as int),
{
    let negative = n < 0;
    let whole: u64 = if negative { (0i128 - n as i128) as u64 } else { n as u64 };
    let mut m: u64 = whole / 10;
    let mut out = String::from_str(digit_text(whole % 10));
    proof {
        if whole >= 10 {
            assert(digits(whole as nat) =~= digits(m as nat) + out@);
        } else {
            assert(digits(whole as nat) =~= out@);
        }
    }
    while m > 0
        invariant
            m > 0 ==> digits(whole as nat) =~= digits(m as nat) + out@,
            m == 0 ==> digits(whole as nat) =~= out@,
        decreases m,
    {
        let d = digit_text(m % 10);
        out = String::from_str(d).concat(out.as_str());
        proof {
            if m >= 10 {
                assert(digits(m as nat) == digits((m / 10) as nat).push(
                    digit_char((m % 10) as nat),
                ));
                assert(digits(whole as nat) =~= digits((m / 10) as nat) + out@);
            } else {
                assert(digits(m as nat) == seq![digit_char(m as nat)]);
                assert(digits(whole as nat) =~= out@);
            }
        }
        m = m / 10;
    }
    if negative {
        proof {
            reveal_strlit("-");
        }
        out = String::from_str("-").concat(out.as_str());
    }
    out
}


/// The message that an envelope carries for a remote failure.
pub open spec fn failure_text(f: RemoteFailure) -> Seq<char> {
    match f {
        RemoteFailure::Transport(m) => "传输错误: "@ + m@,
        RemoteFailure::Rpc { code, message } => "RPC错误: 代码="@ + decimal(code as int) + ", 消息="@
            + message@,
        RemoteFailure::Serialization(m) => "序列化错误: "@ + m@,
        RemoteFailure::UnexpectedResponse(m) => "意外响应: "@ + m@,
        RemoteFailure::NotInitialized => "客户端未初始化"@,
        RemoteFailure::NotReady => "服务未就绪或超时"@,
        RemoteFailure::Timeout => "请求超时"@,
        RemoteFailure::ServerBox(m) => "服务器错误: "@ + m@,
        RemoteFailure::ServerCall { method, server, source } => "MCP服务器错误: 方法="@ + method@
            + ", 服务器="@ + server@ + ", 源="@ + source@,
        RemoteFailure::Unknown(m) => "未知错误: "@ + m@,
    }
}

/// The message for an empty tool name.
pub open spec fn empty_tool_name_text() -> Seq<char> {
    "工具名称不能为空"@
}

impl RemoteFailure {
    /// The human-readable message of the failure.
    pub fn render(&self) -> (r: String)
        ensures
            r@ == failure_text(*self),
    {
        match self {
            RemoteFailure::Transport(m) => String::from_str("传输错误: ").concat(m.as_str()),
            RemoteFailure::Rpc { code, message } => {
                let code_text = decimal_text(*code as i64);
                String::from_str("RPC错误: 代码=").concat(code_text.as_str()).concat(", 消息=").concat(
                    message.as_str(),
                )
            },
            RemoteFailure::Serialization(m) => String::from_str("序列化错误: ").concat(m.as_str()),
            RemoteFailure::UnexpectedResponse(m) => String::from_str("意外响应: ").concat(m.as_str()),
            RemoteFailure::NotInitialized => String::from_str("客户端未初始化"),
            RemoteFailure::NotReady => String::from_str("服务未就绪或超时"),
            RemoteFailure::Timeout => String::from_str("请求超时"),
            RemoteFailure::ServerBox(m) => String::from_str("服务器错误: ").concat(m.as_str()),
            RemoteFailure::ServerCall { method, server, source } => {
                String::from_str("MCP服务器错误: 方法=").concat(method.as_str()).concat(
                    ", 服务器=",
                ).concat(server.as_str()).concat(", 源=").concat(source.as_str())
            },
            RemoteFailure::Unknown(m) => String::from_str("未知错误: ").concat(m.as_str()),
        }
    }
}

/// `r` is the envelope for the outcome `outcome` of a forwarded call.
pub open spec fn envelope_of<T>(r: McpResponse<T>, outcome: Result<T, RemoteFailure>) -> bool {
    &&& r.well_formed()
    &&& match outcome {
        Ok(v) => r.success && r.data == Some(v),
        Err(f) => !r.success && r.error is Some && r.error->0@ == failure_text(f),
    }
}

/// The envelope for the outcome of a forwarded call: the payload on
/// success, the rendered failure otherwise.
pub fn respond<T>(outcome: Result<T, RemoteFailure>) -> (r: McpResponse<T>)
    ensures
        envelope_of(r, outcome),
{
    match outcome {
        Ok(v) => McpResponse::succeeded(v),
        Err(f) => McpResponse::failed(f.render()),
    }
}

/// The outcome of a call whose result was awaited under a deadline: `None`
/// means the deadline passed, which counts as the service not being ready.
pub fn within_deadline<T>(waited: Option<Result<T, RemoteFailure>>) -> (r: Result<T, RemoteFailure>)
    ensures
        match waited {
            Some(outcome) => r == outcome,
            None => r == Err::<T, RemoteFailure>(RemoteFailure::NotReady),
        },
{
    match waited {
        Some(outcome) => outcome,
        None => Err(RemoteFailure::NotReady),
    }
}

/// The envelope for a tool call awaited under the deadline. A call that ran
/// out of time is answered with a failed envelope carrying the not-ready
/// message.
pub fn tool_call_response<T>(waited: Option<Result<T, RemoteFailure>>) -> (r: McpResponse<T>)
    ensures
        match waited {
            Some(outcome) => envelope_of(r, outcome),
            None => envelope_of(r, Err(RemoteFailure::NotReady)),
        },
        waited is None ==> !r.success && r.data is None && r.error is Some && r.error->0@
            == failure_text(RemoteFailure::NotReady),
{
    respond(within_deadline(waited))
}

/// The decision on a tool call `request` against the registry `m`.
pub open spec fn tool_call_decision<'a, S>(
    m: Map<Seq<char>, ClientRecord<S>>,
    request: ToolCallRequest,
    r: Result<ToolCallStep<'a, S>, RegistryError>,
) -> bool {
    let id = request.client_id@;
    if !m.contains_key(id) {
        not_found(r, id)
    } else if !(m[id].status is Connected) {
        not_connected(r, id)
    } else if request.tool_name@.len() == 0 {
        match r {
            Ok(ToolCallStep::Answer(resp)) => {
                &&& !resp.success
                &&& resp.data is None
                &&& resp.error is Some
                &&& resp.error->0@ == empty_tool_name_text()
                &&& resp.error->0@.len() > 0
            },
            _ => false,
        }
    } else {
        match r {
            Ok(ToolCallStep::Forward { session, arguments }) => {
                &&& *session == m[id].client
                &&& arguments == normalized_arguments(request.params)
            },
            _ => false,
        }
    }
}

/// What becomes of a tool call once the registry has been consulted.
pub enum ToolCallStep<'a, S> {
    /// Answered at once, without contacting the server.
    Answer(McpResponse<Json>),
    /// To be forwarded to `session` with the normalised `arguments`.
    Forward { session: &'a S, arguments: Json },
}

impl<S> McpClientManager<S> {
    /// Decides a tool call: the client must be registered and connected; an
    /// empty tool name is answered with a failed envelope; otherwise the
    /// normalised arguments are to be forwarded to the client's session.
    pub fn call_tool(&self, request: ToolCallRequest) -> (r: Result<
        ToolCallStep<'_, S>,
        RegistryError,
    >)
        requires
            self.wf(),
        ensures
            tool_call_decision(self@, request, r),
    {
        let session = match self.get_client(request.client_id.as_str()) {
            Ok(session) => session,
            Err(e) => return Err(e),
        };
        if request.tool_name.as_str().is_empty() {
            proof {
                reveal_strlit("工具名称不能为空");
            }
            return Ok(ToolCallStep::Answer(McpResponse::failed(String::from_str("工具名称不能为空"))));
        }
        let arguments = normalize_tool_arguments(request.params);
        Ok(ToolCallStep::Forward { session, arguments })
    }
}

} // verus!
