//! How a registration request becomes a transport to start: which endpoint or
//! command, with which headers, arguments and environment.

use vstd::prelude::*;
use crate::client::{McpClientManager, RegistryError};
use crate::types::{InitializeClientRequest, TransportType};

verus! {

/// The transport that a registration will start.
#[derive(Debug)]
pub enum TransportPlan {
    /// A streaming HTTP connection to `url`, opened with `headers`.
    Sse { url: String, headers: Vec<(String, String)> },
    /// A subprocess running `command` with `args` in the environment `env`.
    Stdio { command: String, args: Vec<String>, env: Vec<(String, String)> },
}

/// The text of a list of key-value pairs.
pub open spec fn pairs_view(v: Seq<(String, String)>) -> Seq<(Seq<char>, Seq<char>)> {
    Seq::new(v.len(), |i: int| (v[i].0@, v[i].1@))
}

/// The text of a list of strings.
pub open spec fn strings_view(v: Seq<String>) -> Seq<Seq<char>> {
    Seq::new(v.len(), |i: int| v[i]@)
}

/// Position of the first pair whose key is `key`; the length when none is.
pub open spec fn key_index(env: Seq<(Seq<char>, Seq<char>)>, key: Seq<char>) -> int
    decreases env.len(),
{
    if env.len() == 0 {
        0
    } else if env[0].0 == key {
        0
    } else {
        1 + key_index(env.drop_first(), key)
    }
}

/// The subprocess environment once the inherited search path is merged in:
/// a `PATH` the caller gave keeps its value, followed by `;` and the
/// inherited one; otherwise the inherited value is added under `PATH`.
pub open spec fn merged_env(env: Seq<(Seq<char>, Seq<char>)>, inherited: Option<Seq<char>>) -> Seq<
    (Seq<char>, Seq<char>),
> {
    match inherited {
        None => env,
        Some(path) => {
            let i = key_index(env, "PATH"@);
            if i < env.len() {
                env.update(i, ("PATH"@, env[i].1 + ";"@ + path))
            } else {
                env.push(("PATH"@, path))
            }
        },
    }
}

proof fn lemma_key_index(env: Seq<(Seq<char>, Seq<char>)>, key: Seq<char>, i: int)
    requires
        0 <= i <= env.len(),
        forall|j: int| 0 <= j < i ==> env[j].0 != key,
        i < env.len() ==> env[i].0 == key,
    ensures
        key_index(env, key) == i,
    decreases i,
{
    if i > 0 {
        lemma_key_index(env.drop_first(), key, i - 1);
    }
}

/// Merges the inherited search path into a subprocess environment.
pub fn merge_inherited_path(env: Vec<(String, String)>, inherited: Option<String>) -> (r: Vec<
    (String, String),
>)
    ensures
        pairs_view(r@) == merged_env(
            pairs_view(env@),
            match inherited {
                Some(p) => Some(p@),
                None => None,
            },
        ),
{
    let path = match inherited {
        None => {
            assert(pairs_view(env@) =~= merged_env(pairs_view(env@), None));
            return env;
        },
        Some(p) => p,
    };
    let key = String::from_str("PATH");
    let ghost before = pairs_view(env@);
    let mut env = env;
    let mut i: usize = 0;
    let mut found = false;
    while i < env.len() && !found
        invariant
            i <= env.len(),
            pairs_view(env@) == before,
            key@ == "PATH"@,
            forall|j: int| 0 <= j < i ==> env@[j].0@ != key@,
            found ==> i < env.len() && env@[i as int].0@ == key@,
        decreases env.len() - i + (if found { 0int } else { 1int }),
    {
        if env[i].0 == key {
            found = true;
        } else {
            i = i + 1;
        }
    }
    proof {
        assert(before.len() == env.len());
        assert forall|j: int| 0 <= j < i implies before[j].0 != "PATH"@ by {
            assert(before[j].0 == env@[j].0@);
        }
        if i < env.len() {
            assert(before[i as int].0 == env@[i as int].0@);
        }
    }
    proof {
        lemma_key_index(before, "PATH"@, i as int);
    }
    if i < env.len() {
        let value = env[i].1.clone().concat(";").concat(path.as_str());
        env[i].1 = value;
        assert(pairs_view(env@) =~= merged_env(before, Some(path@)));
    } else {
        env.push((key, path));
        assert(pairs_view(env@) =~= merged_env(before, Some(path@)));
    }
    env
}

/// `r` is the plan for `request`, with `inherited_path` as the search path
/// the subprocess would inherit.
pub open spec fn planned(
    request: InitializeClientRequest,
    inherited_path: Option<String>,
    r: Result<TransportPlan, RegistryError>,
) -> bool {
    let headers = match request.headers {
        Some(hs) => hs@,
        None => Seq::empty(),
    };
    match request.transport_type {
        TransportType::SSE => match request.sse_url {
            None => r == Err::<TransportPlan, RegistryError>(RegistryError::MissingUrl),
            Some(url) => match r {
                Ok(TransportPlan::Sse { url: u, headers: h }) => u == url && h@ == headers,
                _ => false,
            },
        },
        TransportType::Stdio => match request.command {
            None => r == Err::<TransportPlan, RegistryError>(RegistryError::MissingCommand),
            Some(command) => match r {
                Ok(TransportPlan::Stdio { command: c, args: a, env: e }) => {
                    &&& c == command
                    &&& a@ == match request.args {
                        Some(v) => v@,
                        None => Seq::empty(),
                    }
                    &&& pairs_view(e@) == merged_env(
                        pairs_view(headers),
                        match inherited_path {
                            Some(p) => Some(p@),
                            None => None,
                        },
                    )
                },
                _ => false,
            },
        },
    }
}

/// The transport that a request asks for. A streaming transport needs an
/// endpoint URL and a subprocess needs a command; headers and arguments
/// default to none, and a subprocess's environment has the inherited search
/// path merged in.
pub fn plan_transport(request: InitializeClientRequest, inherited_path: Option<String>) -> (r: Result<
    TransportPlan,
    RegistryError,
>)
    ensures
        planned(request, inherited_path, r),
{
    let headers = match request.headers {
        Some(h) => h,
        None => Vec::new(),
    };
    match request.transport_type {
        TransportType::SSE => match request.sse_url {
            None => Err(RegistryError::MissingUrl),
            Some(url) => Ok(TransportPlan::Sse { url, headers }),
        },
        TransportType::Stdio => match request.command {
            None => Err(RegistryError::MissingCommand),
            Some(command) => {
                let args = match request.args {
                    Some(a) => a,
                    None => Vec::new(),
                };
                let env = merge_inherited_path(headers, inherited_path);
                Ok(TransportPlan::Stdio { command, args, env })
            },
        },
    }
}

impl<S> McpClientManager<S> {
    /// The first step of a registration: refuses an identifier that is
    /// already registered, then decides the transport to start.
    pub fn plan_client(&self, request: InitializeClientRequest, inherited_path: Option<String>) -> (r:
        Result<TransportPlan, RegistryError>)
        requires
            self.wf(),
        ensures
            self@.contains_key(request.id@) ==> r == Err::<TransportPlan, RegistryError>(
                RegistryError::DuplicateIdentifier(request.id),
            ),
            !self@.contains_key(request.id@) ==> planned(request, inherited_path, r),
    {
        if self.contains(request.id.as_str()) {
            return Err(RegistryError::DuplicateIdentifier(request.id));
        }
        plan_transport(request, inherited_path)
    }
}

} // verus!
