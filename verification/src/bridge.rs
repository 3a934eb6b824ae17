//! The command invocation boundary: requests and responses, and the routing
//! of one inbound request through the registry.
//!
//! A request carries a command name and an optional input payload; a
//! response carries either the command's output text or the rendered text of
//! a structured failure. Invocation failures are always recoverable: they
//! come back as failure responses and never stop the event loop.

use crate::errors::command_execution_text;
use crate::errors::unknown_command_text;
use crate::handler::Handler;
use crate::handler::option_view;
use crate::handler::spec_run_handler;
use crate::registry::Registry;
use vstd::prelude::*;

verus! {

/// One inbound request from the UI layer.
#[derive(Debug)]
pub struct Request {
    /// The command name to invoke; matched exactly, no fuzzy matching.
    pub name: String,
    /// The serialized input payload, if the request carries one.
    pub input: Option<String>,
}

/// The response marshaled back to the UI layer: either the command's output
/// or a structured failure it can render.
#[derive(Debug)]
pub enum Response {
    /// The command ran and produced `value`.
    Success {
        /// The command's output text.
        value: String,
    },
    /// The invocation failed; `error` is the rendered failure text.
    Failure {
        /// The rendered text of the failure, kind followed by detail.
        error: String,
    },
}

/// The model of a response: its output text on success, its rendered error
/// text on failure.
pub open spec fn response_view(resp: Response) -> Result<Seq<char>, Seq<char>> {
    match resp {
        Response::Success { value } => Ok(value@),
        Response::Failure { error } => Err(error@),
    }
}

/// Whether routing `name` with `input` against the mapping `m` succeeds:
/// the name is registered and its handler does not fail.
pub open spec fn spec_route_ok(
    m: Map<Seq<char>, Handler>,
    name: Seq<char>,
    input: Option<Seq<char>>,
) -> bool {
    m.contains_key(name) && spec_run_handler(m[name], input) is Ok
}

/// The output text of a successful routing.
pub open spec fn spec_route_value(
    m: Map<Seq<char>, Handler>,
    name: Seq<char>,
    input: Option<Seq<char>>,
) -> Seq<char> {
    spec_run_handler(m[name], input)->Ok_0
}

/// The rendered error text of a failed routing: an unknown name reports
/// itself, a failing handler's report is wrapped as an execution failure.
pub open spec fn spec_route_error(
    m: Map<Seq<char>, Handler>,
    name: Seq<char>,
    input: Option<Seq<char>>,
) -> Seq<char> {
    if !m.contains_key(name) {
        unknown_command_text(name)
    } else {
        command_execution_text(spec_run_handler(m[name], input)->Err_0)
    }
}

/// What the response to a request must be: a function of the registry
/// mapping and the request alone.
pub open spec fn spec_route(
    m: Map<Seq<char>, Handler>,
    name: Seq<char>,
    input: Option<Seq<char>>,
) -> Result<Seq<char>, Seq<char>> {
    if spec_route_ok(m, name, input) {
        Ok(spec_route_value(m, name, input))
    } else {
        Err(spec_route_error(m, name, input))
    }
}

/// Routes one inbound request: looks the name up in the registry, runs the
/// handler, and marshals the result — success value or rendered failure —
/// into a response. The registry is never mutated.
pub fn route(registry: &Registry, request: &Request) -> (resp: Response)
    requires
        registry.wf(),
    ensures
        response_view(resp) == spec_route(registry@, request.name@, option_view(request.input)),
{
    match registry.invoke(&request.name, &request.input) {
        Ok(value) => Response::Success { value },
        Err(e) => {
            let error = e.message();
            Response::Failure { error }
        },
    }
}

/// Law: a registry that maps `ping` to the ping handler answers a `ping`
/// request with exactly `pong` — whatever other commands stand beside it,
/// whatever input accompanies the request, and on every one of any number of
/// invocations, since the response is a pure function of the mapping and the
/// request.
pub proof fn lemma_ping_always_pong(m: Map<Seq<char>, Handler>, input: Option<Seq<char>>)
    requires
        m.contains_key("ping"@),
        m["ping"@] == Handler::Ping,
    ensures
        spec_route(m, "ping"@, input) == Ok::<Seq<char>, Seq<char>>("pong"@),
{
}

/// Law: routing is referentially transparent — two responses to the same
/// request against the same mapping carry the same content, so repeated
/// identical invocations always return the same value.
pub proof fn lemma_route_deterministic(
    a: Response,
    b: Response,
    m: Map<Seq<char>, Handler>,
    name: Seq<char>,
    input: Option<Seq<char>>,
)
    requires
        response_view(a) == spec_route(m, name, input),
        response_view(b) == spec_route(m, name, input),
    ensures
        response_view(a) == response_view(b),
{
}

} // verus!
