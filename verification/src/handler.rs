//! Native command handlers.
//!
//! A handler is the native operation behind a registered command name. The
//! set of available operations is a closed, explicit list (a tagged variant
//! per operation) rather than opaque function values, so that what each
//! handler returns can be stated and proved.
//!
//! Handlers are pure with respect to the registry: running one never mutates
//! the mapping, which `Registry::invoke` guarantees by taking the registry by
//! shared reference.

use vstd::prelude::*;
use vstd::string::StringExecFns;

verus! {

/// A native operation invokable from the UI surface.
#[derive(Debug)]
pub enum Handler {
    /// The trivial liveness command: takes no input and deterministically
    /// returns the text `pong`.
    Ping,
    /// A handler that always reports failure with the carried message.
    /// It exercises the propagation rule for handlers that fail: the
    /// registry wraps the report in a `CommandExecution` failure.
    Failing {
        /// What the handler reports when it runs.
        message: String,
    },
}

/// What running `handler` on `input` yields: the command's output text, or
/// the handler's own failure report.
///
/// `Ping` has an empty input type: it ignores `input` and always yields
/// `pong`.
pub open spec fn spec_run_handler(handler: Handler, input: Option<Seq<char>>) -> Result<
    Seq<char>,
    Seq<char>,
> {
    match handler {
        Handler::Ping => Ok("pong"@),
        Handler::Failing { message } => Err(message@),
    }
}

/// Runs a handler on the given input payload.
pub fn run_handler(handler: &Handler, input: &Option<String>) -> (r: Result<String, String>)
    ensures
        spec_run_handler(*handler, option_view(*input)) is Ok ==> (r matches Ok(v) && v@
            == spec_run_handler(*handler, option_view(*input))->Ok_0),
        spec_run_handler(*handler, option_view(*input)) is Err ==> (r matches Err(m) && m@
            == spec_run_handler(*handler, option_view(*input))->Err_0),
{
    match handler {
        Handler::Ping => Ok(String::from_str("pong")),
        Handler::Failing { message } => Err(message.clone()),
    }
}

/// The view of an optional input payload: the payload's character sequence,
/// if one is present.
pub open spec fn option_view(input: Option<String>) -> Option<Seq<char>> {
    match input {
        Option::Some(s) => Option::Some(s@),
        Option::None => Option::None,
    }
}

} // verus!
