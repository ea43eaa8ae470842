//! The shape shared by the engine's protocols.
//!
//! A protocol is started by a function that returns its first [`Step`]. A
//! step either asks the host for one file operation, handing out the state to
//! go on with, or ends the protocol with its result. The host performs the
//! operation and passes the reply to the state's `step` method, until a step
//! is `Finished`.

use vstd::prelude::*;
use crate::errors::{EngineError, ErrorKind, Failure};
use crate::files::{performs, Exchange, Files, HostRequest, Reply, Request};

verus! {

/// What a protocol does next: it asks its host for one file operation and
/// goes on in the state `M`, or it has ended with a result.
pub enum Step<M, T> {
    Ask(M, HostRequest),
    Finished(Result<T, EngineError>),
}

/// A step as a value of the model.
pub ghost enum Turn<S, T> {
    Ask(S, Request),
    Finished(Result<T, Failure>),
}

/// How a protocol ended on a host: its result and the files it left.
pub ghost struct Outcome<T> {
    pub result: Result<T, Failure>,
    pub files: Files,
}

/// The outcome of a protocol that goes on as `next` says, is in state `s`,
/// waits for the answer to `request` on a host whose files are `files`, and
/// is driven to its end by the exchanges `rest`. `None` if the exchanges are
/// not what a host may answer, or end too early or too late.
pub open spec fn run_of<S, T>(
    next: spec_fn(S, Reply) -> Turn<S, T>,
    s: S,
    request: Request,
    files: Files,
    rest: Seq<Exchange>,
) -> Option<Outcome<T>>
    decreases rest.len(),
{
    if rest.len() == 0 || !performs(files, request, rest[0].reply, rest[0].files) {
        None
    } else {
        match next(s, rest[0].reply) {
            Turn::Ask(then, asked) => run_of(next, then, asked, rest[0].files, rest.drop_first()),
            Turn::Finished(result) => if rest.len() == 1 {
                Some(Outcome { result, files: rest[0].files })
            } else {
                None
            },
        }
    }
}

/// The outcome of a protocol that goes on as `next` says and begins with
/// `first`, on a host whose files are `files`, driven by the exchanges `run`.
pub open spec fn outcome_of<S, T>(
    next: spec_fn(S, Reply) -> Turn<S, T>,
    first: Turn<S, T>,
    files: Files,
    run: Seq<Exchange>,
) -> Option<Outcome<T>> {
    match first {
        Turn::Ask(s, request) => run_of(next, s, request, files, run),
        Turn::Finished(result) => if run.len() == 0 {
            Some(Outcome { result, files })
        } else {
            None
        },
    }
}

/// Whether the protocol ended with a failure of kind `kind`.
pub open spec fn failed_with<T>(o: Outcome<T>, kind: ErrorKind) -> bool {
    o.result matches Err(failure) && failure.kind == kind
}

} // verus!
