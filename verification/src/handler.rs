//! The per-connection dispatch decision: after every read, either keep
//! reading, answer with the bad-request response and close, or hand the
//! extracted path to the active processor.
use vstd::prelude::*;

verus! {

use crate::parse::{extract_request_path, extract_model, ExtractOutcome, ExtractModel};
use crate::resolve::valid_request_path;
use crate::response::{bad_request_response, bad_request_response_spec};

/// What the connection handler must do next with the bytes read so far.
#[derive(Debug, PartialEq, Eq)]
pub enum HandleStep {
    /// The request is still incomplete: read more bytes and retry.
    ReadMore,
    /// Write these bytes to the connection, then close it without further
    /// processing.
    Respond(Vec<u8>),
    /// Dispatch this request path to the active processor.
    Dispatch(Vec<u8>),
}

/// Ghost mirror of `HandleStep`.
pub ghost enum HandleModel {
    ReadMore,
    Respond(Seq<u8>),
    Dispatch(Seq<u8>),
}

impl View for HandleStep {
    type V = HandleModel;

    open spec fn view(&self) -> HandleModel {
        match self {
            HandleStep::ReadMore => HandleModel::ReadMore,
            HandleStep::Respond(r) => HandleModel::Respond(r@),
            HandleStep::Dispatch(p) => HandleModel::Dispatch(p@),
        }
    }
}

/// The handler's decision on the bytes read so far: a malformed request is
/// answered with exactly the bad-request response; a path that does not
/// begin with a separator cannot be resolved and is answered the same way;
/// an extracted path beginning with a separator is dispatched; and anything
/// else waits for more bytes.
pub open spec fn handle_step_model(s: Seq<u8>) -> HandleModel {
    match extract_model(s) {
        ExtractModel::NeedMore => HandleModel::ReadMore,
        ExtractModel::Malformed => HandleModel::Respond(bad_request_response_spec()),
        ExtractModel::Found(p) => if valid_request_path(p) {
            HandleModel::Dispatch(p)
        } else {
            HandleModel::Respond(bad_request_response_spec())
        },
    }
}

/// Decides the handler's next step from the bytes read so far. A dispatched
/// path is always a valid request path, as resolution requires.
pub fn handle_step(buf: &[u8]) -> (r: HandleStep)
    ensures
        r@ == handle_step_model(buf@),
        r@ matches HandleModel::Dispatch(p) ==> valid_request_path(p),
{
    match extract_request_path(buf) {
        ExtractOutcome::NeedMore => HandleStep::ReadMore,
        ExtractOutcome::Malformed => HandleStep::Respond(bad_request_response()),
        ExtractOutcome::Found(path) => {
            if path.len() >= 1 && path[0] == '/' as u8 {
                HandleStep::Dispatch(path)
            } else {
                HandleStep::Respond(bad_request_response())
            }
        },
    }
}

/// A malformed request is answered with exactly the bad-request response —
/// a 400 status line, a content-length of zero and an empty body — and
/// nothing is dispatched.
pub proof fn lemma_malformed_yields_bad_request(s: Seq<u8>)
    requires
        extract_model(s) is Malformed,
    ensures
        handle_step_model(s) == HandleModel::Respond(bad_request_response_spec()),
{
}

} // verus!
