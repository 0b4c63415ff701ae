//! What comes back for a request, and what a call makes of it.

use crate::error::{
    ApiError, ApiErrorView, DecodeError, DecodeErrorView, TransportFailure, TransportFailureView,
};
use crate::json::{Json, JsonView};
use crate::payload::{from_json, payload_of};
use crate::record::Record;
use vstd::prelude::*;

verus! {

/// The statuses with which the service reports success.
pub open spec fn is_success(status: u16) -> bool {
    200 <= status <= 299
}

/// Decides what a response's status means for the call: with a status of
/// success the body is to be decoded; with any other status the call has
/// failed in transport, and the body is not looked at.
pub fn check_status(status: u16) -> (admitted: Result<(), ApiError>)
    ensures
        admitted is Ok <==> is_success(status),
        admitted matches Err(error) ==> error@ == ApiErrorView::Transport(
            TransportFailureView::Status(status),
        ),
{
    if 200 <= status && status <= 299 {
        Ok(())
    } else {
        Err(ApiError::Transport(TransportFailure::Status(status)))
    }
}

/// What came back for a request, as plain mathematical data.
pub enum ReplyView {
    /// The transport gave up before a response was complete.
    Failed(Seq<char>),
    /// The service answered with this status and this body: JSON, or what
    /// the parser said of a body that is not JSON.
    Answered { status: u16, body: Result<JsonView, Seq<char>> },
}

/// What came back for a request.
#[derive(Debug, PartialEq)]
pub enum Reply {
    /// The transport gave up before a response was complete. Holds what the
    /// transport said.
    Failed(String),
    /// The service answered.
    Answered {
        /// The status of the response.
        status: u16,
        /// The body of the response as JSON, or what the parser said of a
        /// body that is not JSON.
        body: Result<Json, String>,
    },
}

impl View for Reply {
    type V = ReplyView;

    open spec fn view(&self) -> ReplyView {
        match self {
            Reply::Failed(detail) => ReplyView::Failed(detail@),
            Reply::Answered { status, body } => ReplyView::Answered {
                status: *status,
                body: match body {
                    Ok(json) => Ok(json@),
                    Err(detail) => Err(detail@),
                },
            },
        }
    }
}

/// What a call makes of a reply. A failure of the transport stays one. An
/// answer with a status outside the range of success is a failure of the
/// transport too, whatever its body holds. The body of an answer with a
/// status of success must be JSON and must hold the record.
pub open spec fn result_of<R: Record>(reply: ReplyView) -> Result<R::V, ApiErrorView> {
    match reply {
        ReplyView::Failed(detail) => Err(
            ApiErrorView::Transport(TransportFailureView::Network(detail)),
        ),
        ReplyView::Answered { status, body } => if !is_success(status) {
            Err(ApiErrorView::Transport(TransportFailureView::Status(status)))
        } else {
            match body {
                Err(detail) => Err(ApiErrorView::Decode(DecodeErrorView::Syntax(detail))),
                Ok(json) => match payload_of::<R>(json) {
                    Ok(record) => Ok(record),
                    Err(error) => Err(ApiErrorView::Decode(error)),
                },
            }
        },
    }
}

/// Turns the reply to a request into the record that was asked for, or into
/// the reason why there is none.
pub fn read_reply<R: Record>(reply: &Reply) -> (result: Result<R, ApiError>)
    ensures
        match result {
            Ok(record) => result_of::<R>(reply@) == Ok::<R::V, ApiErrorView>(record.deep_view()),
            Err(error) => result_of::<R>(reply@) == Err::<R::V, ApiErrorView>(error@),
        },
{
    match reply {
        Reply::Failed(detail) => Err(ApiError::Transport(TransportFailure::Network(detail.clone()))),
        Reply::Answered { status, body } => {
            match check_status(*status) {
                Err(error) => Err(error),
                Ok(()) => match body {
                    Err(detail) => Err(ApiError::Decode(DecodeError::Syntax(detail.clone()))),
                    Ok(json) => match from_json::<R>(json) {
                        Ok(record) => Ok(record),
                        Err(error) => Err(ApiError::Decode(error)),
                    },
                },
            }
        },
    }
}

/// An answer with a status outside the range of success never yields a
/// record: whatever its body holds, the call fails in transport and reports
/// the status.
pub proof fn lemma_failure_status<R: Record>(status: u16, body: Result<JsonView, Seq<char>>)
    requires
        !is_success(status),
    ensures
        result_of::<R>(ReplyView::Answered { status, body }) == Err::<R::V, ApiErrorView>(
            ApiErrorView::Transport(TransportFailureView::Status(status)),
        ),
{
}

} // verus!
