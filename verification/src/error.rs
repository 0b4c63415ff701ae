//! The two ways in which a call can fail: the transport or the decoding.

use vstd::prelude::*;

verus! {

/// Why a JSON value could not be read as a record, as plain mathematical
/// data.
pub enum DecodeErrorView {
    /// The body is not JSON. Holds what the parser said of it.
    Syntax(Seq<char>),
    /// The body is JSON, but not an object.
    NotAnObject,
    /// A field that the record needs is not there. Holds the field's name.
    Missing(Seq<char>),
    /// A field holds a value of another type than the record takes. Holds
    /// the field's name.
    WrongType(Seq<char>),
}

/// Why a response body could not be read as the record that was asked for.
#[derive(Clone, Debug, PartialEq)]
pub enum DecodeError {
    /// The body is not JSON. Holds what the parser said of it.
    Syntax(String),
    /// The body is JSON, but not an object.
    NotAnObject,
    /// A field that the record needs is not there. Holds the field's name
    /// as it is written in the body.
    Missing(String),
    /// A field holds a value of another type than the record takes. Holds
    /// the field's name as it is written in the body.
    WrongType(String),
}

impl View for DecodeError {
    type V = DecodeErrorView;

    open spec fn view(&self) -> DecodeErrorView {
        match self {
            DecodeError::Syntax(detail) => DecodeErrorView::Syntax(detail@),
            DecodeError::NotAnObject => DecodeErrorView::NotAnObject,
            DecodeError::Missing(name) => DecodeErrorView::Missing(name@),
            DecodeError::WrongType(name) => DecodeErrorView::WrongType(name@),
        }
    }
}

/// Why no usable response arrived, as plain mathematical data.
pub enum TransportFailureView {
    /// The transport gave up. Holds what the transport said.
    Network(Seq<char>),
    /// The service answered with a status outside the range of success.
    Status(u16),
}

/// Why no usable response arrived.
#[derive(Clone, Debug, PartialEq)]
pub enum TransportFailure {
    /// The transport gave up: the name did not resolve, the connection was
    /// refused or lost, or time ran out. Holds what the transport said.
    Network(String),
    /// The service answered with a status outside the range of success.
    Status(u16),
}

impl View for TransportFailure {
    type V = TransportFailureView;

    open spec fn view(&self) -> TransportFailureView {
        match self {
            TransportFailure::Network(detail) => TransportFailureView::Network(detail@),
            TransportFailure::Status(status) => TransportFailureView::Status(*status),
        }
    }
}

/// Why a call yielded no record, as plain mathematical data.
pub enum ApiErrorView {
    /// No usable response arrived.
    Transport(TransportFailureView),
    /// A response arrived, but its body is not the record that was asked for.
    Decode(DecodeErrorView),
}

/// Why a call yielded no record.
#[derive(Clone, Debug, PartialEq)]
pub enum ApiError {
    /// No usable response arrived.
    Transport(TransportFailure),
    /// A response arrived, but its body is not the record that was asked for.
    Decode(DecodeError),
}

impl View for ApiError {
    type V = ApiErrorView;

    open spec fn view(&self) -> ApiErrorView {
        match self {
            ApiError::Transport(failure) => ApiErrorView::Transport(failure@),
            ApiError::Decode(error) => ApiErrorView::Decode(error@),
        }
    }
}

} // verus!
