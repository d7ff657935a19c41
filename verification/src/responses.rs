//! Answers to requests.

use crate::text::Text;
use vstd::prelude::*;
use vstd::string::*;

verus! {

pub const OK: u16 = 200;

pub const BAD_REQUEST: u16 = 400;

pub const UNAUTHORIZED: u16 = 401;

pub const FORBIDDEN: u16 = 403;

pub const CONFLICT: u16 = 409;

pub const INTERNAL_SERVER_ERROR: u16 = 500;

/// An HTTP answer: its status and its body.
#[derive(Debug, PartialEq)]
pub struct Response<S = String> {
    pub status: u16,
    pub body: S,
}

impl DeepView for Response {
    type V = Response<Text>;

    open spec fn deep_view(&self) -> Response<Text> {
        Response { status: self.status, body: self.body@ }
    }
}

impl Response {
    /// An answer with this status and body.
    pub fn new(status: u16, body: &str) -> (r: Response)
        ensures
            r.deep_view() == (Response { status, body: body@ }),
    {
        Response { status, body: body.to_owned() }
    }
}

/// How a request ends that is not served.
#[derive(Debug, PartialEq)]
pub enum Refusal<S = String> {
    /// The client gets this answer.
    Answer(Response<S>),
    /// The handler stops, and the client gets no answer.
    Abandon,
}

impl DeepView for Refusal {
    type V = Refusal<Text>;

    open spec fn deep_view(&self) -> Refusal<Text> {
        match *self {
            Refusal::Answer(response) => Refusal::Answer(response.deep_view()),
            Refusal::Abandon => Refusal::Abandon,
        }
    }
}

/// The refusal with this status and body.
pub open spec fn refused(status: u16, body: Text) -> Refusal<Text> {
    Refusal::Answer(Response { status, body })
}

/// The refusal of a server that cannot say what went wrong.
pub open spec fn server_error() -> Refusal<Text> {
    refused(INTERNAL_SERVER_ERROR, Seq::empty())
}

/// The model of a result.
pub open spec fn outcome_of<T: DeepView>(r: Result<T, Refusal>) -> Result<T::V, Refusal<Text>> {
    match r {
        Ok(value) => Ok(value.deep_view()),
        Err(refusal) => Err(refusal.deep_view()),
    }
}

impl Refusal {
    /// The refusal with this status and body.
    pub fn new(status: u16, body: &str) -> (r: Refusal)
        ensures
            r.deep_view() == refused(status, body@),
    {
        Refusal::Answer(Response::new(status, body))
    }

    /// The refusal of a server that cannot say what went wrong.
    pub fn server_error() -> (r: Refusal)
        ensures
            r.deep_view() == server_error(),
    {
        Refusal::Answer(Response { status: INTERNAL_SERVER_ERROR, body: String::new() })
    }
}

} // verus!
