//! What passes between an operation and the transport that serves it.
//!
//! An operation never talks to the server itself. It is called with what the
//! server has answered so far, `None` before anything was sent, and returns a
//! [`Step`]: the request to send, or the operation's result. The caller sends
//! the request, and calls the operation again with the answer.

use vstd::prelude::*;
use vstd::string::*;
use crate::decode::Decode;
use crate::error::{Error, ErrorView};
use crate::json::{Json, JsonView};
use crate::query::Query;

verus! {

/// A call of a named operation of the server.
#[derive(Debug, PartialEq, Eq)]
pub struct Request {
    pub operation: String,
    pub params: Vec<(String, String)>,
}

/// The mathematical value of a [`Request`].
pub struct RequestView {
    pub operation: Seq<char>,
    pub params: Seq<(Seq<char>, Seq<char>)>,
}

impl View for Request {
    type V = RequestView;

    open spec fn view(&self) -> RequestView {
        RequestView { operation: self.operation@, params: self.params.deep_view() }
    }
}

impl DeepView for Request {
    type V = RequestView;

    open spec fn deep_view(&self) -> RequestView {
        self@
    }
}

impl Request {
    /// The call of `operation` with the parameters that `query` holds.
    pub fn new(operation: &str, query: Query) -> (r: Request)
        ensures
            r@ == (RequestView { operation: operation@, params: query@ }),
    {
        Request { operation: operation.to_owned(), params: query.build() }
    }
}

/// What an operation does next.
#[derive(Debug, PartialEq, Eq)]
pub enum Step<T> {
    /// The request is to be sent, and the operation called again with the
    /// answer.
    Send(Request),
    /// The operation is over, with this result.
    Done(Result<T, Error>),
}

/// The mathematical value of a [`Step`].
pub enum Outcome<V> {
    Send(RequestView),
    Done(Result<V, ErrorView>),
}

impl<T: DeepView> DeepView for Step<T> {
    type V = Outcome<T::V>;

    open spec fn deep_view(&self) -> Outcome<T::V> {
        match self {
            Step::Send(request) => Outcome::Send(request@),
            Step::Done(Ok(value)) => Outcome::Done(Ok(value.deep_view())),
            Step::Done(Err(error)) => Outcome::Done(Err(error@)),
        }
    }
}

/// The mathematical value of an answer of the server, or of the result of an
/// operation.
pub open spec fn answer_view<T: DeepView>(answer: Result<T, Error>) -> Result<T::V, ErrorView> {
    match answer {
        Ok(value) => Ok(value.deep_view()),
        Err(error) => Err(error@),
    }
}

/// The mathematical value of what the server has answered so far.
pub open spec fn reply_view<T: DeepView>(reply: Option<Result<T, Error>>) -> Option<
    Result<T::V, ErrorView>,
> {
    match reply {
        None => None,
        Some(answer) => Some(answer_view(answer)),
    }
}

/// The result of an operation whose answer holds an entity. A failure that
/// the transport reports is the result as it stands. A payload is decoded,
/// and the entity or the decoder's failure is the result.
pub open spec fn concluded<T: Decode>(answer: Result<JsonView, ErrorView>) -> Result<
    <T as DeepView>::V,
    ErrorView,
> {
    match answer {
        Err(error) => Err(error),
        Ok(payload) => match T::decoded_from(payload) {
            Ok(entity) => Ok(entity),
            Err(e) => Err(ErrorView::Decode(e)),
        },
    }
}

/// One round trip for an entity: before the answer the request is to be
/// sent; the answer concludes the operation.
pub open spec fn exchange<T: Decode>(
    request: RequestView,
    reply: Option<Result<JsonView, ErrorView>>,
) -> Outcome<<T as DeepView>::V> {
    match reply {
        None => Outcome::Send(request),
        Some(answer) => Outcome::Done(concluded::<T>(answer)),
    }
}

/// Concludes an operation whose answer holds an entity.
pub fn conclude<T: Decode>(answer: Result<Json, Error>) -> (r: Result<T, Error>)
    ensures
        answer_view(r) == concluded::<T>(answer_view(answer)),
{
    match answer {
        Err(error) => Err(error),
        Ok(payload) => match T::decode(&payload) {
            Ok(entity) => Ok(entity),
            Err(e) => Err(Error::Decode(e)),
        },
    }
}

} // verus!
