//! The request contract: how a typed value describes one HTTP call.
use crate::error::{result_view, Error, ErrorView};
use vstd::prelude::*;

verus! {

/// A list of key/value pairs as a mathematical value.
pub type Pairs = Seq<(Seq<char>, Seq<char>)>;

/// The HTTP method of a call.
#[derive(Clone, Copy, Debug, PartialEq, Eq, Structural)]
pub enum Method {
    Get,
    Post,
    Put,
    Delete,
    Head,
    Options,
    Connect,
    Patch,
    Trace,
}

/// How the payload of a request is put on the call: not at all, as
/// parameters of the URL's query, or as a JSON body.
pub enum RequestBody<T> {
    Empty,
    Query(T),
    Json(T),
}

impl<T> Default for RequestBody<T> {
    fn default() -> (body: Self)
        ensures
            body is Empty,
    {
        RequestBody::Empty
    }
}

/// A payload in the form in which it goes on the wire: the pairs of a query
/// in their order, or the text of a JSON document.
#[derive(Debug, Clone, PartialEq, Eq)]
pub enum Payload {
    Empty,
    Query(Vec<(String, String)>),
    Json(String),
}

/// A [`Payload`] as a mathematical value.
pub ghost enum PayloadView {
    Empty,
    Query(Pairs),
    Json(Seq<char>),
}

impl View for Payload {
    type V = PayloadView;

    open spec fn view(&self) -> PayloadView {
        match self {
            Payload::Empty => PayloadView::Empty,
            Payload::Query(pairs) => PayloadView::Query(pairs.deep_view()),
            Payload::Json(text) => PayloadView::Json(text@),
        }
    }
}

/// What an encoder's answer makes of a query payload: the pairs it gave, or
/// a build error with its report.
pub open spec fn encoded_query(answer: Result<Vec<(String, String)>, String>) -> Result<
    PayloadView,
    ErrorView,
> {
    match answer {
        Ok(pairs) => Ok(PayloadView::Query(pairs.deep_view())),
        Err(report) => Err(ErrorView::BuildError(report@)),
    }
}

/// What an encoder's answer makes of a JSON payload: the text it gave, or a
/// build error with its report.
pub open spec fn encoded_json(answer: Result<String, String>) -> Result<PayloadView, ErrorView> {
    match answer {
        Ok(text) => Ok(PayloadView::Json(text@)),
        Err(report) => Err(ErrorView::BuildError(report@)),
    }
}

/// That `encoded` is what encoding `body` with the two encoders may give.
/// Without a payload it is the empty payload. Else it is made of an answer of
/// the encoder that the variant names: the pairs or the text that the
/// encoder gave, or a build error with the encoder's report.
pub open spec fn encodes<T, Q, J>(
    body: RequestBody<T>,
    to_query: Q,
    to_json: J,
    encoded: Result<Payload, Error>,
) -> bool where
    Q: FnOnce(T) -> Result<Vec<(String, String)>, String>,
    J: FnOnce(T) -> Result<String, String>,
 {
    match body {
        RequestBody::Empty => result_view(encoded) == Ok::<PayloadView, ErrorView>(
            PayloadView::Empty,
        ),
        RequestBody::Query(value) => exists|answer: Result<Vec<(String, String)>, String>|
            call_ensures(to_query, (value,), answer) && result_view(encoded) == encoded_query(
                answer,
            ),
        RequestBody::Json(value) => exists|answer: Result<String, String>|
            call_ensures(to_json, (value,), answer) && result_view(encoded) == encoded_json(
                answer,
            ),
    }
}

impl<T> RequestBody<T> {
    /// Encodes the payload as its variant asks. `to_query` turns a value into
    /// the pairs of a query, `to_json` into the text of a JSON document; each
    /// may refuse with a report. Only the encoder of the active variant is
    /// called, and it is called once. Without a payload neither is called
    /// and nothing is put on the call.
    pub fn encode<Q, J>(self, to_query: Q, to_json: J) -> (encoded: Result<Payload, Error>) where
        Q: FnOnce(T) -> Result<Vec<(String, String)>, String>,
        J: FnOnce(T) -> Result<String, String>,

        requires
            self matches RequestBody::Query(value) ==> call_requires(to_query, (value,)),
            self matches RequestBody::Json(value) ==> call_requires(to_json, (value,)),
        ensures
            encodes(self, to_query, to_json, encoded),
    {
        match self {
            RequestBody::Empty => Ok(Payload::Empty),
            RequestBody::Query(value) => {
                let answer = to_query(value);
                let encoded = match answer {
                    Ok(pairs) => Ok(Payload::Query(pairs)),
                    Err(report) => Err(Error::BuildError(report)),
                };
                assert(call_ensures(to_query, (value,), answer) && result_view(encoded)
                    == encoded_query(answer));
                encoded
            },
            RequestBody::Json(value) => {
                let answer = to_json(value);
                let encoded = match answer {
                    Ok(text) => Ok(Payload::Json(text)),
                    Err(report) => Err(Error::BuildError(report)),
                };
                assert(call_ensures(to_json, (value,), answer) && result_view(encoded)
                    == encoded_json(answer));
                encoded
            },
        }
    }
}

/// The contract of a request: which call a typed value stands for, and the
/// type that the response decodes into. The same value may be formatted any
/// number of times.
pub trait Request {
    /// The type of the payload.
    type Body;

    /// The type that a successful response decodes into.
    type Response;

    /// The HTTP method of the call.
    const METHOD: Method = Method::Get;

    /// The path of the endpoint, relative to the client's base URL. Slashes
    /// around it are trimmed before it is joined to the base.
    fn endpoint(&self) -> String;

    /// Headers to send with the call, as names and values. A request that
    /// does not say otherwise sends none.
    fn headers(&self) -> (headers: Vec<(String, String)>)
        default_ensures
            headers.deep_view() == Seq::<(Seq<char>, Seq<char>)>::empty(),
    {
        let headers: Vec<(String, String)> = Vec::new();
        assert(headers.deep_view() =~= Seq::<(Seq<char>, Seq<char>)>::empty());
        headers
    }

    /// The payload and how it is put on the call. A request that does not
    /// say otherwise has no payload.
    fn body(&self) -> (body: RequestBody<&Self::Body>)
        default_ensures
            body is Empty,
    {
        RequestBody::Empty
    }
}

/// The response of a call whose body is not looked at.
#[derive(Debug, Clone, Copy, PartialEq, Eq)]
pub struct EmptyResponse;

impl EmptyResponse {
    /// Decodes any body: nothing of it is read.
    pub fn decode(body: String) -> (decoded: Result<EmptyResponse, String>)
        ensures
            decoded == Ok::<EmptyResponse, String>(EmptyResponse),
    {
        Ok(EmptyResponse)
    }
}

} // verus!
