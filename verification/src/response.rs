//! What a client makes of the answer to one call: the class of its status,
//! and the decoded response or the error that the caller gets.
use crate::error::{Error, ErrorView};
use vstd::prelude::*;

verus! {

/// The three classes of a response status.
#[derive(Clone, Copy, Debug, PartialEq, Eq, Structural)]
pub enum StatusClass {
    /// The call succeeded: the body is decoded.
    Success,
    /// The caller is at fault: a bad request, a failed authentication, a
    /// missing resource.
    ClientError,
    /// Anything else: the server is at fault.
    ServerError,
}

/// A status that reports success: 200 to 299.
pub open spec fn is_success(status: int) -> bool {
    200 <= status < 300
}

/// A status that reports a fault of the caller: 400 to 499.
pub open spec fn is_client_error(status: int) -> bool {
    400 <= status < 500
}

/// A status that reports a fault of the server: any status that reports
/// neither success nor a fault of the caller.
pub open spec fn is_server_error(status: int) -> bool {
    !is_success(status) && !is_client_error(status)
}

/// The class of a status.
pub open spec fn class_of(status: int) -> StatusClass {
    if is_success(status) {
        StatusClass::Success
    } else if is_client_error(status) {
        StatusClass::ClientError
    } else {
        StatusClass::ServerError
    }
}

/// Every integer status is of exactly one class: one of the three tests
/// holds of it and the other two do not, and its class is the one whose test
/// holds.
pub proof fn lemma_status_classes_partition(status: int)
    ensures
        is_success(status) || is_client_error(status) || is_server_error(status),
        !(is_success(status) && is_client_error(status)),
        !(is_success(status) && is_server_error(status)),
        !(is_client_error(status) && is_server_error(status)),
        class_of(status) == StatusClass::Success <==> is_success(status),
        class_of(status) == StatusClass::ClientError <==> is_client_error(status),
        class_of(status) == StatusClass::ServerError <==> is_server_error(status),
{
}

/// What came of dispatching one call.
#[derive(Debug, Clone, PartialEq, Eq)]
pub enum Exchange {
    /// The exchange failed below HTTP; the text is the transport's account.
    Failed(String),
    /// The server answered with this status and this body.
    Answered(u16, String),
}

/// What a decoder's answer makes of a successful response: the decoded
/// value, or a decode error with the decoder's report.
pub open spec fn decoded<T>(answer: Result<T, String>) -> Result<T, ErrorView> {
    match answer {
        Ok(value) => Ok(value),
        Err(report) => Err(ErrorView::DecodeError(report@)),
    }
}

/// A decoded response or an error, the error as a mathematical value.
pub open spec fn outcome<T>(result: Result<T, Error>) -> Result<T, ErrorView> {
    match result {
        Ok(value) => Ok(value),
        Err(error) => Err(error@),
    }
}

/// The error that a status outside 200 to 299 stands for, with the text of
/// the response.
pub open spec fn status_error(status: int, text: Seq<char>) -> ErrorView {
    if is_client_error(status) {
        ErrorView::ClientError(status, text)
    } else {
        ErrorView::ServerError(status, text)
    }
}

/// Classifies a status.
pub fn classify(status: u16) -> (class: StatusClass)
    ensures
        class == class_of(status as int),
{
    if 200 <= status && status < 300 {
        StatusClass::Success
    } else if 400 <= status && status < 500 {
        StatusClass::ClientError
    } else {
        StatusClass::ServerError
    }
}

/// That `received` is what a caller may get for an exchange. A failed
/// exchange is a transport error with the transport's account. An answer
/// with a status outside 200 to 299 is the error of the status with the
/// body as text. An answer with a status from 200 to 299 is made of an
/// answer of the decoder for the body: the value it gave, or a decode error
/// with its report.
pub open spec fn receives<T, D>(exchange: Exchange, decode: D, received: Result<T, Error>) -> bool where
    D: FnOnce(String) -> Result<T, String>,
 {
    match exchange {
        Exchange::Failed(report) => outcome(received) == Err::<T, ErrorView>(
            ErrorView::TransportError(report@),
        ),
        Exchange::Answered(status, body) => if is_success(status as int) {
            exists|answer: Result<T, String>|
                call_ensures(decode, (body,), answer) && outcome(received) == decoded(answer)
        } else {
            outcome(received) == Err::<T, ErrorView>(status_error(status as int, body@))
        },
    }
}

/// Turns the outcome of one dispatch into what the caller gets. A failed
/// exchange is a transport error, and nothing is decoded. A status from 200
/// to 299 has its body decoded by `decode`, and a body that `decode` refuses
/// is a decode error. Any other status is a client error or a server error
/// with the status and the body as text.
pub fn receive<T, D>(exchange: Exchange, decode: D) -> (received: Result<T, Error>) where
    D: FnOnce(String) -> Result<T, String>,

    requires
        exchange matches Exchange::Answered(status, body) ==> is_success(status as int)
            ==> call_requires(decode, (body,)),
    ensures
        receives(exchange, decode, received),
{
    match exchange {
        Exchange::Failed(report) => Err(Error::TransportError(report)),
        Exchange::Answered(status, body) => {
            match classify(status) {
                StatusClass::Success => {
                    let answer = decode(body);
                    let received = match answer {
                        Ok(value) => Ok(value),
                        Err(report) => Err(Error::DecodeError(report)),
                    };
                    assert(call_ensures(decode, (body,), answer) && outcome(received) == decoded(
                        answer,
                    ));
                    received
                },
                StatusClass::ClientError => Err(Error::ClientError(status, body)),
                StatusClass::ServerError => Err(Error::ServerError(status, body)),
            }
        },
    }
}

} // verus!
