//! The ways in which one call can fail.
use vstd::prelude::*;

verus! {

/// Why a call gave no decoded response. Nothing is retried: every error goes
/// back to whoever asked for the call.
#[derive(Debug, Clone, PartialEq, Eq)]
pub enum Error {
    /// The call could not be constructed. The text is what was refused (the
    /// URL, or the name of a header), or what the body's encoder reported.
    BuildError(String),
    /// The exchange with the server failed below HTTP. The text is the
    /// transport's account of it.
    TransportError(String),
    /// The server answered with a status from 400 to 499. Carries the status
    /// and the text of the response.
    ClientError(u16, String),
    /// The server answered with any other status outside 200 to 299. Carries
    /// the status and the text of the response.
    ServerError(u16, String),
    /// The call succeeded but its body is not of the expected type. The text
    /// is what the decoder reported.
    DecodeError(String),
}

/// An [`Error`] as a mathematical value.
pub ghost enum ErrorView {
    BuildError(Seq<char>),
    TransportError(Seq<char>),
    ClientError(int, Seq<char>),
    ServerError(int, Seq<char>),
    DecodeError(Seq<char>),
}

impl View for Error {
    type V = ErrorView;

    open spec fn view(&self) -> ErrorView {
        match self {
            Error::BuildError(what) => ErrorView::BuildError(what@),
            Error::TransportError(what) => ErrorView::TransportError(what@),
            Error::ClientError(status, text) => ErrorView::ClientError(*status as int, text@),
            Error::ServerError(status, text) => ErrorView::ServerError(*status as int, text@),
            Error::DecodeError(what) => ErrorView::DecodeError(what@),
        }
    }
}

/// A result as a mathematical value: the view of what it holds.
pub open spec fn result_view<T: View>(result: Result<T, Error>) -> Result<T::V, ErrorView> {
    match result {
        Ok(value) => Ok(value@),
        Err(error) => Err(error@),
    }
}

} // verus!
