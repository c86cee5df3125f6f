use vstd::prelude::*;

verus! {

/// The error code a Subsonic server reports when requested data is missing.
pub const NOT_FOUND_CODE: u64 = 70;

/// A failure surfaced by the data layer.
///
/// The layer performs no local recovery: every failure is handed to the
/// immediate caller unchanged, and malformed input is never replaced by a
/// default value.
#[derive(Debug, PartialEq)]
pub enum Error {
    /// The server reported a business-level failure: its code and message.
    Api(u64, String),
    /// A well-formed "ok" envelope carried no known payload.
    Unrecognized,
    /// A declared field failed coercion: the field name and the raw text.
    Malformed(String, String),
    /// An identity-based follow-up fetch found no matching entity.
    NotFound,
    /// The transport collaborator failed; its message is carried through.
    Transport(String),
    /// A local precondition failed (e.g. an entity without cover art).
    Other(&'static str),
}

/// The mathematical shadow of `Error`: each string is its character sequence.
pub enum ErrorView {
    Api(u64, Seq<char>),
    Unrecognized,
    Malformed(Seq<char>, Seq<char>),
    NotFound,
    Transport(Seq<char>),
    Other(Seq<char>),
}

impl View for Error {
    type V = ErrorView;

    open spec fn view(&self) -> ErrorView {
        match self {
            Error::Api(code, message) => ErrorView::Api(*code, message@),
            Error::Unrecognized => ErrorView::Unrecognized,
            Error::Malformed(field, raw) => ErrorView::Malformed(field@, raw@),
            Error::NotFound => ErrorView::NotFound,
            Error::Transport(message) => ErrorView::Transport(message@),
            Error::Other(message) => ErrorView::Other(message@),
        }
    }
}

/// Lifts a result to the view level, so that contracts can state the exact
/// outcome of an operation in one equation.
pub open spec fn res_view<T: View>(r: Result<T, Error>) -> Result<T::V, ErrorView> {
    match r {
        Ok(t) => Ok(t@),
        Err(e) => Err(e@),
    }
}

} // verus!
