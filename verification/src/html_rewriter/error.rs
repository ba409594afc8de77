//! Failures as they are surfaced to the caller.
use vstd::prelude::*;
use vstd::string::to_string_from_display_ensures;

verus! {

/// Reason of the failure of a token that outlived its handler.
pub const TOKEN_EXPIRED: &'static str =
    "This content token is no longer valid. Content tokens are only valid during the execution of the relevant content handler.";

/// Reason of the failure of a call that a handler makes on its own engine.
pub const REENTRANT: &'static str =
    "HTMLRewriter is already processing; cannot write() or transform() re-entrantly from within a handler on the same instance.";

/// Reason of the failure of a registration that comes too late.
pub const ALREADY_STARTED: &'static str = "Handlers cannot be added after the first write().";

/// Reason of the failure of a call on an engine whose document has ended.
pub const ALREADY_FINALIZED: &'static str = "HTMLRewriter already finalized.";

/// An exception that a handler raised, by the number under which the script
/// host keeps it.
#[derive(Debug, Clone, Copy, PartialEq, Eq, Structural)]
pub struct Exception {
    pub id: u64,
}

/// Why a call failed.
#[derive(Debug)]
pub enum Error {
    /// A failure of the engine, of a token or of the rewriter, with its reason.
    GenericFailure(String),
    /// A handler raised this exception; it is handed on as it is.
    Raised(Exception),
}

impl Error {
    /// Whether this is the failure for that reason.
    pub open spec fn has_reason(self, reason: Seq<char>) -> bool {
        self matches Error::GenericFailure(text) && text@ == reason
    }

    /// The failure for `reason`.
    pub fn new(reason: &str) -> (res: Self)
        ensures
            res.has_reason(reason@),
    {
        Error::GenericFailure(reason.to_owned())
    }
}

/// Whether `res` is the failure for `reason`.
pub open spec fn fails_with<T>(res: Result<T, Error>, reason: Seq<char>) -> bool {
    res matches Err(e) && e.has_reason(reason)
}

/// Whether `res` is the failure of a token that outlived its handler.
pub open spec fn expired<T>(res: Result<T, Error>) -> bool {
    fails_with(res, TOKEN_EXPIRED@)
}

/// Whether `cause`, written out, reads `text`.
pub open spec fn displays_as<E: core::fmt::Display>(cause: E, text: Seq<char>) -> bool {
    forall|s: String| #[trigger]
        to_string_from_display_ensures::<E>(&cause, s) ==> s@ == text
}

/// Turns `cause` into the failure whose reason is `cause` written out.
pub fn map_err<E: core::fmt::Display>(cause: E) -> (res: Error)
    ensures
        res matches Error::GenericFailure(text) && to_string_from_display_ensures::<E>(
            &cause,
            text,
        ),
        forall|text: Seq<char>| displays_as(cause, text) ==> #[trigger] res.has_reason(text),
{
    Error::GenericFailure(cause.to_string())
}

} // verus!
