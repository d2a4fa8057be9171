//! The closed set of failures a request can end in.
//!
//! Every failure is classified where it arises. Nothing downstream has to
//! inspect a type at run time to find out what went wrong.

use vstd::prelude::*;

verus! {

/// Why a verification attempt did not end in a valid signature.
///
/// Both are rendered alike, but a wrong signature and a checker that could not
/// decide are different events, and the error value keeps them apart.
#[derive(Clone, Copy, Debug, PartialEq, Eq, Structural)]
pub enum VerificationFailure {
    /// The checker decided that the signature is wrong.
    Invalid,
    /// The checker could not decide.
    Indeterminate,
}

/// The category of a failure.
#[derive(Clone, Debug, PartialEq, Eq)]
pub enum ErrorKind {
    /// The input was decoded and the checker did not accept it.
    VerificationFailed(VerificationFailure),
    /// A field of the request is not valid encoded text.
    MalformedInput,
    /// No endpoint answers to the request's method and path.
    RouteNotFound,
    /// A collaborator broke its contract. The text says what it reported.
    Internal(String),
}

/// The mathematical value of an [`ErrorKind`].
pub enum ErrorKindView {
    VerificationFailed(VerificationFailure),
    MalformedInput,
    RouteNotFound,
    Internal(Seq<char>),
}

impl View for ErrorKind {
    type V = ErrorKindView;

    open spec fn view(&self) -> ErrorKindView {
        match *self {
            ErrorKind::VerificationFailed(failure) => ErrorKindView::VerificationFailed(failure),
            ErrorKind::MalformedInput => ErrorKindView::MalformedInput,
            ErrorKind::RouteNotFound => ErrorKindView::RouteNotFound,
            ErrorKind::Internal(cause) => ErrorKindView::Internal(cause@),
        }
    }
}

/// A failure, classified, with the execution trace taken where it arose, if
/// one was taken.
#[derive(Clone, Debug, PartialEq, Eq)]
pub struct ClassifiedError {
    pub kind: ErrorKind,
    pub trace: Option<String>,
}

/// The mathematical value of a [`ClassifiedError`].
pub struct ClassifiedErrorView {
    pub kind: ErrorKindView,
    pub trace: Option<Seq<char>>,
}

impl View for ClassifiedError {
    type V = ClassifiedErrorView;

    open spec fn view(&self) -> ClassifiedErrorView {
        ClassifiedErrorView {
            kind: self.kind@,
            trace: match self.trace {
                Some(trace) => Some(trace@),
                None => None,
            },
        }
    }
}

/// An error of the given kind that carries no trace.
pub open spec fn untraced(kind: ErrorKindView) -> ClassifiedErrorView {
    ClassifiedErrorView { kind, trace: None }
}

/// The operator-facing description of a kind of failure. It names the
/// category, and for a failed verification which of the two it was; it never
/// holds the cause of an internal failure.
pub open spec fn message_text(kind: ErrorKindView) -> Seq<char> {
    match kind {
        ErrorKindView::VerificationFailed(VerificationFailure::Invalid) =>
            "verification failed: signature is invalid"@,
        ErrorKindView::VerificationFailed(VerificationFailure::Indeterminate) =>
            "verification failed: no decision was reached"@,
        ErrorKindView::MalformedInput => "malformed input"@,
        ErrorKindView::RouteNotFound => "route not found"@,
        ErrorKindView::Internal(_) => "internal error"@,
    }
}

impl ClassifiedError {
    /// A failed verification.
    pub fn verification_failed(failure: VerificationFailure) -> (error: ClassifiedError)
        ensures
            error@ == untraced(ErrorKindView::VerificationFailed(failure)),
    {
        ClassifiedError { kind: ErrorKind::VerificationFailed(failure), trace: None }
    }

    /// A request field that could not be decoded.
    pub fn malformed_input() -> (error: ClassifiedError)
        ensures
            error@ == untraced(ErrorKindView::MalformedInput),
    {
        ClassifiedError { kind: ErrorKind::MalformedInput, trace: None }
    }

    /// A request that no endpoint answers to.
    pub fn route_not_found() -> (error: ClassifiedError)
        ensures
            error@ == untraced(ErrorKindView::RouteNotFound),
    {
        ClassifiedError { kind: ErrorKind::RouteNotFound, trace: None }
    }

    /// A collaborator's fault, with what it reported.
    pub fn internal(cause: String) -> (error: ClassifiedError)
        ensures
            error@ == untraced(ErrorKindView::Internal(cause@)),
    {
        ClassifiedError { kind: ErrorKind::Internal(cause), trace: None }
    }

    /// The same failure, carrying `trace`. A trace that was there before is
    /// replaced.
    pub fn with_trace(self, trace: String) -> (error: ClassifiedError)
        ensures
            error@ == (ClassifiedErrorView { kind: self@.kind, trace: Some(trace@) }),
    {
        ClassifiedError { kind: self.kind, trace: Some(trace) }
    }

    /// Which verification failure this is, if it is one. This is where a
    /// wrong signature and an undecided one can be told apart.
    pub fn failure(&self) -> (failure: Option<VerificationFailure>)
        ensures
            failure == match self@.kind {
                ErrorKindView::VerificationFailed(f) => Some(f),
                _ => None,
            },
    {
        match &self.kind {
            ErrorKind::VerificationFailed(f) => Some(*f),
            _ => None,
        }
    }

    /// The operator-facing description of this failure.
    pub fn message(&self) -> (text: String)
        ensures
            text@ == message_text(self@.kind),
    {
        match &self.kind {
            ErrorKind::VerificationFailed(VerificationFailure::Invalid) => String::from_str(
                "verification failed: signature is invalid",
            ),
            ErrorKind::VerificationFailed(VerificationFailure::Indeterminate) => String::from_str(
                "verification failed: no decision was reached",
            ),
            ErrorKind::MalformedInput => String::from_str("malformed input"),
            ErrorKind::RouteNotFound => String::from_str("route not found"),
            ErrorKind::Internal(_) => String::from_str("internal error"),
        }
    }
}

} // verus!
