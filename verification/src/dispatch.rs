//! From a classified failure to the response sent and the records written.
//!
//! This is the one place where a [`ClassifiedError`] becomes a protocol-level
//! response. Classification is ordered and the first rule that matches
//! decides:
//!
//! 1. no route: `404` with the not-found page;
//! 2. failed verification: `400` with an empty body;
//! 3. anything else: `400`, or `500` for an internal failure, with an empty
//!    body, and a diagnostic for the operator.
//!
//! Every failure is recorded once, whichever rule matched. Nothing here
//! prints or sends: a [`Reply`] says what is to be written and sent, in full.

use vstd::prelude::*;
use crate::error::{message_text, ClassifiedError, ClassifiedErrorView, ErrorKind, ErrorKindView};
use crate::codec::url_safe_bytes;
use crate::handler::ending;
use crate::structs::SignedData;

verus! {

/// Status of a request answered with a signed artifact.
pub const STATUS_OK: u16 = 200;

/// Status of a request that the client got wrong.
pub const STATUS_BAD_REQUEST: u16 = 400;

/// Status of a request that no endpoint answers to.
pub const STATUS_NOT_FOUND: u16 = 404;

/// Status of a request that failed inside the service.
pub const STATUS_INTERNAL_ERROR: u16 = 500;

/// The page sent where no route matched.
pub open spec fn not_found_page() -> Seq<char> {
    "<h1>404 Not Found</h1>"@
}

/// The rule that decides how a failure is rendered.
#[derive(Clone, Copy, Debug, PartialEq, Eq, Structural)]
pub enum Rule {
    /// No route matched.
    NotFound,
    /// Verification failed.
    Rejected,
    /// None of the above.
    Generic,
}

/// What a response carries.
#[derive(Clone, Debug, PartialEq, Eq)]
pub enum Body {
    /// Nothing.
    Empty,
    /// A page of HTML.
    Html(String),
    /// The signed artifact, to be written as a JSON object.
    Signed(SignedData),
}

/// The mathematical value of a [`Body`]. The artifact is its signature's
/// text.
pub enum BodyView {
    Empty,
    Html(Seq<char>),
    Signed(Seq<char>),
}

impl View for Body {
    type V = BodyView;

    open spec fn view(&self) -> BodyView {
        match *self {
            Body::Empty => BodyView::Empty,
            Body::Html(page) => BodyView::Html(page@),
            Body::Signed(signed) => BodyView::Signed(signed@),
        }
    }
}

/// A protocol-level response.
#[derive(Clone, Debug, PartialEq, Eq)]
pub struct Response {
    pub status: u16,
    pub body: Body,
}

/// The mathematical value of a [`Response`].
pub struct ResponseView {
    pub status: u16,
    pub body: BodyView,
}

impl View for Response {
    type V = ResponseView;

    open spec fn view(&self) -> ResponseView {
        ResponseView { status: self.status, body: self.body@ }
    }
}

/// What the operator is told of a failure that no specific rule matched: the
/// causal chain, which is the failure's description and then the cause it
/// holds, and the trace taken where it arose.
#[derive(Clone, Debug, PartialEq, Eq)]
pub struct Diagnostic {
    pub message: String,
    pub cause: Option<String>,
    pub trace: Option<String>,
}

/// The mathematical value of a [`Diagnostic`].
pub struct DiagnosticView {
    pub message: Seq<char>,
    pub cause: Option<Seq<char>>,
    pub trace: Option<Seq<char>>,
}

/// The text that an optional string holds.
pub open spec fn text_of(text: Option<String>) -> Option<Seq<char>> {
    match text {
        Some(t) => Some(t@),
        None => None,
    }
}

impl View for Diagnostic {
    type V = DiagnosticView;

    open spec fn view(&self) -> DiagnosticView {
        DiagnosticView {
            message: self.message@,
            cause: text_of(self.cause),
            trace: text_of(self.trace),
        }
    }
}

/// Everything that answering a request comes to: the response to send, the
/// record of the failure to write, and the diagnostic to write after it.
/// A request that succeeded has neither record nor diagnostic.
#[derive(Clone, Debug, PartialEq, Eq)]
pub struct Reply {
    pub response: Response,
    pub record: Option<String>,
    pub diagnostic: Option<Diagnostic>,
}

/// The mathematical value of a [`Reply`].
pub struct ReplyView {
    pub response: ResponseView,
    pub record: Option<Seq<char>>,
    pub diagnostic: Option<DiagnosticView>,
}

impl View for Reply {
    type V = ReplyView;

    open spec fn view(&self) -> ReplyView {
        ReplyView {
            response: self.response@,
            record: text_of(self.record),
            diagnostic: match self.diagnostic {
                Some(diagnostic) => Some(diagnostic@),
                None => None,
            },
        }
    }
}

/// The first rule that matches a failure of this kind.
pub open spec fn rule_for(kind: ErrorKindView) -> Rule {
    if kind is RouteNotFound {
        Rule::NotFound
    } else if kind is VerificationFailed {
        Rule::Rejected
    } else {
        Rule::Generic
    }
}

/// The response to a failure of this kind.
pub open spec fn response_to(kind: ErrorKindView) -> ResponseView {
    match rule_for(kind) {
        Rule::NotFound => ResponseView {
            status: STATUS_NOT_FOUND,
            body: BodyView::Html(not_found_page()),
        },
        Rule::Rejected => ResponseView { status: STATUS_BAD_REQUEST, body: BodyView::Empty },
        Rule::Generic => ResponseView {
            status: if kind is Internal {
                STATUS_INTERNAL_ERROR
            } else {
                STATUS_BAD_REQUEST
            },
            body: BodyView::Empty,
        },
    }
}

/// The diagnostic written for a failure: one under the generic rule, none
/// under the others.
pub open spec fn diagnostic_of(error: ClassifiedErrorView) -> Option<DiagnosticView> {
    match rule_for(error.kind) {
        Rule::Generic => Some(
            DiagnosticView {
                message: message_text(error.kind),
                cause: match error.kind {
                    ErrorKindView::Internal(cause) => Some(cause),
                    _ => None,
                },
                trace: error.trace,
            },
        ),
        _ => None,
    }
}

/// The reply to a failure.
pub open spec fn failure_reply(error: ClassifiedErrorView) -> ReplyView {
    ReplyView {
        response: response_to(error.kind),
        record: Some(message_text(error.kind)),
        diagnostic: diagnostic_of(error),
    }
}

/// The reply to a request that succeeded with an artifact whose signature has
/// this text.
pub open spec fn success_reply(signature: Seq<char>) -> ReplyView {
    ReplyView {
        response: ResponseView { status: STATUS_OK, body: BodyView::Signed(signature) },
        record: None,
        diagnostic: None,
    }
}

/// The reply to a request that ended in `ending`.
pub open spec fn reply_to(ending: Result<Seq<char>, ClassifiedErrorView>) -> ReplyView {
    match ending {
        Ok(signature) => success_reply(signature),
        Err(error) => failure_reply(error),
    }
}

/// The text of a diagnostic: the description, then a line for the cause if
/// there is one, then the trace if there is one.
pub open spec fn diagnostic_text(diagnostic: DiagnosticView) -> Seq<char> {
    let cause = match diagnostic.cause {
        Some(cause) => "\ncaused by: "@ + cause,
        None => Seq::<char>::empty(),
    };
    let trace = match diagnostic.trace {
        Some(trace) => "\ntrace:\n"@ + trace,
        None => Seq::<char>::empty(),
    };
    diagnostic.message + cause + trace
}

impl Diagnostic {
    /// Writes the diagnostic out as text.
    pub fn render(&self) -> (text: String)
        ensures
            text@ == diagnostic_text(self@),
    {
        let mut text = self.message.clone();
        if let Some(cause) = &self.cause {
            text.append("\ncaused by: ");
            text.append(cause.as_str());
        }
        if let Some(trace) = &self.trace {
            text.append("\ntrace:\n");
            text.append(trace.as_str());
        }
        assert(text@ =~= diagnostic_text(self@));
        text
    }
}

/// Finds the rule under which `error` is rendered. Rules are tried in order.
pub fn classify(error: &ClassifiedError) -> (rule: Rule)
    ensures
        rule == rule_for(error@.kind),
{
    match &error.kind {
        ErrorKind::RouteNotFound => Rule::NotFound,
        ErrorKind::VerificationFailed(_) => Rule::Rejected,
        _ => Rule::Generic,
    }
}

/// Renders a failure: `failure_reply` of it, exactly.
///
/// The reply always holds one record, the failure's description. Its
/// response is chosen by the failure's category alone, so neither the cause
/// nor the trace can reach the client; those go to the diagnostic, which is
/// there under the generic rule only.
pub fn dispatch(error: &ClassifiedError) -> (reply: Reply)
    ensures
        reply@ == failure_reply(error@),
{
    let record = error.message();
    match classify(error) {
        Rule::NotFound => Reply {
            response: Response {
                status: STATUS_NOT_FOUND,
                body: Body::Html(String::from_str("<h1>404 Not Found</h1>")),
            },
            record: Some(record),
            diagnostic: None,
        },
        Rule::Rejected => Reply {
            response: Response { status: STATUS_BAD_REQUEST, body: Body::Empty },
            record: Some(record),
            diagnostic: None,
        },
        Rule::Generic => {
            let (status, cause) = match &error.kind {
                ErrorKind::Internal(cause) => (STATUS_INTERNAL_ERROR, Some(cause.clone())),
                _ => (STATUS_BAD_REQUEST, None),
            };
            let trace = match &error.trace {
                Some(trace) => Some(trace.clone()),
                None => None,
            };
            Reply {
                response: Response { status, body: Body::Empty },
                record: Some(record),
                diagnostic: Some(Diagnostic { message: error.message(), cause, trace }),
            }
        },
    }
}

/// Renders the result of a request: the artifact with `200`, or the failure
/// as [`dispatch`] renders it. A signature that is sent is valid encoded text
/// and not empty.
pub fn respond(result: Result<SignedData, ClassifiedError>) -> (reply: Reply)
    ensures
        reply@ == reply_to(ending(result)),
        reply@.response.body matches BodyView::Signed(signature) ==> signature.len() > 0
            && url_safe_bytes(signature) is Some,
{
    match result {
        Ok(signed) => {
            proof {
                use_type_invariant(&signed);
            }
            Reply {
                response: Response { status: STATUS_OK, body: Body::Signed(signed) },
                record: None,
                diagnostic: None,
            }
        },
        Err(error) => dispatch(&error),
    }
}

/// Whether two kinds of failure are of one category: the same kind, or two
/// internal failures, whatever their causes.
pub open spec fn same_category(a: ErrorKindView, b: ErrorKindView) -> bool {
    a == b || (a is Internal && b is Internal)
}

/// Every failure is recorded once, by its description, and gets a
/// diagnostic under the generic rule and under no other. A success leaves
/// neither record nor diagnostic.
pub proof fn lemma_recorded_once(error: ClassifiedErrorView, signature: Seq<char>)
    ensures
        failure_reply(error).record == Some(message_text(error.kind)),
        failure_reply(error).diagnostic is Some <==> rule_for(error.kind) == Rule::Generic,
        rule_for(error.kind) == Rule::Generic <==> (error.kind is MalformedInput
            || error.kind is Internal),
        success_reply(signature).record is None,
        success_reply(signature).diagnostic is None,
{
}

/// The client learns the category of a failure and nothing else: two
/// failures of one category get the same response, whatever cause and trace
/// they carry, and the body of that response is empty or the not-found page.
pub proof fn lemma_response_hides_diagnostics(a: ClassifiedErrorView, b: ClassifiedErrorView)
    requires
        same_category(a.kind, b.kind),
    ensures
        failure_reply(a).response == failure_reply(b).response,
        failure_reply(a).response.body == BodyView::Empty || failure_reply(a).response.body
            == BodyView::Html(not_found_page()),
{
}

/// The not-found response belongs to unmatched routes alone: a failure is
/// answered with `404` and the not-found page if and only if it is
/// `RouteNotFound`, and every other failure is answered with an empty body.
pub proof fn lemma_not_found_only_for_routes(error: ClassifiedErrorView)
    ensures
        error.kind is RouteNotFound <==> failure_reply(error).response == (ResponseView {
            status: STATUS_NOT_FOUND,
            body: BodyView::Html(not_found_page()),
        }),
        !(error.kind is RouteNotFound) ==> failure_reply(error).response.body == BodyView::Empty,
        !(error.kind is RouteNotFound) ==> failure_reply(error).response.status
            != STATUS_NOT_FOUND,
{
}

/// A failed verification is answered with `400` and an empty body, and no
/// diagnostic is written for it, whether the signature was wrong or the
/// check undecided.
pub proof fn lemma_rejection_is_bare(error: ClassifiedErrorView)
    requires
        error.kind is VerificationFailed,
    ensures
        failure_reply(error).response == (ResponseView {
            status: STATUS_BAD_REQUEST,
            body: BodyView::Empty,
        }),
        failure_reply(error).diagnostic is None,
{
}

} // verus!
