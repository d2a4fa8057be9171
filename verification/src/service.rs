//! The whole path of a request, in two stages: route and handle, which end in
//! a result; then render, which every result passes through once.
//!
//! A request moves through at most two steps. [`begin`] takes it as it was
//! received and either answers it or asks for the checker's judgement of its
//! decoded fields. [`finish`] takes that judgement and answers. There is no
//! step after an answer, and no way back to the checker: one attempt is
//! final. [`serve`] runs both steps around one call of a [`Checker`].

use vstd::prelude::*;
use crate::checker::{Checker, VerificationOutcome};
use crate::codec::{url_safe_bytes, url_safe_text};
use crate::dispatch::{
    dispatch, failure_reply, not_found_page, reply_to, respond, BodyView, Reply, ReplyView,
    ResponseView, STATUS_BAD_REQUEST, STATUS_NOT_FOUND, STATUS_OK,
};
use crate::error::{untraced, ClassifiedError, ErrorKindView};
use crate::handler::{answers, conclude, conclusion, decode_request, DecodedRequest};
use crate::route::{is_sign_route, route};
use crate::structs::{placeholder_bytes, TimestampedData};

verus! {

/// Where a request stands after its first step.
#[derive(Clone, Debug, PartialEq, Eq)]
pub enum Step {
    /// The checker is to be asked about these fields.
    Ask(DecodedRequest),
    /// The request is answered.
    Done(Reply),
}

/// The mathematical value of a [`Step`].
pub enum StepView {
    Ask { data: Seq<u8>, signature: Seq<u8> },
    Done(ReplyView),
}

impl View for Step {
    type V = StepView;

    open spec fn view(&self) -> StepView {
        match *self {
            Step::Ask(fields) => StepView::Ask { data: fields.data@, signature: fields.signature@ },
            Step::Done(reply) => StepView::Done(reply@),
        }
    }
}

/// The decoded fields of a request's body: payload, then signature. `None`
/// where the body could not be read or a field of it does not decode.
pub open spec fn fields_of(body: Option<&TimestampedData>) -> Option<(Seq<u8>, Seq<u8>)> {
    match body {
        Some(request) => if request.decodable() {
            Some((request.data.decoded()->0, request.signature.decoded()->0))
        } else {
            None
        },
        None => None,
    }
}

/// The first step of a request. The route is looked at first, the body
/// second: a request to an unknown route is answered as `RouteNotFound`
/// whatever its body holds, one with an unusable body as `MalformedInput`,
/// and the checker is asked about every other.
pub open spec fn opening(
    method: Seq<char>,
    path: Seq<char>,
    fields: Option<(Seq<u8>, Seq<u8>)>,
) -> StepView {
    if !is_sign_route(method, path) {
        StepView::Done(failure_reply(untraced(ErrorKindView::RouteNotFound)))
    } else {
        match fields {
            None => StepView::Done(failure_reply(untraced(ErrorKindView::MalformedInput))),
            Some((data, signature)) => StepView::Ask { data, signature },
        }
    }
}

/// Takes a request as it was received: `opening` of it, exactly.
///
/// `body` is the request's body as it was read, or `None` where it could not
/// be read as a request at all.
pub fn begin(method: &str, path: &str, body: Option<&TimestampedData>) -> (step: Step)
    ensures
        step@ == opening(method@, path@, fields_of(body)),
{
    match route(method, path) {
        Err(error) => Step::Done(dispatch(&error)),
        Ok(_) => match body {
            None => Step::Done(dispatch(&ClassifiedError::malformed_input())),
            Some(request) => match decode_request(request) {
                Err(error) => Step::Done(dispatch(&error)),
                Ok(fields) => Step::Ask(fields),
            },
        },
    }
}

/// Answers a request about which the checker has been asked: the reply to
/// `conclusion` of its answer, exactly. A signature that is sent is valid
/// encoded text and not empty.
pub fn finish(outcome: VerificationOutcome) -> (reply: Reply)
    ensures
        reply@ == reply_to(conclusion(outcome)),
        reply@.response.body matches BodyView::Signed(signature) ==> signature.len() > 0
            && url_safe_bytes(signature) is Some,
{
    respond(conclude(outcome))
}

/// Answers one request with `checker`.
///
/// The reply is the one that the first step gives, where it gives one.
/// Otherwise the checker is asked once, about the decoded fields, and the
/// reply is the one that its answer calls for.
pub fn serve<C: Checker>(
    checker: &C,
    method: &str,
    path: &str,
    body: Option<&TimestampedData>,
) -> (reply: Reply)
    ensures
        match opening(method@, path@, fields_of(body)) {
            StepView::Done(answer) => reply@ == answer,
            StepView::Ask { data, signature } => exists|outcome: VerificationOutcome|
                answers(checker, data, signature, outcome) && reply@ == reply_to(
                    conclusion(outcome),
                ),
        },
        reply@.response.body matches BodyView::Signed(signature) ==> signature.len() > 0
            && url_safe_bytes(signature) is Some,
{
    match begin(method, path, body) {
        Step::Done(answer) => answer,
        Step::Ask(fields) => {
            let outcome = checker.check(fields.data.as_slice(), fields.signature.as_slice());
            proof {
                let first = opening(method@, path@, fields_of(body));
                assert(answers(checker, first->data, first->signature, outcome));
            }
            finish(outcome)
        },
    }
}

/// The checker is asked about a request if and only if the request is for
/// the signing endpoint and both its fields decode, and then about the
/// decoded fields. It is never asked about input that does not decode.
pub proof fn lemma_checker_asked_only_about_decoded_input(
    method: Seq<char>,
    path: Seq<char>,
    fields: Option<(Seq<u8>, Seq<u8>)>,
)
    ensures
        opening(method, path, fields) is Ask <==> is_sign_route(method, path) && fields is Some,
        opening(method, path, fields) matches StepView::Ask { data, signature } ==> fields == Some(
            (data, signature),
        ),
{
}

/// A request to an unknown route is answered with `404` and the not-found
/// page, whatever its body holds, and the checker is not asked.
pub proof fn lemma_unknown_route_is_not_found(
    method: Seq<char>,
    path: Seq<char>,
    fields: Option<(Seq<u8>, Seq<u8>)>,
)
    requires
        !is_sign_route(method, path),
    ensures
        opening(method, path, fields) == StepView::Done(
            failure_reply(untraced(ErrorKindView::RouteNotFound)),
        ),
        failure_reply(untraced(ErrorKindView::RouteNotFound)).response == (ResponseView {
            status: STATUS_NOT_FOUND,
            body: BodyView::Html(not_found_page()),
        }),
{
}

/// Whatever the checker answers, a decodable request to the signing endpoint
/// is answered in one of two ways: `200` with the placeholder artifact where
/// the signature is valid, and `400` with an empty body where it is not. A
/// wrong signature and an undecided check get the same response.
pub proof fn lemma_answer_by_outcome(outcome: VerificationOutcome)
    ensures
        outcome == VerificationOutcome::Valid ==> reply_to(conclusion(outcome)).response == (
        ResponseView {
            status: STATUS_OK,
            body: BodyView::Signed(url_safe_text(placeholder_bytes())),
        }),
        outcome != VerificationOutcome::Valid ==> reply_to(conclusion(outcome)).response == (
        ResponseView { status: STATUS_BAD_REQUEST, body: BodyView::Empty }),
        outcome != VerificationOutcome::Valid ==> reply_to(conclusion(outcome)).diagnostic is None,
{
}

} // verus!
