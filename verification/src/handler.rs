//! One request, from its encoded fields to a signed artifact or a classified
//! failure.
//!
//! The work has two halves with the checker between them. [`decode_request`]
//! is everything before the checker is asked, [`conclude`] everything after
//! it has answered. [`handle`] runs both around one call of a [`Checker`]; a
//! caller that reaches its checker some other way, across an await for
//! instance, runs the two halves itself.

use vstd::prelude::*;
use crate::checker::{Checker, VerificationOutcome};
use crate::codec::url_safe_text;
use crate::error::{untraced, ClassifiedError, ClassifiedErrorView, ErrorKindView, VerificationFailure};
use crate::structs::{placeholder_bytes, SignedData, TimestampedData};

verus! {

/// A request whose fields have been decoded.
#[derive(Clone, Debug, PartialEq, Eq)]
pub struct DecodedRequest {
    pub data: Vec<u8>,
    pub signature: Vec<u8>,
}

/// What a request ends in, as a value: the text of the signature returned, or
/// the failure.
pub open spec fn ending(result: Result<SignedData, ClassifiedError>) -> Result<
    Seq<char>,
    ClassifiedErrorView,
> {
    match result {
        Ok(signed) => Ok(signed@),
        Err(error) => Err(error@),
    }
}

/// What a decodable request ends in when the checker has answered `outcome`.
///
/// A valid signature is answered with the placeholder artifact. A wrong
/// signature and an undecided check both end in `VerificationFailed`, each
/// under its own tag.
pub open spec fn conclusion(outcome: VerificationOutcome) -> Result<
    Seq<char>,
    ClassifiedErrorView,
> {
    match outcome {
        VerificationOutcome::Valid => Ok(url_safe_text(placeholder_bytes())),
        VerificationOutcome::Invalid => Err(
            untraced(ErrorKindView::VerificationFailed(VerificationFailure::Invalid)),
        ),
        VerificationOutcome::Indeterminate => Err(
            untraced(ErrorKindView::VerificationFailed(VerificationFailure::Indeterminate)),
        ),
    }
}

/// Decodes both fields of `request`. Succeeds when both are valid encoded
/// text, and then holds exactly the bytes they stand for; fails with
/// `MalformedInput` otherwise.
pub fn decode_request(request: &TimestampedData) -> (decoded: Result<
    DecodedRequest,
    ClassifiedError,
>)
    ensures
        decoded is Ok <==> request.decodable(),
        match decoded {
            Ok(fields) => {
                &&& request.data.decoded() == Some(fields.data@)
                &&& request.signature.decoded() == Some(fields.signature@)
            },
            Err(error) => error@ == untraced(ErrorKindView::MalformedInput),
        },
{
    let data = match request.data.to_vec() {
        Some(bytes) => bytes,
        None => {
            return Err(ClassifiedError::malformed_input());
        },
    };
    let signature = match request.signature.to_vec() {
        Some(bytes) => bytes,
        None => {
            return Err(ClassifiedError::malformed_input());
        },
    };
    Ok(DecodedRequest { data, signature })
}

/// Turns the checker's answer into the request's result: `conclusion` of
/// `outcome`, exactly. The artifact returned for a valid signature holds
/// valid encoded text and is never empty.
pub fn conclude(outcome: VerificationOutcome) -> (result: Result<SignedData, ClassifiedError>)
    ensures
        ending(result) == conclusion(outcome),
        result matches Ok(signed) ==> signed.well_formed(),
{
    match outcome {
        VerificationOutcome::Valid => Ok(SignedData::new()),
        VerificationOutcome::Invalid => Err(
            ClassifiedError::verification_failed(VerificationFailure::Invalid),
        ),
        VerificationOutcome::Indeterminate => Err(
            ClassifiedError::verification_failed(VerificationFailure::Indeterminate),
        ),
    }
}

/// Whether `checker`, asked about these decoded fields, can answer `outcome`:
/// whether the contract of its `check` admits that answer to that question.
pub open spec fn answers<C: Checker>(
    checker: &C,
    data: Seq<u8>,
    signature: Seq<u8>,
    outcome: VerificationOutcome,
) -> bool {
    exists|asked_data: &[u8], asked_signature: &[u8]|
        asked_data@ == data && asked_signature@ == signature && call_ensures(
            C::check,
            (checker, asked_data, asked_signature),
            outcome,
        )
}

/// Handles one request with `checker`.
///
/// A request with a field that does not decode fails with `MalformedInput`,
/// and the checker is not asked. Otherwise the checker is asked once, about
/// the decoded fields, and the result is `conclusion` of what it answered.
pub fn handle<C: Checker>(checker: &C, request: &TimestampedData) -> (result: Result<
    SignedData,
    ClassifiedError,
>)
    ensures
        !request.decodable() ==> ending(result) == Err::<Seq<char>, ClassifiedErrorView>(
            untraced(ErrorKindView::MalformedInput),
        ),
        request.decodable() ==> exists|outcome: VerificationOutcome|
            answers(checker, request.data.decoded()->0, request.signature.decoded()->0, outcome)
                && ending(result) == conclusion(outcome),
        result matches Ok(signed) ==> signed.well_formed(),
{
    match decode_request(request) {
        Err(error) => Err(error),
        Ok(fields) => {
            let outcome = checker.check(fields.data.as_slice(), fields.signature.as_slice());
            conclude(outcome)
        },
    }
}

/// The result of a request tells the checker's three answers apart: two
/// different outcomes never end alike. In particular the failure after an
/// undecided check is not the failure after a wrong signature.
pub proof fn lemma_conclusion_keeps_outcomes_apart(a: VerificationOutcome, b: VerificationOutcome)
    requires
        a != b,
    ensures
        conclusion(a) != conclusion(b),
{
}

/// Only a valid signature lets a request succeed: every other outcome ends
/// in `VerificationFailed`.
pub proof fn lemma_only_valid_succeeds(outcome: VerificationOutcome)
    ensures
        conclusion(outcome) is Ok <==> outcome == VerificationOutcome::Valid,
        conclusion(outcome) matches Err(error) ==> error.kind is VerificationFailed
            && error.trace is None,
{
}

} // verus!
