//! The request handler, with checkers that answer as told.

use std::cell::{Cell, RefCell};

use ata42::{
    conclude, decode_request, handle, Checker, ClassifiedError, DecodedRequest, ErrorKind,
    SignedData, StringBytes, TimestampedData, VerificationFailure, VerificationOutcome,
};

struct Always(VerificationOutcome);

impl Checker for Always {
    fn check(&self, _data: &[u8], _signature: &[u8]) -> VerificationOutcome {
        self.0
    }
}

struct Recording {
    answer: VerificationOutcome,
    calls: Cell<usize>,
    seen: RefCell<Vec<(Vec<u8>, Vec<u8>)>>,
}

impl Recording {
    fn answering(answer: VerificationOutcome) -> Recording {
        Recording { answer, calls: Cell::new(0), seen: RefCell::new(Vec::new()) }
    }
}

impl Checker for Recording {
    fn check(&self, data: &[u8], signature: &[u8]) -> VerificationOutcome {
        self.calls.set(self.calls.get() + 1);
        self.seen.borrow_mut().push((data.to_vec(), signature.to_vec()));
        self.answer
    }
}

fn request(data: &str, signature: &str) -> TimestampedData {
    TimestampedData {
        data: StringBytes::from_text(data.to_string()),
        signature: StringBytes::from_text(signature.to_string()),
    }
}

fn failed(failure: VerificationFailure) -> ClassifiedError {
    ClassifiedError { kind: ErrorKind::VerificationFailed(failure), trace: None }
}

fn malformed_input() -> ClassifiedError {
    ClassifiedError { kind: ErrorKind::MalformedInput, trace: None }
}

#[test]
fn verdict_reads_as_outcome() {
    assert_eq!(VerificationOutcome::from_verdict(Some(true)), VerificationOutcome::Valid);
    assert_eq!(VerificationOutcome::from_verdict(Some(false)), VerificationOutcome::Invalid);
    assert_eq!(VerificationOutcome::from_verdict(None), VerificationOutcome::Indeterminate);
}

#[test]
fn sample_request_encodes_the_placeholder() {
    let sample = TimestampedData::new();
    assert_eq!(sample.data.as_str(), "AQID");
    assert_eq!(sample.signature.as_str(), "AQID");
    assert_eq!(sample.data.to_vec(), Some(vec![1, 2, 3]));
    assert_eq!(sample.signature.to_vec(), Some(vec![1, 2, 3]));
}

#[test]
fn minted_artifact_encodes_the_placeholder() {
    let signed = SignedData::new();
    assert_eq!(signed.signature().as_str(), "AQID");
    assert_eq!(signed.signature().to_vec(), Some(vec![1, 2, 3]));
}

#[test]
fn decode_request_gives_both_fields() {
    assert_eq!(
        decode_request(&request("AQID", "-_8=")),
        Ok(DecodedRequest { data: vec![1, 2, 3], signature: vec![0xfb, 0xff] })
    );
}

#[test]
fn decode_request_fails_on_either_field() {
    assert_eq!(decode_request(&request("not-base64!!", "AQID")), Err(malformed_input()));
    assert_eq!(decode_request(&request("AQID", "not-base64!!")), Err(malformed_input()));
    assert_eq!(decode_request(&request("A", "B")), Err(malformed_input()));
}

#[test]
fn conclude_maps_each_outcome() {
    assert_eq!(conclude(VerificationOutcome::Valid), Ok(SignedData::new()));
    assert_eq!(
        conclude(VerificationOutcome::Invalid),
        Err(failed(VerificationFailure::Invalid))
    );
    assert_eq!(
        conclude(VerificationOutcome::Indeterminate),
        Err(failed(VerificationFailure::Indeterminate))
    );
}

#[test]
fn handle_valid_returns_the_artifact() {
    let result = handle(&Always(VerificationOutcome::Valid), &request("AQID", "AQID"));
    let signed = result.expect("a valid signature succeeds");
    assert_eq!(signed.signature().as_str(), "AQID");
    assert!(!signed.signature().as_str().is_empty());
}

#[test]
fn handle_invalid_fails_verification() {
    let result = handle(&Always(VerificationOutcome::Invalid), &request("AQID", "AQID"));
    assert_eq!(result, Err(failed(VerificationFailure::Invalid)));
}

#[test]
fn handle_indeterminate_fails_verification_under_its_own_tag() {
    let undecided = handle(&Always(VerificationOutcome::Indeterminate), &request("AQID", "AQID"))
        .expect_err("an undecided check fails the request");
    let invalid = handle(&Always(VerificationOutcome::Invalid), &request("AQID", "AQID"))
        .expect_err("a wrong signature fails the request");
    assert_eq!(undecided.failure(), Some(VerificationFailure::Indeterminate));
    assert_eq!(invalid.failure(), Some(VerificationFailure::Invalid));
    assert_ne!(undecided, invalid);
}

#[test]
fn handle_asks_the_checker_once_about_the_decoded_fields() {
    let checker = Recording::answering(VerificationOutcome::Valid);
    let result = handle(&checker, &request("AQIDBA==", "-_8="));
    assert!(result.is_ok());
    assert_eq!(checker.calls.get(), 1);
    assert_eq!(*checker.seen.borrow(), vec![(vec![1u8, 2, 3, 4], vec![0xfbu8, 0xff])]);
}

#[test]
fn handle_does_not_ask_the_checker_about_malformed_input() {
    let checker = Recording::answering(VerificationOutcome::Valid);
    assert_eq!(handle(&checker, &request("not-base64!!", "AQID")), Err(malformed_input()));
    assert_eq!(handle(&checker, &request("AQID", "AQI")), Err(malformed_input()));
    assert_eq!(checker.calls.get(), 0);
}

#[test]
fn handle_accepts_empty_fields() {
    let checker = Recording::answering(VerificationOutcome::Invalid);
    let result = handle(&checker, &request("", ""));
    assert_eq!(result, Err(failed(VerificationFailure::Invalid)));
    assert_eq!(*checker.seen.borrow(), vec![(Vec::<u8>::new(), Vec::<u8>::new())]);
}
