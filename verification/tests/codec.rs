//! The transport encoding, on concrete texts and bytes.

use ata42::codec::{decode, encode};
use ata42::{ClassifiedError, ErrorKind, StringBytes};

fn malformed() -> ClassifiedError {
    ClassifiedError { kind: ErrorKind::MalformedInput, trace: None }
}

#[test]
fn encode_three_bytes_is_one_group() {
    assert_eq!(encode(&[1, 2, 3]), "AQID");
}

#[test]
fn encode_nothing_is_empty_text() {
    assert_eq!(encode(&[]), "");
}

#[test]
fn encode_pads_to_whole_groups() {
    assert_eq!(encode(&[1]), "AQ==");
    assert_eq!(encode(&[1, 2]), "AQI=");
    assert_eq!(encode(&[1, 2, 3, 4]), "AQIDBA==");
}

#[test]
fn encode_uses_the_url_safe_symbols() {
    assert_eq!(encode(&[0xfb, 0xff]), "-_8=");
    assert_eq!(encode(&[0xff, 0xff, 0xff]), "____");
    assert_eq!(encode(&[0xfb, 0xef, 0xbe]), "----");
}

#[test]
fn encode_length_is_four_for_every_three_begun() {
    for n in 0usize..50 {
        let bytes = vec![0xa5u8; n];
        assert_eq!(encode(&bytes).len(), 4 * ((n + 2) / 3));
    }
}

#[test]
fn decode_reads_groups_and_padding() {
    assert_eq!(decode("AQID"), Ok(vec![1, 2, 3]));
    assert_eq!(decode("AQ=="), Ok(vec![1]));
    assert_eq!(decode("AQI="), Ok(vec![1, 2]));
    assert_eq!(decode("-_8="), Ok(vec![0xfb, 0xff]));
    assert_eq!(decode(""), Ok(vec![]));
}

#[test]
fn decode_undoes_encode_for_every_single_byte() {
    for b in 0u8..=255 {
        assert_eq!(decode(&encode(&[b])), Ok(vec![b]));
    }
}

#[test]
fn decode_undoes_encode_for_every_length() {
    let all: Vec<u8> = (0u8..=255).collect();
    for n in 0..=all.len() {
        let bytes = &all[..n];
        assert_eq!(decode(&encode(bytes)), Ok(bytes.to_vec()));
    }
}

#[test]
fn decode_rejects_characters_outside_the_alphabet() {
    assert_eq!(decode("not-base64!!"), Err(malformed()));
    assert_eq!(decode("AQI$"), Err(malformed()));
    assert_eq!(decode("AQ D"), Err(malformed()));
    assert_eq!(decode("AQID\n"), Err(malformed()));
    assert_eq!(decode("AQI\u{e9}"), Err(malformed()));
}

#[test]
fn decode_rejects_the_standard_alphabet_symbols() {
    assert_eq!(decode("+/8="), Err(malformed()));
    assert_eq!(decode("////"), Err(malformed()));
}

#[test]
fn decode_rejects_wrong_padding() {
    assert_eq!(decode("AQ"), Err(malformed()));
    assert_eq!(decode("AQI"), Err(malformed()));
    assert_eq!(decode("AQ="), Err(malformed()));
    assert_eq!(decode("A==="), Err(malformed()));
    assert_eq!(decode("===="), Err(malformed()));
    assert_eq!(decode("AQ=D"), Err(malformed()));
    assert_eq!(decode("AQ==AQID"), Err(malformed()));
    assert_eq!(decode("AQID="), Err(malformed()));
}

#[test]
fn decode_rejects_a_lone_symbol() {
    assert_eq!(decode("A"), Err(malformed()));
    assert_eq!(decode("AQIDA"), Err(malformed()));
}

#[test]
fn decode_rejects_set_bits_that_encode_nothing() {
    assert_eq!(decode("AR=="), Err(malformed()));
    assert_eq!(decode("AQJ="), Err(malformed()));
}

#[test]
fn string_bytes_from_bytes_holds_the_encoding() {
    let bytes = StringBytes::from(vec![1, 2, 3]);
    assert_eq!(bytes.as_str(), "AQID");
    assert_eq!(bytes.into_string(), "AQID".to_string());
}

#[test]
fn string_bytes_round_trip() {
    let bytes = vec![0u8, 255, 16, 32, 7];
    assert_eq!(StringBytes::from(bytes.clone()).to_vec(), Some(bytes));
    assert_eq!(StringBytes::from(vec![]).to_vec(), Some(vec![]));
}

#[test]
fn string_bytes_keeps_text_as_it_arrived() {
    let bytes = StringBytes::from_text("not-base64!!".to_string());
    assert_eq!(bytes.as_str(), "not-base64!!");
    assert_eq!(bytes.to_vec(), None);
}

#[test]
fn string_bytes_to_vec_decodes_valid_text() {
    assert_eq!(StringBytes::from_text("AQID".to_string()).to_vec(), Some(vec![1, 2, 3]));
    assert_eq!(StringBytes::from_text("-_8=".to_string()).to_vec(), Some(vec![0xfb, 0xff]));
}
