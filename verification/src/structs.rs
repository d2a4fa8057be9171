//! The values that travel in a request and in its answer. Byte fields travel
//! as encoded text.

use vstd::prelude::*;
use vstd::std_specs::convert::FromSpecImpl;
use crate::codec::{decode, encode, encoded_len, is_padded_text, url_safe_bytes, url_safe_text};

verus! {

/// The bytes that stand in for a signature until a real one is computed.
pub open spec fn placeholder_bytes() -> Seq<u8> {
    seq![1u8, 2u8, 3u8]
}

/// A byte array as encoded text.
///
/// The text is whatever arrived: it need not be valid, and [`Self::to_vec`]
/// finds out whether it is.
#[derive(Debug, PartialEq, Eq)]
pub struct StringBytes(String);

impl Clone for StringBytes {
    fn clone(&self) -> (copy: StringBytes)
        ensures
            copy@ == self@,
    {
        StringBytes(self.0.clone())
    }
}

impl View for StringBytes {
    type V = Seq<char>;

    /// The text.
    closed spec fn view(&self) -> Seq<char> {
        self.0@
    }
}

impl StringBytes {
    /// The bytes that the text stands for, or `None` where it is not valid
    /// encoded text.
    pub open spec fn decoded(&self) -> Option<Seq<u8>> {
        url_safe_bytes(self@)
    }

    /// Takes text as it arrived, valid or not.
    pub fn from_text(text: String) -> (bytes: StringBytes)
        ensures
            bytes@ == text@,
    {
        StringBytes(text)
    }

    /// The text.
    pub fn as_str(&self) -> (text: &str)
        ensures
            text@ == self@,
    {
        self.0.as_str()
    }

    /// Gives the text up.
    pub fn into_string(self) -> (text: String)
        ensures
            text@ == self@,
    {
        self.0
    }

    /// Decodes the text. `None` where it is not valid encoded text; text
    /// outside the alphabet or wrongly padded never decodes.
    pub fn to_vec(&self) -> (bytes: Option<Vec<u8>>)
        ensures
            match bytes {
                Some(b) => self.decoded() == Some(b@),
                None => self.decoded() is None,
            },
            !is_padded_text(self@) ==> bytes is None,
    {
        match decode(self.0.as_str()) {
            Ok(bytes) => Some(bytes),
            Err(_) => None,
        }
    }
}

impl FromSpecImpl<Vec<u8>> for StringBytes {
    /// The text of an encoding has a name and no closed form, so no
    /// expression stands for the whole value: `from` states its own contract.
    open spec fn obeys_from_spec() -> bool {
        false
    }

    open spec fn from_spec(value: Vec<u8>) -> StringBytes {
        arbitrary()
    }
}

impl From<Vec<u8>> for StringBytes {
    /// Encodes `value`. The text decodes to `value` again.
    fn from(value: Vec<u8>) -> (bytes: StringBytes)
        ensures
            bytes@ == url_safe_text(value@),
            bytes@.len() == encoded_len(value@.len()),
            bytes.decoded() == Some(value@),
    {
        StringBytes(encode(value.as_slice()))
    }
}

/// The material to verify: a payload and the signature that came with it.
#[derive(Clone, Debug, PartialEq, Eq)]
pub struct TimestampedData {
    pub data: StringBytes,
    pub signature: StringBytes,
}

impl TimestampedData {
    /// Whether both fields are valid encoded text.
    pub open spec fn decodable(&self) -> bool {
        self.data.decoded() is Some && self.signature.decoded() is Some
    }

    /// A sample request: the payload and the signature both encode the
    /// placeholder bytes.
    pub fn new() -> (request: TimestampedData)
        ensures
            request.data@ == url_safe_text(placeholder_bytes()),
            request.signature@ == url_safe_text(placeholder_bytes()),
            request.data.decoded() == Some(placeholder_bytes()),
            request.signature.decoded() == Some(placeholder_bytes()),
    {
        let data: Vec<u8> = vec![1u8, 2u8, 3u8];
        let signature: Vec<u8> = vec![1u8, 2u8, 3u8];
        TimestampedData { data: StringBytes::from(data), signature: StringBytes::from(signature) }
    }
}

/// The artifact that a successful verification returns.
///
/// Only [`SignedData::new`] makes one, so its signature is always valid
/// encoded text and never empty.
#[derive(Debug, PartialEq, Eq)]
pub struct SignedData {
    signature: StringBytes,
}

impl Clone for SignedData {
    fn clone(&self) -> (copy: SignedData)
        ensures
            copy@ == self@,
    {
        proof {
            use_type_invariant(self);
        }
        SignedData { signature: self.signature.clone() }
    }
}

impl View for SignedData {
    type V = Seq<char>;

    /// The text of the signature.
    closed spec fn view(&self) -> Seq<char> {
        self.signature@
    }
}

impl SignedData {
    /// What holds of every artifact: its signature is valid encoded text, and
    /// not empty.
    #[verifier::type_invariant]
    pub open spec fn well_formed(&self) -> bool {
        url_safe_bytes(self@) is Some && self@.len() > 0
    }

    /// Mints the artifact. Its signature encodes the placeholder bytes, so
    /// its text is four characters long and decodes to them.
    pub fn new() -> (signed: SignedData)
        ensures
            signed@ == url_safe_text(placeholder_bytes()),
            signed@.len() == 4,
            url_safe_bytes(signed@) == Some(placeholder_bytes()),
    {
        let signature: Vec<u8> = vec![1u8, 2u8, 3u8];
        SignedData { signature: StringBytes::from(signature) }
    }

    /// The signature, as encoded text: valid, and not empty.
    pub fn signature(&self) -> (signature: &StringBytes)
        ensures
            signature@ == self@,
            signature.decoded() is Some,
            signature@.len() > 0,
    {
        proof {
            use_type_invariant(self);
        }
        &self.signature
    }
}

} // verus!
