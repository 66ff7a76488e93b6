//! The binary payload codec boundary: one opaque messagepack envelope per
//! stream element, encoded from and decoded into string values.
//!
//! The encoding itself is an outside concern; its results are named by the
//! two uninterpreted functions below, and everything the library proves
//! about decoding speaks of those names.

use vstd::prelude::*;

verus! {

/// The byte sequence the messagepack encoder produces for a string value.
/// A pure function of the value alone; the encoding wrapper pins its
/// result to this name.
pub uninterp spec fn encode_string_of(s: Seq<char>) -> Seq<u8>;

/// What the messagepack decoder makes of a byte sequence when asked for a
/// string: `None` exactly when the bytes are not a valid encoding of one.
/// A pure function of the bytes alone.
pub uninterp spec fn decode_string_of(bytes: Seq<u8>) -> Option<Seq<char>>;

/// Whether a payload's bytes decode as a string.
pub open spec fn payload_decodes(bytes: Seq<u8>) -> bool {
    decode_string_of(bytes) is Some
}

/// The string a payload's bytes decode to, when they decode at all.
pub open spec fn payload_value(bytes: Seq<u8>) -> Seq<char>
    recommends
        payload_decodes(bytes),
{
    decode_string_of(bytes).unwrap()
}

/// One opaque binary payload: the envelope around one serialized value
/// travelling on the response stream. Its view is the raw byte sequence.
#[derive(Debug, PartialEq, Eq)]
pub struct MessagePack {
    /// The serialized bytes of one value.
    pub data: Vec<u8>,
}

impl View for MessagePack {
    type V = Seq<u8>;

    open spec fn view(&self) -> Seq<u8> {
        self.data@
    }
}

/// Relies on `rmp_serde::to_vec`: the encoded bytes are a function of the
/// value alone; on success they are exactly the messagepack encoding of
/// the string.
#[verifier::external_body]
fn rmp_encode_string(value: &String) -> (r: Option<Vec<u8>>)
    ensures
        r matches Some(bytes) ==> bytes@ == encode_string_of(value@),
{
    rmp_serde::to_vec(value).ok()
}

/// Relies on `rmp_serde::from_slice`: whether the bytes decode as a
/// string, and to which string, depends on the bytes alone.
#[verifier::external_body]
fn rmp_decode_string(bytes: &Vec<u8>) -> (r: Option<String>)
    ensures
        r is Some <==> decode_string_of(bytes@) is Some,
        r matches Some(s) ==> decode_string_of(bytes@) == Some(s@),
{
    rmp_serde::from_slice::<String>(bytes.as_slice()).ok()
}

impl MessagePack {
    /// Encode a string value into a payload envelope. `None` only when the
    /// encoder itself refuses the value; whenever a payload comes back its
    /// bytes are exactly the encoding of `value`.
    pub fn encode(value: &String) -> (r: Option<MessagePack>)
        ensures
            r matches Some(p) ==> p@ == encode_string_of(value@),
    {
        match rmp_encode_string(value) {
            Some(data) => Some(MessagePack { data }),
            None => None,
        }
    }

    /// Decode this payload into a string value: `Some` exactly when the
    /// bytes are a valid encoding of one, and then the decoded string is
    /// the value the bytes encode.
    pub fn decode(&self) -> (r: Option<String>)
        ensures
            r is Some <==> payload_decodes(self@),
            r matches Some(s) ==> s@ == payload_value(self@),
    {
        rmp_decode_string(&self.data)
    }
}

} // verus!
