//! Invocation requests and the consumption of their response streams:
//! building the one request message a call sends, decoding the payloads
//! the stream delivers, and the laws tying the raw, callback and
//! collecting fidelities of an invocation together.
//!
//! A response stream is modelled as the sequence of byte payloads the
//! server emits, in emission order. The transport that carries it lives
//! outside the library; the caller hands each received payload (or the
//! fully drained sequence) to the functions here.

use vstd::prelude::*;

use crate::codec::MessagePack;
use crate::codec::payload_decodes;
use crate::codec::payload_value;
use crate::errors::ClientError;

verus! {

/// One request to execute a named function of a named module, with
/// optional opaque arguments. Constructed once per call and never reused.
pub struct Invocation {
    /// The module hosting the function.
    pub module: String,
    /// The function to execute within the module.
    pub function_name: String,
    /// Optional serialized arguments handed to the function.
    pub args: Option<MessagePack>,
}

impl Invocation {
    /// Build the request message an invocation sends: exactly the three
    /// values the caller supplied, unchanged.
    pub fn new(module: String, function_name: String, args: Option<MessagePack>) -> (r:
        Invocation)
        ensures
            r.module == module,
            r.function_name == function_name,
            r.args == args,
    {
        Invocation { module, function_name, args }
    }
}

/// The raw byte sequences of a stream of payload envelopes.
pub open spec fn stream_view(payloads: Seq<MessagePack>) -> Seq<Seq<u8>> {
    payloads.map_values(|p: MessagePack| p@)
}

/// Whether every payload of a stream decodes as a string.
pub open spec fn all_decodable(stream: Seq<Seq<u8>>) -> bool {
    forall|i: int| 0 <= i < stream.len() ==> payload_decodes(#[trigger] stream[i])
}

/// The decoder applied to each payload of a stream, in stream order.
pub open spec fn decoded_values(stream: Seq<Seq<u8>>) -> Seq<Seq<char>> {
    stream.map_values(|bytes: Seq<u8>| payload_value(bytes))
}

/// Decode one received payload into the requested string type. `Ok`
/// exactly when the bytes decode; the error names the payload's position
/// in the stream, and is terminal for the invocation that received it.
pub fn decode_payload(payload: &MessagePack, index: usize) -> (r: Result<String, ClientError>)
    ensures
        r is Ok <==> payload_decodes(payload@),
        r matches Ok(s) ==> s@ == payload_value(payload@),
        r matches Err(e) ==> e == (ClientError::Decode { index }),
{
    match payload.decode() {
        Some(s) => Ok(s),
        None => Err(ClientError::Decode { index }),
    }
}

/// Decode a fully drained response stream into the ordered sequence of
/// its string values: the collecting fidelity of an invocation.
///
/// Succeeds exactly when every payload decodes, and then returns the
/// decoder applied to each payload, preserving order and length. Fails
/// with a decode error naming the first undecodable payload; no value at
/// or after that position is returned.
pub fn decode_payloads(payloads: &Vec<MessagePack>) -> (r: Result<Vec<String>, ClientError>)
    ensures
        r is Ok <==> all_decodable(stream_view(payloads@)),
        r matches Ok(values) ==> values@.map_values(|s: String| s@) == decoded_values(
            stream_view(payloads@),
        ),
        r matches Err(e) ==> (e matches ClientError::Decode { index } && 0 <= index
            < payloads@.len() && !payload_decodes(payloads@[index as int]@) && (forall|j: int|
            0 <= j < index ==> payload_decodes(#[trigger] payloads@[j]@))),
{
    let mut values: Vec<String> = Vec::new();
    let mut i: usize = 0;
    while i < payloads.len()
        invariant
            0 <= i <= payloads@.len(),
            values@.len() == i,
            forall|j: int| 0 <= j < i ==> payload_decodes(#[trigger] payloads@[j]@),
            forall|j: int| 0 <= j < i ==> #[trigger] values@[j]@ == payload_value(
                payloads@[j]@,
            ),
        decreases payloads@.len() - i,
    {
        match decode_payload(&payloads[i], i) {
            Ok(s) => {
                values.push(s);
            },
            Err(e) => {
                proof {
                    assert(stream_view(payloads@)[i as int] == payloads@[i as int]@);
                    assert(!all_decodable(stream_view(payloads@)));
                }
                return Err(e);
            },
        }
        i += 1;
    }
    proof {
        assert forall|k: int| 0 <= k < stream_view(payloads@).len() implies payload_decodes(
            #[trigger] stream_view(payloads@)[k],
        ) by {
            assert(stream_view(payloads@)[k] == payloads@[k]@);
        }
        assert(values@.map_values(|s: String| s@) =~= decoded_values(stream_view(payloads@)));
    }
    Ok(values)
}

/// The payload sequence the raw callback variant builds up when its
/// callback appends each received payload: one element per stream
/// element, in receive order.
pub open spec fn callback_appended(stream: Seq<Seq<u8>>) -> Seq<Seq<u8>>
    decreases stream.len(),
{
    if stream.len() == 0 {
        Seq::empty()
    } else {
        callback_appended(stream.drop_last()).push(stream.last())
    }
}

/// Law: draining the raw response stream and running the raw callback
/// variant with an appending callback deliver the same payload bytes in
/// the same order.
pub proof fn lemma_raw_callback_preserves_stream(stream: Seq<Seq<u8>>)
    ensures
        callback_appended(stream) == stream,
    decreases stream.len(),
{
    if stream.len() == 0 {
        assert(callback_appended(stream) =~= stream);
    } else {
        lemma_raw_callback_preserves_stream(stream.drop_last());
        assert(callback_appended(stream) =~= stream);
    }
}

/// Law: on a fully decodable stream, the collected sequence is the
/// decoder applied to each raw payload, preserving order and length.
pub proof fn lemma_collect_is_mapped_decode(stream: Seq<Seq<u8>>)
    requires
        all_decodable(stream),
    ensures
        decoded_values(stream).len() == stream.len(),
        forall|i: int| 0 <= i < stream.len() ==> #[trigger] decoded_values(stream)[i]
            == payload_value(stream[i]),
{
}

/// The position of the first payload of a stream that does not decode;
/// the stream's length when every payload decodes.
pub open spec fn first_undecodable(stream: Seq<Seq<u8>>) -> int
    decreases stream.len(),
{
    if stream.len() == 0 {
        0
    } else if !payload_decodes(stream[0]) {
        0
    } else {
        1 + first_undecodable(stream.drop_first())
    }
}

/// The string values an invocation actually hands to its caller: every
/// decoded value strictly before the first undecodable payload, and
/// nothing at or after it.
pub open spec fn delivered_values(stream: Seq<Seq<u8>>) -> Seq<Seq<char>>
    decreases stream.len(),
{
    if stream.len() == 0 {
        Seq::empty()
    } else if !payload_decodes(stream[0]) {
        Seq::empty()
    } else {
        seq![payload_value(stream[0])] + delivered_values(stream.drop_first())
    }
}

/// Law: an undecodable payload is terminal for the whole invocation. The
/// caller receives exactly the decoded values before the first
/// undecodable payload, and no payload at or after it is delivered.
pub proof fn lemma_decode_failure_is_terminal(stream: Seq<Seq<u8>>)
    requires
        !all_decodable(stream),
    ensures
        0 <= first_undecodable(stream) < stream.len(),
        !payload_decodes(stream[first_undecodable(stream)]),
        forall|j: int| 0 <= j < first_undecodable(stream) ==> payload_decodes(
            #[trigger] stream[j],
        ),
        delivered_values(stream) == decoded_values(stream.take(first_undecodable(stream))),
    decreases stream.len(),
{
    if !payload_decodes(stream[0]) {
        assert(first_undecodable(stream) == 0);
        assert(delivered_values(stream) =~= decoded_values(stream.take(0)));
    } else {
        let tail = stream.drop_first();
        assert(!all_decodable(tail)) by {
            let i = choose|i: int| 0 <= i < stream.len() && !payload_decodes(
                #[trigger] stream[i],
            );
            assert(i != 0);
            assert(tail[i - 1] == stream[i]);
        }
        lemma_decode_failure_is_terminal(tail);
        let k = first_undecodable(stream);
        assert(k == 1 + first_undecodable(tail));
        assert(stream[k] == tail[k - 1]);
        assert forall|j: int| 0 <= j < k implies payload_decodes(#[trigger] stream[j]) by {
            if j > 0 {
                assert(stream[j] == tail[j - 1]);
            }
        }
        assert(delivered_values(stream) =~= decoded_values(stream.take(k))) by {
            let prefix = stream.take(k);
            assert(delivered_values(stream).len() == 1 + delivered_values(tail).len());
            assert forall|j: int| 0 <= j < k implies #[trigger] delivered_values(stream)[j]
                == payload_value(prefix[j]) by {
                if j == 0 {
                    assert(delivered_values(stream)[0] == payload_value(stream[0]));
                } else {
                    assert(delivered_values(stream)[j] == delivered_values(tail)[j - 1]);
                    assert(delivered_values(tail)[j - 1] == decoded_values(
                        tail.take(k - 1),
                    )[j - 1]);
                    assert(tail.take(k - 1)[j - 1] == stream[j]);
                }
                assert(prefix[j] == stream[j]);
            }
        }
    }
}

} // verus!

