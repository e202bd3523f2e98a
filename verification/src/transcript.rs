//! The shape that the handover and the session transcript share between the
//! two exchanges.

use crate::cbor::{
    cbor_array, cbor_as_array, cbor_bytes, cbor_bytes_of, cbor_decoding, cbor_encoding,
    cbor_error_text, cbor_from_slice, cbor_is_null, cbor_model, cbor_models, cbor_null,
    cbor_text, cbor_text_of, cbor_to_vec, is_plain_array, is_plain_item, is_shallow_array,
    CborModel,
};
use vstd::prelude::*;

verus! {

/// The data items of a handover: an array of its tag and its digest.
pub open spec fn handover_model(tag: Seq<char>, digest: Seq<u8>) -> CborModel {
    CborModel::Array(seq![CborModel::Text(tag), CborModel::Bytes(digest)])
}

/// The data items of a session transcript: null, null, and the handover.
/// The two nulls stand where other exchanges put the device engagement and
/// the reader's key.
pub open spec fn transcript_model(handover: CborModel) -> CborModel {
    CborModel::Array(seq![CborModel::Null, CborModel::Null, handover])
}

/// The bytes of the session transcript around a handover.
pub open spec fn transcript_encoding(tag: Seq<char>, digest: Seq<u8>) -> Option<Seq<u8>> {
    cbor_encoding(transcript_model(handover_model(tag, digest)))
}

/// A handover as an array of its tag and its digest.
pub(crate) fn handover_value(tag: &str, digest: &[u8]) -> (r: ciborium::Value)
    ensures
        cbor_model(r) == handover_model(tag@, digest@),
{
    let mut items: Vec<ciborium::Value> = Vec::new();
    items.push(cbor_text(tag));
    items.push(cbor_bytes(digest));
    assert(cbor_models(items@) =~= seq![CborModel::Text(tag@), CborModel::Bytes(digest@)]);
    cbor_array(items)
}

/// A session transcript as the array of null, null and the handover.
pub(crate) fn transcript_value(tag: &str, digest: &[u8]) -> (r: ciborium::Value)
    ensures
        cbor_model(r) == transcript_model(handover_model(tag@, digest@)),
{
    let mut items: Vec<ciborium::Value> = Vec::new();
    items.push(cbor_null());
    items.push(cbor_null());
    items.push(handover_value(tag, digest));
    assert(cbor_models(items@) =~= seq![
        CborModel::Null,
        CborModel::Null,
        handover_model(tag@, digest@),
    ]);
    cbor_array(items)
}

/// The canonical bytes of the session transcript around a handover.
/// Reading them back gives the same handover.
pub(crate) fn transcript_to_bytes(tag: &str, digest: &[u8]) -> (r: Result<Vec<u8>, String>)
    ensures
        match r {
            Ok(bytes) => transcript_encoding(tag@, digest@) == Some(bytes@) && stored_handover(
                bytes@,
            ) == Some((tag@, digest@)),
            Err(_) => transcript_encoding(tag@, digest@) is None,
        },
{
    let value = transcript_value(tag, digest);
    match cbor_to_vec(&value) {
        Ok(bytes) => {
            proof {
                lemma_transcript_reads_back(tag@, digest@);
            }
            Ok(bytes)
        },
        Err(e) => Err(cbor_error_text(&e)),
    }
}

/// The tag and the digest of the handover in a session transcript, if the
/// data items have the shape of one: null, null, and an array of a text
/// string and a byte string.
pub open spec fn handover_parts(model: CborModel) -> Option<(Seq<char>, Seq<u8>)> {
    match model {
        CborModel::Array(items) => if items.len() == 3 && items[0] is Null && items[1] is Null {
            match items[2] {
                CborModel::Array(parts) => if parts.len() == 2 {
                    match (parts[0], parts[1]) {
                        (CborModel::Text(tag), CborModel::Bytes(digest)) => Some((tag, digest)),
                        _ => None,
                    }
                } else {
                    None
                },
                _ => None,
            }
        } else {
            None
        },
        _ => None,
    }
}

/// The tag and the digest of the handover in stored transcript bytes.
pub open spec fn stored_handover(bytes: Seq<u8>) -> Option<(Seq<char>, Seq<u8>)> {
    match cbor_decoding(bytes) {
        Some(model) => handover_parts(model),
        None => None,
    }
}

/// A session transcript has the shape that is read back, with the handover
/// it was made from.
pub proof fn lemma_transcript_reads_back(tag: Seq<char>, digest: Seq<u8>)
    ensures
        handover_parts(transcript_model(handover_model(tag, digest))) == Some((tag, digest)),
        is_shallow_array(transcript_model(handover_model(tag, digest))),
{
    let handover = handover_model(tag, digest);
    assert(is_plain_array(handover)) by {
        let parts = handover->Array_0;
        assert forall|i: int| 0 <= i < parts.len() implies is_plain_item(#[trigger] parts[i]) by {
            if i == 0 {
            } else {
                assert(parts[i] == CborModel::Bytes(digest));
            }
        }
    }
    let items = transcript_model(handover)->Array_0;
    assert forall|i: int| 0 <= i < items.len() implies is_plain_item(#[trigger] items[i])
        || is_plain_array(items[i]) by {
        if i == 2 {
            assert(items[i] == handover);
        }
    }
}

/// Reads the handover back from stored transcript bytes.
pub(crate) fn read_transcript(bytes: &[u8]) -> (r: Result<(String, Vec<u8>), String>)
    ensures
        match r {
            Ok((tag, digest)) => stored_handover(bytes@) == Some((tag@, digest@)),
            Err(_) => stored_handover(bytes@) is None,
        },
{
    let value = match cbor_from_slice(bytes) {
        Ok(value) => value,
        Err(e) => {
            return Err(cbor_error_text(&e));
        },
    };
    match read_handover(&value) {
        Some(parts) => Ok(parts),
        None => Err("expected null, null and a handover of a tag and a digest".to_owned()),
    }
}

/// Takes a session transcript apart into the tag and the digest of its
/// handover.
fn read_handover(value: &ciborium::Value) -> (r: Option<(String, Vec<u8>)>)
    ensures
        match r {
            Some((tag, digest)) => handover_parts(cbor_model(*value)) == Some((tag@, digest@)),
            None => handover_parts(cbor_model(*value)) is None,
        },
{
    let items = match cbor_as_array(value) {
        Some(items) => items,
        None => {
            return None;
        },
    };
    if items.len() != 3 {
        return None;
    }
    assert(cbor_models(items@)[0] == cbor_model(items@[0]));
    assert(cbor_models(items@)[1] == cbor_model(items@[1]));
    assert(cbor_models(items@)[2] == cbor_model(items@[2]));
    if !cbor_is_null(&items[0]) || !cbor_is_null(&items[1]) {
        return None;
    }
    let parts = match cbor_as_array(&items[2]) {
        Some(parts) => parts,
        None => {
            return None;
        },
    };
    if parts.len() != 2 {
        return None;
    }
    assert(cbor_models(parts@)[0] == cbor_model(parts@[0]));
    assert(cbor_models(parts@)[1] == cbor_model(parts@[1]));
    let tag = match cbor_text_of(&parts[0]) {
        Some(tag) => tag,
        None => {
            return None;
        },
    };
    match cbor_bytes_of(&parts[1]) {
        Some(digest) => Some((tag, digest)),
        None => None,
    }
}

} // verus!
