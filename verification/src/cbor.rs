//! CBOR data items, built and read through `ciborium` and encoded through
//! `isomdl::cbor`.

use vstd::prelude::*;

verus! {

/// A CBOR value, of the `ciborium` crate.
#[verifier::external_type_specification]
#[verifier::external_body]
pub struct ExValue(ciborium::Value);

/// A failure to encode or decode CBOR, of the `isomdl` crate.
#[verifier::external_type_specification]
#[verifier::external_body]
pub struct ExCborError(isomdl::cbor::CborError);

/// The tree of data items that a CBOR value stands for.
pub enum CborModel {
    Null,
    Bool(bool),
    Integer(int),
    /// A floating-point item, by its bit pattern.
    Float(int),
    Bytes(Seq<u8>),
    Text(Seq<char>),
    Tag(int, Box<CborModel>),
    Array(Seq<CborModel>),
    /// A map, by its entries in the order in which they are written.
    Entries(Seq<(CborModel, CborModel)>),
}

/// The tree of data items that a `ciborium::Value` holds.
pub uninterp spec fn cbor_model(v: ciborium::Value) -> CborModel;

/// The bytes that `isomdl::cbor::to_vec` writes for a tree of data items, if
/// it can write them.
pub uninterp spec fn cbor_encoding(m: CborModel) -> Option<Seq<u8>>;

/// The tree of data items that `isomdl::cbor::from_slice` reads from a byte
/// string, if the bytes begin with a well-formed item.
pub uninterp spec fn cbor_decoding(bytes: Seq<u8>) -> Option<CborModel>;

/// The models of a list of values, in order.
pub open spec fn cbor_models(items: Seq<ciborium::Value>) -> Seq<CborModel> {
    items.map_values(|v: ciborium::Value| cbor_model(v))
}

/// The models of a list of key-value entries, in order.
pub open spec fn cbor_entry_models(entries: Seq<(ciborium::Value, ciborium::Value)>) -> Seq<
    (CborModel, CborModel),
> {
    entries.map_values(|e: (ciborium::Value, ciborium::Value)| (cbor_model(e.0), cbor_model(e.1)))
}

/// Builds `ciborium::Value::Null`.
#[verifier::external_body]
pub(crate) fn cbor_null() -> (r: ciborium::Value)
    ensures
        cbor_model(r) == CborModel::Null,
{
    ciborium::Value::Null
}

/// Builds `ciborium::Value::Text` from a string.
#[verifier::external_body]
pub(crate) fn cbor_text(s: &str) -> (r: ciborium::Value)
    ensures
        cbor_model(r) == CborModel::Text(s@),
{
    ciborium::Value::Text(s.to_string())
}

/// Builds `ciborium::Value::Bytes` from a byte string.
#[verifier::external_body]
pub(crate) fn cbor_bytes(b: &[u8]) -> (r: ciborium::Value)
    ensures
        cbor_model(r) == CborModel::Bytes(b@),
{
    ciborium::Value::Bytes(b.to_vec())
}

/// Builds `ciborium::Value::Array` from its items.
#[verifier::external_body]
pub(crate) fn cbor_array(items: Vec<ciborium::Value>) -> (r: ciborium::Value)
    ensures
        cbor_model(r) == CborModel::Array(cbor_models(items@)),
{
    ciborium::Value::Array(items)
}

/// Builds `ciborium::Value::Map` from its entries, keeping their order.
#[verifier::external_body]
pub(crate) fn cbor_map(entries: Vec<(ciborium::Value, ciborium::Value)>) -> (r: ciborium::Value)
    ensures
        cbor_model(r) == CborModel::Entries(cbor_entry_models(entries@)),
{
    ciborium::Value::Map(entries)
}

/// A data item that holds no other: null, a byte string or a text string.
pub open spec fn is_plain_item(m: CborModel) -> bool {
    m is Null || m is Bytes || m is Text
}

/// An array of plain items.
pub open spec fn is_plain_array(m: CborModel) -> bool {
    m matches CborModel::Array(items) && forall|i: int|
        0 <= i < items.len() ==> is_plain_item(#[trigger] items[i])
}

/// An array whose items are plain items or arrays of plain items: data
/// items nested two deep at most, without numbers, tags or maps.
pub open spec fn is_shallow_array(m: CborModel) -> bool {
    m matches CborModel::Array(items) && forall|i: int|
        0 <= i < items.len() ==> is_plain_item(#[trigger] items[i]) || is_plain_array(items[i])
}

/// Calls `isomdl::cbor::to_vec`, which serialises the value with
/// `ciborium::into_writer`. The contract names the bytes written as a
/// function of the tree that the value holds. For an array nested two deep
/// at most, of nulls, byte strings and text strings, it also claims that
/// `isomdl::cbor::from_slice` reads the same tree back from the bytes; the
/// reader gives up on trees nested deeper than 256, so nothing of the kind
/// is claimed of every tree.
#[verifier::external_body]
pub(crate) fn cbor_to_vec(v: &ciborium::Value) -> (r: Result<Vec<u8>, isomdl::cbor::CborError>)
    ensures
        match r {
            Ok(bytes) => {
                &&& cbor_encoding(cbor_model(*v)) == Some(bytes@)
                &&& is_shallow_array(cbor_model(*v)) ==> cbor_decoding(bytes@) == Some(
                    cbor_model(*v),
                )
            },
            Err(_) => cbor_encoding(cbor_model(*v)) is None,
        },
{
    isomdl::cbor::to_vec(v)
}

/// Calls `isomdl::cbor::from_slice`, which reads one item with
/// `ciborium::from_reader`. The contract names the tree read as a function
/// of the bytes.
#[verifier::external_body]
pub(crate) fn cbor_from_slice(bytes: &[u8]) -> (r: Result<
    ciborium::Value,
    isomdl::cbor::CborError,
>)
    ensures
        match r {
            Ok(v) => cbor_decoding(bytes@) == Some(cbor_model(v)),
            Err(_) => cbor_decoding(bytes@) is None,
        },
{
    isomdl::cbor::from_slice(bytes)
}

/// Calls `ciborium::Value::is_null`.
#[verifier::external_body]
pub(crate) fn cbor_is_null(v: &ciborium::Value) -> (r: bool)
    ensures
        r == (cbor_model(*v) is Null),
{
    v.is_null()
}

/// Calls `ciborium::Value::as_array`: the items of an array, or nothing
/// where the value is no array.
#[verifier::external_body]
pub(crate) fn cbor_as_array(v: &ciborium::Value) -> (r: Option<&Vec<ciborium::Value>>)
    ensures
        match r {
            Some(items) => cbor_model(*v) == CborModel::Array(cbor_models(items@)),
            None => !(cbor_model(*v) is Array),
        },
{
    v.as_array()
}

/// Calls `ciborium::Value::as_map`: the entries of a map in their order, or
/// nothing where the value is no map.
#[verifier::external_body]
pub(crate) fn cbor_as_map(v: &ciborium::Value) -> (r: Option<
    &Vec<(ciborium::Value, ciborium::Value)>,
>)
    ensures
        match r {
            Some(entries) => cbor_model(*v) == CborModel::Entries(cbor_entry_models(entries@)),
            None => !(cbor_model(*v) is Entries),
        },
{
    v.as_map()
}

/// Calls `ciborium::Value::as_bytes` and copies the content of a byte
/// string, or gives nothing where the value is none.
#[verifier::external_body]
pub(crate) fn cbor_bytes_of(v: &ciborium::Value) -> (r: Option<Vec<u8>>)
    ensures
        match r {
            Some(bytes) => cbor_model(*v) == CborModel::Bytes(bytes@),
            None => !(cbor_model(*v) is Bytes),
        },
{
    v.as_bytes().cloned()
}

/// Calls `ciborium::Value::as_text` and copies the content of a text
/// string, or gives nothing where the value is none.
#[verifier::external_body]
pub(crate) fn cbor_text_of(v: &ciborium::Value) -> (r: Option<String>)
    ensures
        match r {
            Some(text) => cbor_model(*v) == CborModel::Text(text@),
            None => !(cbor_model(*v) is Text),
        },
{
    v.as_text().map(str::to_owned)
}

/// Renders an `isomdl::cbor::CborError` with its `Debug` form.
#[verifier::external_body]
pub(crate) fn cbor_error_text(e: &isomdl::cbor::CborError) -> (r: String) {
    format!("{:?}", e)
}

/// What a search for a text key among the entries of a map finds.
pub enum Lookup {
    /// No entry has the key.
    Absent,
    /// Exactly one entry has the key, with this value.
    Found(CborModel),
    /// More than one entry has the key.
    Repeated,
}

/// Searches the entries of a map for a text key. Entries under other keys,
/// of whatever kind, are passed over.
pub open spec fn lookup(entries: Seq<(CborModel, CborModel)>, name: Seq<char>) -> Lookup
    decreases entries.len(),
{
    if entries.len() == 0 {
        Lookup::Absent
    } else {
        let before = lookup(entries.drop_last(), name);
        if entries.last().0 == CborModel::Text(name) {
            match before {
                Lookup::Absent => Lookup::Found(entries.last().1),
                _ => Lookup::Repeated,
            }
        } else {
            before
        }
    }
}

/// The byte string stored once under a text key, if there is one.
pub open spec fn byte_string_field(entries: Seq<(CborModel, CborModel)>, name: Seq<char>) -> Option<
    Seq<u8>,
> {
    match lookup(entries, name) {
        Lookup::Found(CborModel::Bytes(bytes)) => Some(bytes),
        _ => None,
    }
}

/// Reads the byte string stored under a text key. There is none where the
/// key is missing, occurs twice, or holds something else.
pub(crate) fn read_byte_string_field(
    entries: &Vec<(ciborium::Value, ciborium::Value)>,
    name: &str,
) -> (r: Option<Vec<u8>>)
    ensures
        match r {
            Some(bytes) => byte_string_field(cbor_entry_models(entries@), name@) == Some(bytes@),
            None => byte_string_field(cbor_entry_models(entries@), name@) is None,
        },
{
    let ghost models = cbor_entry_models(entries@);
    let wanted = name.to_owned();
    let mut found: Option<usize> = None;
    let mut repeated = false;
    let mut i: usize = 0;
    while i < entries.len()
        invariant
            i <= entries.len(),
            models == cbor_entry_models(entries@),
            wanted@ == name@,
            lookup(models.take(i as int), name@) == (if repeated {
                Lookup::Repeated
            } else {
                match found {
                    Some(at) => Lookup::Found(models[at as int].1),
                    None => Lookup::Absent,
                }
            }),
            found matches Some(at) ==> at < i,
            repeated ==> found is Some,
        decreases entries.len() - i,
    {
        proof {
            assert(models.take(i as int + 1).drop_last() =~= models.take(i as int));
            assert(models.take(i as int + 1).last() == models[i as int]);
        }
        match cbor_text_of(&entries[i].0) {
            Some(key) => {
                if key == wanted {
                    if found.is_some() {
                        repeated = true;
                    } else {
                        found = Some(i);
                    }
                }
            },
            None => {},
        }
        i += 1;
    }
    assert(models.take(i as int) =~= models);
    if repeated {
        None
    } else {
        match found {
            Some(at) => cbor_bytes_of(&entries[at].1),
            None => None,
        }
    }
}

} // verus!
