//! Schema-free scanning of protobuf wire bytes.

use protobuf_core::{AsRefExtProtobuf, FieldValue, ProtobufError};
use vstd::prelude::*;

verus! {

#[verifier::external_type_specification]
#[verifier::external_body]
pub struct ExProtobufError(ProtobufError);

/// One decoded wire field: its number, and its payload where the wire type
/// is length-delimited (`None` for varint and fixed-width values).
pub struct WireField {
    pub number: u32,
    pub payload: Option<Vec<u8>>,
}

impl View for WireField {
    type V = (u32, Option<Seq<u8>>);

    open spec fn view(&self) -> (u32, Option<Seq<u8>>) {
        (
            self.number,
            match self.payload {
                Some(p) => Some(p@),
                None => None,
            },
        )
    }
}

/// The model of a decoded field list.
pub open spec fn fields_view(fs: Seq<WireField>) -> Seq<(u32, Option<Seq<u8>>)> {
    fs.map_values(|f: WireField| f@)
}

/// The fields, in order, that protobuf wire decoding of `b` yields; `None`
/// where some field of `b` fails to decode.
pub uninterp spec fn wire_fields_of(b: Seq<u8>) -> Option<Seq<(u32, Option<Seq<u8>>)>>;

/// The text that `b` encodes as UTF-8; `None` where `b` is not valid UTF-8.
pub uninterp spec fn utf8_text_of(b: Seq<u8>) -> Option<Seq<char>>;

/// Relies on protobuf_core's `read_protobuf_fields` over a byte slice: it
/// yields the fields of `b` one by one and an error at the first field that
/// does not decode; on an empty slice it yields nothing.
#[verifier::external_body]
fn decode_wire_fields(b: &[u8]) -> (r: Result<Vec<WireField>, ProtobufError>)
    ensures
        r is Ok <==> wire_fields_of(b@) is Some,
        r is Ok ==> wire_fields_of(b@) == Some(fields_view(r->Ok_0@)),
        b@.len() == 0 ==> r is Ok && r->Ok_0@.len() == 0,
{
    b.read_protobuf_fields().map(|f| f.map(|f| WireField {
        number: f.field_number.as_u32(),
        payload: match f.value {
            FieldValue::Len(d) => Some(d.to_vec()),
            _ => None,
        },
    })).collect()
}

/// Relies on `String::from_utf8`: the text of valid UTF-8 bytes, an error
/// otherwise; empty bytes are the empty text.
#[verifier::external_body]
fn text_from_utf8(b: Vec<u8>) -> (r: Option<String>)
    ensures
        r is Some <==> utf8_text_of(b@) is Some,
        r is Some ==> utf8_text_of(b@) == Some(r->Some_0@),
        b@.len() == 0 ==> r is Some && r->Some_0@.len() == 0,
{
    String::from_utf8(b).ok()
}

/// `f` is a length-delimited field numbered `target`.
pub open spec fn is_len_field(f: (u32, Option<Seq<u8>>), target: u32) -> bool {
    f.0 == target && f.1 is Some
}

/// `i` is the position of the last length-delimited field numbered `target`.
pub open spec fn is_last_len_field(fs: Seq<(u32, Option<Seq<u8>>)>, target: u32, i: int) -> bool {
    &&& 0 <= i < fs.len()
    &&& is_len_field(fs[i], target)
    &&& forall|j: int| i < j < fs.len() ==> !is_len_field(#[trigger] fs[j], target)
}

/// The payload of the last length-delimited field numbered `target`, if any.
pub open spec fn last_len_payload(fs: Seq<(u32, Option<Seq<u8>>)>, target: u32) -> Option<Seq<u8>> {
    if exists|i: int| is_last_len_field(fs, target, i) {
        fs[choose|i: int| is_last_len_field(fs, target, i)].1
    } else {
        None
    }
}

/// What scanning `input` for the last string field numbered `target` gives.
pub open spec fn scan_result(input: Seq<u8>, target: u32) -> Result<Option<Seq<char>>, ScanError> {
    match wire_fields_of(input) {
        None => Err(ScanError::Malformed),
        Some(fs) => match last_len_payload(fs, target) {
            None => Ok(None),
            Some(p) => match utf8_text_of(p) {
                None => Err(ScanError::InvalidUtf8),
                Some(t) => Ok(Some(t)),
            },
        },
    }
}

/// Why a scan failed.
#[derive(Debug, Clone, Copy, PartialEq, Eq, Structural)]
pub enum ScanError {
    /// Some field of the message does not decode.
    Malformed,
    /// The field found is not valid UTF-8.
    InvalidUtf8,
}

/// Two positions that are both "last" are the same position.
pub proof fn lemma_last_len_field_unique(fs: Seq<(u32, Option<Seq<u8>>)>, target: u32, i: int, k: int)
    requires
        is_last_len_field(fs, target, i),
        is_last_len_field(fs, target, k),
    ensures
        i == k,
{
    if i < k {
        assert(!is_len_field(fs[k], target));
    } else if k < i {
        assert(!is_len_field(fs[i], target));
    }
}

/// Position of the last length-delimited field numbered `target` among
/// decoded `fields`, or `None` where there is none.
pub fn last_len_field_index(fields: &Vec<WireField>, target: u32) -> (r: Option<usize>)
    ensures
        r is None <==> forall|i: int|
            0 <= i < fields@.len() ==> !is_len_field(#[trigger] fields_view(fields@)[i], target),
        r is Some ==> is_last_len_field(fields_view(fields@), target, r->Some_0 as int),
{
    let ghost fs = fields_view(fields@);
    let mut found: Option<usize> = None;
    let mut i: usize = 0;
    while i < fields.len()
        invariant
            i <= fields@.len(),
            fs == fields_view(fields@),
            found is None ==> forall|j: int| 0 <= j < i ==> !is_len_field(#[trigger] fs[j], target),
            found is Some ==> {
                &&& found->Some_0 < i
                &&& is_len_field(fs[found->Some_0 as int], target)
                &&& forall|j: int| found->Some_0 < j < i ==> !is_len_field(#[trigger] fs[j], target)
            },
        decreases fields@.len() - i,
    {
        let f = &fields[i];
        assert(fs[i as int] == f@);
        if f.number == target && f.payload.is_some() {
            found = Some(i);
        }
        i = i + 1;
    }
    proof {
        if let Some(k) = found {
            assert(is_len_field(fields_view(fields@)[k as int], target));
        }
    }
    found
}

/// The payload of the last length-delimited field numbered `target` among
/// decoded `fields`.
pub fn last_len_field(fields: &Vec<WireField>, target: u32) -> (r: Option<Vec<u8>>)
    ensures
        match r {
            Some(p) => last_len_payload(fields_view(fields@), target) == Some(p@),
            None => last_len_payload(fields_view(fields@), target) is None,
        },
{
    let ghost fs = fields_view(fields@);
    match last_len_field_index(fields, target) {
        Some(k) => {
            proof {
                let c = choose|i: int| is_last_len_field(fs, target, i);
                lemma_last_len_field_unique(fs, target, c, k as int);
            }
            assert(fs[k as int] == fields@[k as int]@);
            match &fields[k].payload {
                Some(p) => Some(p.clone()),
                None => None,
            }
        },
        None => {
            assert(!exists|i: int| is_last_len_field(fs, target, i));
            None
        },
    }
}

/// The last length-delimited field numbered `target` in the serialized
/// message `input`, as text. Fails where any field of `input` is malformed,
/// even after a match, or where the field found is not UTF-8.
pub fn find_last_string_field(input: &[u8], target: u32) -> (r: Result<Option<String>, ScanError>)
    ensures
        match r {
            Ok(Some(s)) => scan_result(input@, target) == Ok::<_, ScanError>(Some(s@)),
            Ok(None) => scan_result(input@, target) == Ok::<Option<Seq<char>>, ScanError>(None),
            Err(e) => scan_result(input@, target) == Err::<Option<Seq<char>>, _>(e),
        },
{
    let fields = match decode_wire_fields(input) {
        Ok(fields) => fields,
        Err(_) => return Err(ScanError::Malformed),
    };
    match last_len_field(&fields, target) {
        None => Ok(None),
        Some(p) => match text_from_utf8(p) {
            Some(s) => Ok(Some(s)),
            None => Err(ScanError::InvalidUtf8),
        },
    }
}

} // verus!
