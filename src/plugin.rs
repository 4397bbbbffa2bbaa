//! The stand-in plugin's own decision: which rendezvous key a generation
//! request carries.

use crate::wire::{find_last_string_field, scan_result, ScanError};
use vstd::prelude::*;

verus! {

/// Field number of the generation request's `parameter` string, where the
/// compiler echoes the plugin option that carries the rendezvous key.
pub const REQUEST_PARAMETER_FIELD: u32 = 2;

/// Why no rendezvous key could be taken from a request.
#[derive(Debug, Clone, Copy, PartialEq, Eq, Structural)]
pub enum KeyError {
    /// The request bytes do not scan.
    Scan(ScanError),
    /// The request has no parameter field.
    Missing,
}

/// The rendezvous key that the request `input` carries: the text of its last
/// parameter field.
pub open spec fn request_key(input: Seq<u8>) -> Result<Seq<char>, KeyError> {
    match scan_result(input, REQUEST_PARAMETER_FIELD) {
        Err(e) => Err(KeyError::Scan(e)),
        Ok(None) => Err(KeyError::Missing),
        Ok(Some(t)) => Ok(t),
    }
}

/// Takes the rendezvous key out of the serialized generation request `input`.
pub fn rendezvous_key_of_request(input: &[u8]) -> (r: Result<String, KeyError>)
    ensures
        match r {
            Ok(s) => request_key(input@) == Ok::<_, KeyError>(s@),
            Err(e) => request_key(input@) == Err::<Seq<char>, _>(e),
        },
{
    match find_last_string_field(input, REQUEST_PARAMETER_FIELD) {
        Ok(Some(key)) => Ok(key),
        Ok(None) => Err(KeyError::Missing),
        Err(e) => Err(KeyError::Scan(e)),
    }
}

} // verus!
