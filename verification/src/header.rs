//! HTTP headers as plain values.
use vstd::prelude::*;

use crate::text::header_value_byte;

verus! {

/// One header of a request or response: its name as the `http` crate
/// shows it (lowercase) and its value's bytes.
pub struct Header {
    pub name: String,
    pub value: Vec<u8>,
}

/// The bytes of a header value are all ones the `http` crate accepts.
pub open spec fn valid_value(value: Seq<u8>) -> bool {
    forall|i: int| 0 <= i < value.len() ==> header_value_byte(#[trigger] value[i])
}

/// All values of a header list are valid.
pub open spec fn valid_values(headers: Seq<Header>) -> bool {
    forall|i: int| 0 <= i < headers.len() ==> valid_value(#[trigger] headers[i].value@)
}

} // verus!
