//! One header of a record: a key and the bytes that go with it.

use vstd::prelude::*;

verus! {

/// `bytes::Bytes`, taken as it is: a buffer is carried, and nothing of what
/// is inside it is known here.
#[verifier::external_type_specification]
#[verifier::external_body]
pub struct ExBytes(bytes::Bytes);

/// `Bytes::clone`, which the derived `Clone` of a header calls. Nothing is
/// claimed of the copy.
pub assume_specification[ <bytes::Bytes as std::clone::Clone>::clone ](
    _0: &bytes::Bytes,
) -> bytes::Bytes
;

#[derive(Debug, Clone)]
pub struct RecordHeader {
    pub key: String,
    pub value: bytes::Bytes,
}

impl RecordHeader {
    pub fn new(key: String, value: bytes::Bytes) -> (header: RecordHeader)
        ensures
            header.key == key,
            header.value == value,
    {
        RecordHeader { key, value }
    }
}

} // verus!
