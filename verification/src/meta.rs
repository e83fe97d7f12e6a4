//! Trusted boundary to the `exif` crate: reading the orientation tag out of
//! a file's bytes.

use vstd::prelude::*;

verus! {

/// The orientation tag a byte string carries: `None` when the bytes hold no
/// readable metadata, no orientation tag, or a non-integer one; otherwise the
/// tag's first integer value. Parsing is a function of the bytes alone.
pub uninterp spec fn exif_orientation(bytes: Seq<u8>) -> Option<u32>;

/// Relies on `exif::Reader::read_from_container` to parse the metadata held
/// in the bytes, `Exif::get_field` to select the orientation tag of the
/// primary image, and `Value::as_uint` with `UIntValue::get` to read its
/// first integer. Each step is a pure function of the bytes; any failure
/// along the way yields `None`.
#[verifier::external_body]
pub(crate) fn read_orientation(bytes: &Vec<u8>) -> (r: Option<u32>)
    ensures
        r == exif_orientation(bytes@),
{
    let mut cursor = std::io::Cursor::new(bytes.as_slice());
    let parsed = match exif::Reader::new().read_from_container(&mut cursor) {
        Ok(parsed) => parsed,
        Err(_) => return None,
    };
    parsed.get_field(exif::Tag::Orientation, exif::In::PRIMARY).and_then(
        |field| field.value.as_uint().map_or(None, |u| u.get(0)),
    )
}

} // verus!
