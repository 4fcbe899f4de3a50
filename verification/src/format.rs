//! The layout of a TGA file, as a mathematical model over sequences of bytes.
//!
//! A file is the header, the image identification, the colour map, the image
//! data and whatever trails it. The trailing bytes may end in a fixed
//! signature, the footer, which is a mark of the file format and not a part
//! of what the file holds.

use crate::error::TgaError;
use crate::header::TgaHeader;
use crate::rle::{walk_end, walk_output};
use vstd::prelude::*;

verus! {

/// The length of the footer in bytes.
pub const TGA_FOOTER_LENGTH: usize = 26;

/// The footer: eight zero bytes, the text `TRUEVISION-XFILE.`, and a zero
/// byte.
pub open spec fn footer() -> Seq<u8> {
    seq![
        0x00u8, 0x00, 0x00, 0x00, 0x00, 0x00, 0x00, 0x00,
        0x54, 0x52, 0x55, 0x45, 0x56, 0x49, 0x53, 0x49,
        0x4F, 0x4E, 0x2D, 0x58, 0x46, 0x49, 0x4C, 0x45,
        0x2E, 0x00,
    ]
}

/// Whether the last 26 bytes of what trails the image data are the footer.
pub open spec fn has_footer(trailer: Seq<u8>) -> bool {
    trailer.len() >= 26 && trailer.subrange(trailer.len() - 26, trailer.len() as int) == footer()
}

/// What trails the image data, without the footer if it ends in one.
pub open spec fn strip_footer(trailer: Seq<u8>) -> Seq<u8> {
    if has_footer(trailer) {
        trailer.subrange(0, trailer.len() - 26)
    } else {
        trailer
    }
}

/// What an image holds: its header and its four fields of bytes. Two images
/// are structurally equal when these are equal.
pub struct ImageView {
    /// The header of the file that the image was decoded from.
    pub header: TgaHeader,
    /// The image identification that follows the header.
    pub identification: Seq<u8>,
    /// The colour map data.
    pub colour_map: Seq<u8>,
    /// The pixels, three bytes each, in the order in which the file stores
    /// them.
    pub pixel_data: Seq<u8>,
    /// What trails the image data, footer excluded.
    pub extended_identification: Seq<u8>,
}

impl ImageView {
    /// What holds of every decoded image: it has 24 bits per pixel, and each
    /// field has the length that the header declares for it.
    pub open spec fn wf(self) -> bool {
        &&& self.header.bits_per_pixel == 24
        &&& self.identification.len() == self.header.id_length
        &&& self.colour_map.len() == self.header.spec_colour_map_size()
        &&& self.pixel_data.len() == self.header.spec_image_size()
    }

    /// The file that the image is written out as: the header, the fields in
    /// their order with the pixels uncompressed, and always the footer.
    pub open spec fn encode(self) -> Seq<u8> {
        self.header.spec_to_bytes() + self.identification + self.colour_map + self.pixel_data
            + self.extended_identification + footer()
    }
}

/// The offset in a file at which the colour map starts.
pub open spec fn colour_map_start(header: TgaHeader) -> int {
    18 + header.id_length
}

/// The offset in a file at which the image data starts.
pub open spec fn image_data_start(header: TgaHeader) -> int {
    18 + header.id_length + header.spec_colour_map_size()
}

/// The image that `bytes` decode to as a file whose data type code is `code`,
/// which is 2 for uncompressed and 10 for run-length encoded image data, or
/// the error that says why they do not.
///
/// The fields are taken in the order of the file, and the first one that the
/// bytes do not hold decides the error. Image data is complete when it holds
/// exactly the bytes that the header declares: run-length encoded data whose
/// packets do not add up to that size is incomplete, whether the stream ends
/// too early or a packet would go beyond the size.
pub open spec fn decode_as(bytes: Seq<u8>, code: u8) -> Result<ImageView, TgaError>
    recommends
        code == 2 || code == 10,
{
    let header = TgaHeader::from_bytes(bytes);
    let size = header.spec_image_size();
    let data = bytes.skip(image_data_start(header));
    if bytes.len() < 18 {
        Err(TgaError::IncompleteTgaHeader(bytes.len() as u64, 18))
    } else if header.data_type_code != code || header.bits_per_pixel != 24 {
        Err(TgaError::Not24BitRgb(header.data_type_code as usize))
    } else if bytes.len() - 18 < header.id_length {
        Err(TgaError::IncompleteIdString((bytes.len() - 18) as u64, header.id_length as u64))
    } else if bytes.len() - colour_map_start(header) < header.spec_colour_map_size() {
        Err(
            TgaError::IncompleteColourMap(
                (bytes.len() - colour_map_start(header)) as u64,
                header.spec_colour_map_size() as u64,
            ),
        )
    } else if code == 10 {
        if walk_output(data, 0, size).len() != size {
            Err(TgaError::IncompleteImageData(walk_output(data, 0, size).len() as u64, size as u64))
        } else {
            Ok(
                ImageView {
                    header,
                    identification: bytes.subrange(18, colour_map_start(header)),
                    colour_map: bytes.subrange(colour_map_start(header), image_data_start(header)),
                    pixel_data: walk_output(data, 0, size),
                    extended_identification: strip_footer(data.skip(walk_end(data, 0, size))),
                },
            )
        }
    } else {
        if data.len() < size {
            Err(TgaError::IncompleteImageData(data.len() as u64, size as u64))
        } else {
            Ok(
                ImageView {
                    header,
                    identification: bytes.subrange(18, colour_map_start(header)),
                    colour_map: bytes.subrange(colour_map_start(header), image_data_start(header)),
                    pixel_data: data.subrange(0, size as int),
                    extended_identification: strip_footer(data.skip(size as int)),
                },
            )
        }
    }
}

/// The image that `bytes` decode to, or the error that says why they do not.
/// The data type code in the header selects how the image data is read.
pub open spec fn decode(bytes: Seq<u8>) -> Result<ImageView, TgaError> {
    if bytes.len() >= 18 && TgaHeader::from_bytes(bytes).data_type_code == 10 {
        decode_as(bytes, 10)
    } else {
        decode_as(bytes, 2)
    }
}

/// The footer as an array.
pub fn footer_bytes() -> (bytes: [u8; 26])
    ensures
        bytes@ == footer(),
{
    let bytes: [u8; 26] = [
        0x00, 0x00, 0x00, 0x00, 0x00, 0x00, 0x00, 0x00,
        0x54, 0x52, 0x55, 0x45, 0x56, 0x49, 0x53, 0x49,
        0x4F, 0x4E, 0x2D, 0x58, 0x46, 0x49, 0x4C, 0x45,
        0x2E, 0x00,
    ];
    bytes
}

/// Tells whether what trails the image data ends in the footer.
pub fn ends_in_footer(trailer: &[u8]) -> (found: bool)
    ensures
        found == has_footer(trailer@),
{
    if trailer.len() < TGA_FOOTER_LENGTH {
        return false;
    }
    let expected = footer_bytes();
    let start: usize = trailer.len() - TGA_FOOTER_LENGTH;
    let ghost tail = trailer@.subrange(start as int, trailer@.len() as int);
    let mut i: usize = 0;
    while i < TGA_FOOTER_LENGTH
        invariant
            i <= 26,
            start + 26 == trailer.len(),
            expected@ == footer(),
            tail == trailer@.subrange(start as int, trailer@.len() as int),
            forall|j: int| 0 <= j < i ==> tail[j] == footer()[j],
        decreases 26 - i,
    {
        if trailer[start + i] != expected[i] {
            return false;
        }
        i += 1;
    }
    assert(tail =~= footer());
    true
}

/// Copies what trails the image data, leaving out the footer if the bytes end
/// in one.
pub fn extended_identification(trailer: &[u8]) -> (bytes: Vec<u8>)
    ensures
        bytes@ == strip_footer(trailer@),
{
    if ends_in_footer(trailer) {
        copy_of(trailer, 0, trailer.len() - TGA_FOOTER_LENGTH)
    } else {
        copy_of(trailer, 0, trailer.len())
    }
}

/// Tells whether two buffers hold the same bytes.
pub fn same_bytes(left: &[u8], right: &[u8]) -> (same: bool)
    ensures
        same == (left@ == right@),
{
    if left.len() != right.len() {
        return false;
    }
    let mut i: usize = 0;
    while i < left.len()
        invariant
            i <= left@.len(),
            left@.len() == right@.len(),
            forall|j: int| 0 <= j < i ==> left@[j] == right@[j],
        decreases left@.len() - i,
    {
        if left[i] != right[i] {
            return false;
        }
        i += 1;
    }
    assert(left@ =~= right@);
    true
}

/// Copies a part of a buffer.
pub fn copy_of(buf: &[u8], from: usize, to: usize) -> (bytes: Vec<u8>)
    requires
        from <= to <= buf@.len(),
    ensures
        bytes@ == buf@.subrange(from as int, to as int),
{
    let mut bytes: Vec<u8> = Vec::with_capacity(to - from);
    let mut i: usize = from;
    while i < to
        invariant
            from <= i <= to <= buf@.len(),
            bytes@ == buf@.subrange(from as int, i as int),
        decreases to - i,
    {
        bytes.push(buf[i]);
        i += 1;
    }
    bytes
}

} // verus!
