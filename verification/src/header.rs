//! The fixed 18 byte header that starts every TGA file.

use crate::error::TgaError;
use vstd::prelude::*;

verus! {

/// The length of a TGA header is always 18 bytes.
pub const TGA_HEADER_LENGTH: usize = 18;

/// The value of a two byte little-endian field: the low byte comes first.
pub open spec fn le16(field: [u8; 2]) -> nat {
    (field[0] as nat) + 256 * (field[1] as nat)
}

/// Computes the value of a two byte little-endian field.
pub fn le16_value(field: &[u8; 2]) -> (value: usize)
    ensures
        value == le16(*field),
        value <= 65535,
{
    let low: u16 = field[0] as u16;
    let high: u16 = field[1] as u16;
    assert(((high << 8) | low) == high * 256 + low) by (bit_vector)
        requires
            low < 256,
            high < 256,
    ;
    ((high << 8) | low) as usize
}

/// A `TgaHeader` holds the twelve fields of a TGA file header. Multi-byte
/// fields are kept as they are stored: little-endian, low byte first.
#[derive(Copy, Clone, Eq, Debug)]
pub struct TgaHeader {
    /// The length of the image identification string, in bytes.
    pub id_length: u8,
    /// The type of the colour map: `0` for none, `1` if one is included.
    pub color_map_type: u8,
    /// The type of image: `2` is unmapped uncompressed RGB, `10` is unmapped
    /// run-length encoded RGB.
    pub data_type_code: u8,
    /// The index of the first colour map entry.
    pub colour_map_origin: [u8; 2],
    /// The number of colour map entries.
    pub colour_map_length: [u8; 2],
    /// The number of bits in a colour map entry.
    pub colour_map_depth: u8,
    /// The X coordinate of the lower left corner of the image.
    pub x_origin: [u8; 2],
    /// The Y coordinate of the lower left corner of the image.
    pub y_origin: [u8; 2],
    /// The width of the image in pixels.
    pub width: [u8; 2],
    /// The height of the image in pixels.
    pub height: [u8; 2],
    /// The number of bits per pixel.
    pub bits_per_pixel: u8,
    /// The image descriptor byte.
    pub image_descriptor: u8,
}

impl PartialEq for TgaHeader {
    /// Two headers are equal when all their fields are.
    fn eq(&self, other: &TgaHeader) -> (equal: bool) {
        let equal = self.id_length == other.id_length
            && self.color_map_type == other.color_map_type
            && self.data_type_code == other.data_type_code
            && self.colour_map_origin[0] == other.colour_map_origin[0]
            && self.colour_map_origin[1] == other.colour_map_origin[1]
            && self.colour_map_length[0] == other.colour_map_length[0]
            && self.colour_map_length[1] == other.colour_map_length[1]
            && self.colour_map_depth == other.colour_map_depth
            && self.x_origin[0] == other.x_origin[0]
            && self.x_origin[1] == other.x_origin[1]
            && self.y_origin[0] == other.y_origin[0]
            && self.y_origin[1] == other.y_origin[1]
            && self.width[0] == other.width[0]
            && self.width[1] == other.width[1]
            && self.height[0] == other.height[0]
            && self.height[1] == other.height[1]
            && self.bits_per_pixel == other.bits_per_pixel
            && self.image_descriptor == other.image_descriptor;
        proof {
            if equal {
                assert(self.colour_map_origin =~= other.colour_map_origin);
                assert(self.colour_map_length =~= other.colour_map_length);
                assert(self.x_origin =~= other.x_origin);
                assert(self.y_origin =~= other.y_origin);
                assert(self.width =~= other.width);
                assert(self.height =~= other.height);
            }
        }
        equal
    }
}

impl vstd::std_specs::cmp::PartialEqSpecImpl for TgaHeader {
    open spec fn obeys_eq_spec() -> bool {
        true
    }

    open spec fn eq_spec(&self, other: &TgaHeader) -> bool {
        *self == *other
    }
}

impl TgaHeader {
    /// The header that the first 18 bytes of `bytes` spell out.
    pub open spec fn from_bytes(bytes: Seq<u8>) -> TgaHeader
        recommends
            bytes.len() >= 18,
    {
        TgaHeader {
            id_length: bytes[0],
            color_map_type: bytes[1],
            data_type_code: bytes[2],
            colour_map_origin: [bytes[3], bytes[4]],
            colour_map_length: [bytes[5], bytes[6]],
            colour_map_depth: bytes[7],
            x_origin: [bytes[8], bytes[9]],
            y_origin: [bytes[10], bytes[11]],
            width: [bytes[12], bytes[13]],
            height: [bytes[14], bytes[15]],
            bits_per_pixel: bytes[16],
            image_descriptor: bytes[17],
        }
    }

    /// The 18 bytes that spell out the header.
    pub open spec fn spec_to_bytes(&self) -> Seq<u8> {
        seq![
            self.id_length,
            self.color_map_type,
            self.data_type_code,
            self.colour_map_origin[0],
            self.colour_map_origin[1],
            self.colour_map_length[0],
            self.colour_map_length[1],
            self.colour_map_depth,
            self.x_origin[0],
            self.x_origin[1],
            self.y_origin[0],
            self.y_origin[1],
            self.width[0],
            self.width[1],
            self.height[0],
            self.height[1],
            self.bits_per_pixel,
            self.image_descriptor,
        ]
    }

    /// The width of the image, in pixels.
    pub open spec fn spec_width(&self) -> nat {
        le16(self.width)
    }

    /// The height of the image, in pixels.
    pub open spec fn spec_height(&self) -> nat {
        le16(self.height)
    }

    /// The number of whole bytes that one pixel takes.
    pub open spec fn spec_bytes_per_pixel(&self) -> nat {
        (self.bits_per_pixel / 8) as nat
    }

    /// The number of entries in the colour map.
    pub open spec fn spec_colour_map_length(&self) -> nat {
        le16(self.colour_map_length)
    }

    /// The size of the colour map in bytes: the number of entries times the
    /// number of whole bytes in an entry.
    pub open spec fn spec_colour_map_size(&self) -> nat {
        self.spec_colour_map_length() * ((self.colour_map_depth / 8) as nat)
    }

    /// The number of pixels in the image: one for each column of each row.
    pub open spec fn spec_pixel_count(&self) -> nat {
        self.spec_width() * self.spec_height()
    }

    /// The size in bytes of the image data of a 24 bit image: three bytes for
    /// each pixel.
    pub open spec fn spec_image_size(&self) -> nat {
        3 * self.spec_pixel_count()
    }

    /// Whether the header declares an image that this library decodes: a
    /// 24 bit image, uncompressed or run-length encoded.
    pub open spec fn is_supported(&self) -> bool {
        (self.data_type_code == 2 || self.data_type_code == 10) && self.bits_per_pixel == 24
    }

    /// Parses a TGA header from the start of a buffer. Nothing is checked but
    /// the length: any 18 bytes are a header.
    pub fn parse_from_buffer(buf: &[u8]) -> (result: Result<TgaHeader, TgaError>)
        ensures
            buf@.len() >= 18 ==> result == Ok::<TgaHeader, TgaError>(TgaHeader::from_bytes(buf@)),
            buf@.len() < 18 ==> result == Err::<TgaHeader, TgaError>(
                TgaError::IncompleteTgaHeader(buf@.len() as u64, 18),
            ),
    {
        if buf.len() >= TGA_HEADER_LENGTH {
            let header = TgaHeader {
                id_length: buf[0],
                color_map_type: buf[1],
                data_type_code: buf[2],
                colour_map_origin: [buf[3], buf[4]],
                colour_map_length: [buf[5], buf[6]],
                colour_map_depth: buf[7],
                x_origin: [buf[8], buf[9]],
                y_origin: [buf[10], buf[11]],
                width: [buf[12], buf[13]],
                height: [buf[14], buf[15]],
                bits_per_pixel: buf[16],
                image_descriptor: buf[17],
            };
            return Ok(header);
        }
        Err(TgaError::IncompleteTgaHeader(buf.len() as u64, TGA_HEADER_LENGTH as u64))
    }

    /// Writes the header out as its 18 bytes.
    pub fn to_bytes(&self) -> (bytes: Vec<u8>)
        ensures
            bytes@ == self.spec_to_bytes(),
    {
        let bytes = vec![
            self.id_length,
            self.color_map_type,
            self.data_type_code,
            self.colour_map_origin[0],
            self.colour_map_origin[1],
            self.colour_map_length[0],
            self.colour_map_length[1],
            self.colour_map_depth,
            self.x_origin[0],
            self.x_origin[1],
            self.y_origin[0],
            self.y_origin[1],
            self.width[0],
            self.width[1],
            self.height[0],
            self.height[1],
            self.bits_per_pixel,
            self.image_descriptor,
        ];
        bytes
    }

    /// The width of the image, in pixels.
    pub fn width(&self) -> (width: usize)
        ensures
            width == self.spec_width(),
            width <= 65535,
    {
        le16_value(&self.width)
    }

    /// The height of the image, in pixels.
    pub fn height(&self) -> (height: usize)
        ensures
            height == self.spec_height(),
            height <= 65535,
    {
        le16_value(&self.height)
    }

    /// The bit depth of each pixel.
    pub fn bits_per_pixel(&self) -> (bits: usize)
        ensures
            bits == self.bits_per_pixel,
    {
        self.bits_per_pixel as usize
    }

    /// The number of whole bytes that one pixel takes.
    pub fn bytes_per_pixel(&self) -> (bytes: usize)
        ensures
            bytes == self.spec_bytes_per_pixel(),
            bytes <= 31,
    {
        (self.bits_per_pixel / 8) as usize
    }

    /// The number of entries in the colour map.
    pub fn colour_map_length(&self) -> (length: usize)
        ensures
            length == self.spec_colour_map_length(),
            length <= 65535,
    {
        le16_value(&self.colour_map_length)
    }

    /// The number of bits in a colour map entry.
    pub fn colour_map_depth(&self) -> (depth: usize)
        ensures
            depth == self.colour_map_depth,
    {
        self.colour_map_depth as usize
    }

    /// The size of the colour map in bytes.
    pub fn colour_map_size(&self) -> (size: usize)
        ensures
            size == self.spec_colour_map_size(),
            size <= 65535 * 31,
    {
        let length: usize = le16_value(&self.colour_map_length);
        let entry_bytes: usize = (self.colour_map_depth / 8) as usize;
        assert(length * entry_bytes <= 65535 * 31) by (nonlinear_arith)
            requires
                length <= 65535,
                entry_bytes <= 31,
        ;
        length * entry_bytes
    }

    /// The length of the image identification field, in bytes.
    pub fn id_length(&self) -> (length: usize)
        ensures
            length == self.id_length,
    {
        self.id_length as usize
    }

    /// The size in bytes of the decoded image data: the width times the
    /// height times the number of bytes in a pixel. It is computed in 64 bits:
    /// the largest image that a header can declare does not fit in 32.
    pub fn image_size(&self) -> (size: u64)
        ensures
            size == self.spec_pixel_count() * self.spec_bytes_per_pixel(),
            self.bits_per_pixel == 24 ==> size == self.spec_image_size(),
            size <= 65535 * 65535 * 31,
    {
        let width: u64 = le16_value(&self.width) as u64;
        let height: u64 = le16_value(&self.height) as u64;
        let pixel_bytes: u64 = (self.bits_per_pixel / 8) as u64;
        assert(width * height <= 65535 * 65535) by (nonlinear_arith)
            requires
                width <= 65535,
                height <= 65535,
        ;
        assert(width * height * pixel_bytes <= 65535 * 65535 * 31) by (nonlinear_arith)
            requires
                width * height <= 65535 * 65535,
                pixel_bytes <= 31,
        ;
        assert(pixel_bytes == 3 ==> width * height * pixel_bytes == 3 * (width * height))
            by (nonlinear_arith);
        width * height * pixel_bytes
    }
}

/// Parsing the bytes of a header gives the header back.
pub proof fn lemma_header_from_to_bytes(header: TgaHeader)
    ensures
        header.spec_to_bytes().len() == 18,
        TgaHeader::from_bytes(header.spec_to_bytes()) == header,
{
    let parsed = TgaHeader::from_bytes(header.spec_to_bytes());
    assert(parsed.colour_map_origin =~= header.colour_map_origin);
    assert(parsed.colour_map_length =~= header.colour_map_length);
    assert(parsed.x_origin =~= header.x_origin);
    assert(parsed.y_origin =~= header.y_origin);
    assert(parsed.width =~= header.width);
    assert(parsed.height =~= header.height);
}

/// Writing out a parsed header gives back the 18 bytes it was parsed from.
pub proof fn lemma_header_to_from_bytes(bytes: Seq<u8>)
    requires
        bytes.len() >= 18,
    ensures
        TgaHeader::from_bytes(bytes).spec_to_bytes() == bytes.subrange(0, 18),
{
}

/// A header is read from the first 18 bytes alone: what follows them does
/// not change it.
pub proof fn lemma_header_reads_prefix(bytes: Seq<u8>, other: Seq<u8>)
    requires
        bytes.len() >= 18,
        other.len() >= 18,
        bytes.subrange(0, 18) == other.subrange(0, 18),
    ensures
        TgaHeader::from_bytes(bytes) == TgaHeader::from_bytes(other),
{
    assert forall|i: int| 0 <= i < 18 implies bytes[i] == other[i] by {
        assert(other[i] == other.subrange(0, 18)[i]);
    }
}

} // verus!
