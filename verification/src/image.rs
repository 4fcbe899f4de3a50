//! Decoded images: the header and the four fields of a file, held in shared
//! buffers that are never changed after decoding.

use crate::error::TgaError;
use crate::format::{
    colour_map_start, copy_of, decode, decode_as, extended_identification, image_data_start,
    same_bytes, ImageView,
};
use crate::header::{TgaHeader, TGA_HEADER_LENGTH};
use crate::pixels::{pixels_of, rows_of, PixelIter, ScanlineIter};
use crate::rle::{expand_packets, scan_packets};
use std::rc::Rc;
use vstd::prelude::*;

verus! {

/// `Rc::clone` on a buffer of bytes: the result is another handle to the same
/// buffer, so it holds the same bytes. Nothing is copied.
#[verifier::external_body]
fn share(buffer: &Rc<Vec<u8>>) -> (handle: Rc<Vec<u8>>)
    ensures
        handle@ == buffer@,
{
    Rc::clone(buffer)
}

/// A `RawTgaImage` holds what was decoded from a TGA file, whichever way its
/// image data was stored.
#[derive(Eq, Debug)]
pub struct RawTgaImage {
    /// The TGA header.
    header: TgaHeader,
    /// The image identification data that follows the header.
    image_identification: Rc<Vec<u8>>,
    /// The colour map data, as the header declares it.
    colour_map_data: Rc<Vec<u8>>,
    /// The raw pixels themselves.
    image_data: Rc<Vec<u8>>,
    /// What trails the image data in the file, footer excluded.
    extended_image_identification: Rc<Vec<u8>>,
}

impl View for RawTgaImage {
    type V = ImageView;

    closed spec fn view(&self) -> ImageView {
        ImageView {
            header: self.header,
            identification: self.image_identification@,
            colour_map: self.colour_map_data@,
            pixel_data: self.image_data@,
            extended_identification: self.extended_image_identification@,
        }
    }
}

impl PartialEq for RawTgaImage {
    /// Two images are equal when they are structurally equal: when their
    /// headers are equal and their fields hold the same bytes.
    fn eq(&self, other: &RawTgaImage) -> (equal: bool) {
        self.header == other.header && same_bytes(
            self.image_identification.as_slice(),
            other.image_identification.as_slice(),
        ) && same_bytes(self.colour_map_data.as_slice(), other.colour_map_data.as_slice())
            && same_bytes(self.image_data.as_slice(), other.image_data.as_slice()) && same_bytes(
            self.extended_image_identification.as_slice(),
            other.extended_image_identification.as_slice(),
        )
    }
}

impl vstd::std_specs::cmp::PartialEqSpecImpl for RawTgaImage {
    open spec fn obeys_eq_spec() -> bool {
        true
    }

    open spec fn eq_spec(&self, other: &RawTgaImage) -> bool {
        self@ == other@
    }
}

impl RawTgaImage {
    #[verifier::type_invariant]
    closed spec fn well_formed(&self) -> bool {
        self@.wf()
    }

    /// Constructs an image from its header and fields.
    pub(crate) fn new(
        header: TgaHeader,
        image_identification: Rc<Vec<u8>>,
        colour_map_data: Rc<Vec<u8>>,
        image_data: Rc<Vec<u8>>,
        extended_image_identification: Rc<Vec<u8>>,
    ) -> (image: RawTgaImage)
        requires
            (ImageView {
                header,
                identification: image_identification@,
                colour_map: colour_map_data@,
                pixel_data: image_data@,
                extended_identification: extended_image_identification@,
            }).wf(),
        ensures
            image@ == (ImageView {
                header,
                identification: image_identification@,
                colour_map: colour_map_data@,
                pixel_data: image_data@,
                extended_identification: extended_image_identification@,
            }),
    {
        RawTgaImage {
            header,
            image_identification,
            colour_map_data,
            image_data,
            extended_image_identification,
        }
    }

    /// Hands out the four buffers of the image, in the order of the file:
    /// identification, colour map, image data, extended identification. The
    /// buffers are shared with the image, not copied.
    pub(crate) fn buffers(&self) -> (buffers: (
        Rc<Vec<u8>>,
        Rc<Vec<u8>>,
        Rc<Vec<u8>>,
        Rc<Vec<u8>>,
    ))
        ensures
            buffers.0@ == self@.identification,
            buffers.1@ == self@.colour_map,
            buffers.2@ == self@.pixel_data,
            buffers.3@ == self@.extended_identification,
    {
        (
            share(&self.image_identification),
            share(&self.colour_map_data),
            share(&self.image_data),
            share(&self.extended_image_identification),
        )
    }

    /// The width of the image, in pixels.
    pub fn width(&self) -> (width: usize)
        ensures
            width == self@.header.spec_width(),
    {
        self.header.width()
    }

    /// The height of the image, in pixels.
    pub fn height(&self) -> (height: usize)
        ensures
            height == self@.header.spec_height(),
    {
        self.header.height()
    }

    /// The bit depth of each pixel, which is 24.
    pub fn bits_per_pixel(&self) -> (bits: usize)
        ensures
            bits == 24,
            bits == self@.header.bits_per_pixel,
    {
        proof {
            use_type_invariant(self);
        }
        self.header.bits_per_pixel()
    }

    /// The colour map type: `0` if the file declares no colour map, `1` if it
    /// declares one.
    pub fn color_map_type(&self) -> (kind: usize)
        ensures
            kind == self@.header.color_map_type,
    {
        self.header.color_map_type as usize
    }

    /// The data type code of the file that the image was decoded from.
    pub fn data_type_code(&self) -> (code: usize)
        ensures
            code == self@.header.data_type_code,
    {
        self.header.data_type_code as usize
    }

    /// A copy of the TGA header.
    pub fn header(&self) -> (header: TgaHeader)
        ensures
            header == self@.header,
    {
        self.header
    }

    /// Starts a walk over the pixels of the image, in the order in which the
    /// file stores them: from left to right in each row, and row after row.
    /// Each call starts a new walk at the first pixel.
    pub fn pixels(&self) -> (pixels: PixelIter<'_>)
        ensures
            pixels@ == pixels_of(self@.pixel_data),
            pixels@.len() == self@.header.spec_pixel_count(),
    {
        proof {
            use_type_invariant(self);
        }
        PixelIter::new(self.image_data.as_slice())
    }

    /// Starts a walk over the rows of the image, in the order in which the
    /// file stores them. Each call starts a new walk at the first row.
    pub fn scanlines(&self) -> (rows: ScanlineIter<'_>)
        ensures
            rows@ == rows_of(
                self@.pixel_data,
                self@.header.spec_width(),
                self@.header.spec_height(),
            ),
            rows@.len() == self@.header.spec_height(),
    {
        proof {
            use_type_invariant(self);
        }
        ScanlineIter::new(self.image_data.as_slice(), self.header.width(), self.header.height())
    }

    /// The size of the image in pixels: the width times the height.
    pub fn image_data_length(&self) -> (pixels: usize)
        ensures
            pixels == self@.header.spec_pixel_count(),
            3 * pixels == self@.pixel_data.len(),
    {
        proof {
            use_type_invariant(self);
        }
        self.image_data.len() / 3
    }

    /// The size of the image data in bytes: three for each pixel.
    pub fn image_data_length_bytes(&self) -> (bytes: usize)
        ensures
            bytes == self@.pixel_data.len(),
            bytes == 3 * self@.header.spec_pixel_count(),
    {
        proof {
            use_type_invariant(self);
        }
        self.image_data.len()
    }

    /// The image identification field, which follows the header in the file.
    pub fn image_identification(&self) -> (bytes: &[u8])
        ensures
            bytes@ == self@.identification,
    {
        self.image_identification.as_slice()
    }

    /// The colour map data.
    pub fn colour_map_data(&self) -> (bytes: &[u8])
        ensures
            bytes@ == self@.colour_map,
    {
        self.colour_map_data.as_slice()
    }

    /// The pixels, three bytes each, in the order in which the file stores
    /// them.
    pub fn image_data(&self) -> (bytes: &[u8])
        ensures
            bytes@ == self@.pixel_data,
    {
        self.image_data.as_slice()
    }

    /// The extended image identification: what trails the image data in the
    /// file, footer excluded.
    pub fn extended_image_identification(&self) -> (bytes: &[u8])
        ensures
            bytes@ == self@.extended_identification,
    {
        self.extended_image_identification.as_slice()
    }
}

/// Reads what precedes the image data in a file whose data type code must be
/// `code`: the header, the image identification and the colour map. Returns
/// them with the offset at which the image data starts.
fn parse_preamble(buf: &[u8], code: u8) -> (result: Result<
    (TgaHeader, Vec<u8>, Vec<u8>, usize),
    TgaError,
>)
    ensures
        match result {
            Ok((header, identification, colour_map, start)) => {
                &&& buf@.len() >= 18
                &&& header == TgaHeader::from_bytes(buf@)
                &&& header.data_type_code == code
                &&& header.bits_per_pixel == 24
                &&& start == image_data_start(header)
                &&& start <= buf@.len()
                &&& identification@ == buf@.subrange(18, colour_map_start(header))
                &&& colour_map@ == buf@.subrange(
                    colour_map_start(header),
                    image_data_start(header),
                )
            },
            Err(error) => {
                &&& decode_as(buf@, code) == Err::<ImageView, TgaError>(error)
                &&& !(error is IncompleteImageData)
            },
        },
{
    let header = TgaHeader::parse_from_buffer(buf)?;

    // The image must be of the type that the caller decodes, and a 24 bit
    // image: nothing else is supported.
    if header.data_type_code != code {
        return Err(TgaError::Not24BitRgb(header.data_type_code as usize));
    }
    if header.bits_per_pixel != 24 {
        return Err(TgaError::Not24BitRgb(header.data_type_code as usize));
    }

    // Parse the image identification.
    let id_start: usize = TGA_HEADER_LENGTH;
    let id_length: usize = header.id_length();
    if buf.len() - id_start < id_length {
        return Err(
            TgaError::IncompleteIdString((buf.len() - id_start) as u64, id_length as u64),
        );
    }
    let identification = copy_of(buf, id_start, id_start + id_length);

    // Parse the colour map data.
    let map_start: usize = id_start + id_length;
    let map_size: usize = header.colour_map_size();
    if buf.len() - map_start < map_size {
        return Err(
            TgaError::IncompleteColourMap((buf.len() - map_start) as u64, map_size as u64),
        );
    }
    let colour_map = copy_of(buf, map_start, map_start + map_size);

    Ok((header, identification, colour_map, map_start + map_size))
}

/// An unmapped uncompressed RGB image: a file with data type code 2.
#[derive(Eq, Debug)]
pub struct UncompressedRgb {
    inner: RawTgaImage,
}

impl View for UncompressedRgb {
    type V = ImageView;

    closed spec fn view(&self) -> ImageView {
        self.inner@
    }
}

impl PartialEq for UncompressedRgb {
    /// Two images are equal when they are structurally equal.
    fn eq(&self, other: &UncompressedRgb) -> (equal: bool) {
        self.inner == other.inner
    }
}

impl vstd::std_specs::cmp::PartialEqSpecImpl for UncompressedRgb {
    open spec fn obeys_eq_spec() -> bool {
        true
    }

    open spec fn eq_spec(&self, other: &UncompressedRgb) -> bool {
        self@ == other@
    }
}

impl UncompressedRgb {
    #[verifier::type_invariant]
    closed spec fn well_formed(&self) -> bool {
        self.inner@.header.data_type_code == 2
    }

    /// Parses an unmapped uncompressed RGB image from a buffer in memory. The
    /// image must start at the beginning of the buffer.
    pub fn parse_from_buffer(buf: &[u8]) -> (result: Result<UncompressedRgb, TgaError>)
        ensures
            match result {
                Ok(image) => decode_as(buf@, 2) == Ok::<ImageView, TgaError>(image@),
                Err(error) => decode_as(buf@, 2) == Err::<ImageView, TgaError>(error),
            },
    {
        let (header, identification, colour_map, start) = parse_preamble(buf, 2)?;

        // The image data is stored as it is decoded: copy it.
        let data = vstd::slice::slice_subrange(buf, start, buf.len());
        let image_size: u64 = header.image_size();
        if (data.len() as u64) < image_size {
            return Err(TgaError::IncompleteImageData(data.len() as u64, image_size));
        }
        let image_size: usize = image_size as usize;
        let image_data = copy_of(data, 0, image_size);

        // What trails the image data is extended image identification.
        let trailer = vstd::slice::slice_subrange(data, image_size, data.len());
        let extended = extended_identification(trailer);

        let inner = RawTgaImage::new(
            header,
            Rc::new(identification),
            Rc::new(colour_map),
            Rc::new(image_data),
            Rc::new(extended),
        );
        Ok(UncompressedRgb { inner })
    }

    /// The width of the image, in pixels.
    pub fn width(&self) -> (width: usize)
        ensures
            width == self@.header.spec_width(),
    {
        self.inner.width()
    }

    /// The height of the image, in pixels.
    pub fn height(&self) -> (height: usize)
        ensures
            height == self@.header.spec_height(),
    {
        self.inner.height()
    }

    /// The bit depth of each pixel, which is 24.
    pub fn bits_per_pixel(&self) -> (bits: usize)
        ensures
            bits == 24,
            bits == self@.header.bits_per_pixel,
    {
        self.inner.bits_per_pixel()
    }

    /// The colour map type: `0` if the file declares no colour map, `1` if it
    /// declares one.
    pub fn color_map_type(&self) -> (kind: usize)
        ensures
            kind == self@.header.color_map_type,
    {
        self.inner.color_map_type()
    }

    /// The data type code of the file that the image was decoded from, which is 2.
    pub fn data_type_code(&self) -> (code: usize)
        ensures
            code == 2,
            code == self@.header.data_type_code,
    {
        proof {
            use_type_invariant(self);
        }
        self.inner.data_type_code()
    }

    /// A copy of the TGA header.
    pub fn header(&self) -> (header: TgaHeader)
        ensures
            header == self@.header,
    {
        self.inner.header()
    }

    /// Starts a walk over the pixels of the image, in the order in which the
    /// file stores them: from left to right in each row, and row after row.
    /// Each call starts a new walk at the first pixel.
    pub fn pixels(&self) -> (pixels: PixelIter<'_>)
        ensures
            pixels@ == pixels_of(self@.pixel_data),
            pixels@.len() == self@.header.spec_pixel_count(),
    {
        self.inner.pixels()
    }

    /// Starts a walk over the rows of the image, in the order in which the
    /// file stores them. Each call starts a new walk at the first row.
    pub fn scanlines(&self) -> (rows: ScanlineIter<'_>)
        ensures
            rows@ == rows_of(
                self@.pixel_data,
                self@.header.spec_width(),
                self@.header.spec_height(),
            ),
            rows@.len() == self@.header.spec_height(),
    {
        self.inner.scanlines()
    }

    /// The size of the image in pixels: the width times the height.
    pub fn image_data_length(&self) -> (pixels: usize)
        ensures
            pixels == self@.header.spec_pixel_count(),
            3 * pixels == self@.pixel_data.len(),
    {
        self.inner.image_data_length()
    }

    /// The size of the image data in bytes: three for each pixel.
    pub fn image_data_length_bytes(&self) -> (bytes: usize)
        ensures
            bytes == self@.pixel_data.len(),
            bytes == 3 * self@.header.spec_pixel_count(),
    {
        self.inner.image_data_length_bytes()
    }

    /// The image identification field, which follows the header in the file.
    pub fn image_identification(&self) -> (bytes: &[u8])
        ensures
            bytes@ == self@.identification,
    {
        self.inner.image_identification()
    }

    /// The colour map data.
    pub fn colour_map_data(&self) -> (bytes: &[u8])
        ensures
            bytes@ == self@.colour_map,
    {
        self.inner.colour_map_data()
    }

    /// The pixels, three bytes each, in the order in which the file stores
    /// them.
    pub fn image_data(&self) -> (bytes: &[u8])
        ensures
            bytes@ == self@.pixel_data,
    {
        self.inner.image_data()
    }

    /// The extended image identification: what trails the image data in the
    /// file, footer excluded.
    pub fn extended_image_identification(&self) -> (bytes: &[u8])
        ensures
            bytes@ == self@.extended_identification,
    {
        self.inner.extended_image_identification()
    }
}

/// An unmapped run-length encoded RGB image: a file with data type code 10.
#[derive(Eq, Debug)]
pub struct RunLengthEncodedRgb {
    inner: RawTgaImage,
}

impl View for RunLengthEncodedRgb {
    type V = ImageView;

    closed spec fn view(&self) -> ImageView {
        self.inner@
    }
}

impl PartialEq for RunLengthEncodedRgb {
    /// Two images are equal when they are structurally equal.
    fn eq(&self, other: &RunLengthEncodedRgb) -> (equal: bool) {
        self.inner == other.inner
    }
}

impl vstd::std_specs::cmp::PartialEqSpecImpl for RunLengthEncodedRgb {
    open spec fn obeys_eq_spec() -> bool {
        true
    }

    open spec fn eq_spec(&self, other: &RunLengthEncodedRgb) -> bool {
        self@ == other@
    }
}

impl RunLengthEncodedRgb {
    #[verifier::type_invariant]
    closed spec fn well_formed(&self) -> bool {
        self.inner@.header.data_type_code == 10
    }

    /// Parses an unmapped run-length encoded RGB image from a buffer in
    /// memory. The image must start at the beginning of the buffer.
    pub fn parse_from_buffer(buf: &[u8]) -> (result: Result<RunLengthEncodedRgb, TgaError>)
        ensures
            match result {
                Ok(image) => decode_as(buf@, 10) == Ok::<ImageView, TgaError>(image@),
                Err(error) => decode_as(buf@, 10) == Err::<ImageView, TgaError>(error),
            },
    {
        let (header, identification, colour_map, start) = parse_preamble(buf, 10)?;

        // Walk the packets without expanding them, to find out whether they
        // hold the image that the header declares, and where they end.
        let data = vstd::slice::slice_subrange(buf, start, buf.len());
        let image_size: u64 = header.image_size();
        let (end, found) = scan_packets(data, image_size);
        if found != image_size {
            return Err(TgaError::IncompleteImageData(found, image_size));
        }
        // Walk the same packets again and expand them.
        let image_data = expand_packets(data, image_size);

        // What trails the packets is extended image identification.
        let trailer = vstd::slice::slice_subrange(data, end, data.len());
        let extended = extended_identification(trailer);

        let inner = RawTgaImage::new(
            header,
            Rc::new(identification),
            Rc::new(colour_map),
            Rc::new(image_data),
            Rc::new(extended),
        );
        Ok(RunLengthEncodedRgb { inner })
    }

    /// The width of the image, in pixels.
    pub fn width(&self) -> (width: usize)
        ensures
            width == self@.header.spec_width(),
    {
        self.inner.width()
    }

    /// The height of the image, in pixels.
    pub fn height(&self) -> (height: usize)
        ensures
            height == self@.header.spec_height(),
    {
        self.inner.height()
    }

    /// The bit depth of each pixel, which is 24.
    pub fn bits_per_pixel(&self) -> (bits: usize)
        ensures
            bits == 24,
            bits == self@.header.bits_per_pixel,
    {
        self.inner.bits_per_pixel()
    }

    /// The colour map type: `0` if the file declares no colour map, `1` if it
    /// declares one.
    pub fn color_map_type(&self) -> (kind: usize)
        ensures
            kind == self@.header.color_map_type,
    {
        self.inner.color_map_type()
    }

    /// The data type code of the file that the image was decoded from, which is 10.
    pub fn data_type_code(&self) -> (code: usize)
        ensures
            code == 10,
            code == self@.header.data_type_code,
    {
        proof {
            use_type_invariant(self);
        }
        self.inner.data_type_code()
    }

    /// A copy of the TGA header.
    pub fn header(&self) -> (header: TgaHeader)
        ensures
            header == self@.header,
    {
        self.inner.header()
    }

    /// Starts a walk over the pixels of the image, in the order in which the
    /// file stores them: from left to right in each row, and row after row.
    /// Each call starts a new walk at the first pixel.
    pub fn pixels(&self) -> (pixels: PixelIter<'_>)
        ensures
            pixels@ == pixels_of(self@.pixel_data),
            pixels@.len() == self@.header.spec_pixel_count(),
    {
        self.inner.pixels()
    }

    /// Starts a walk over the rows of the image, in the order in which the
    /// file stores them. Each call starts a new walk at the first row.
    pub fn scanlines(&self) -> (rows: ScanlineIter<'_>)
        ensures
            rows@ == rows_of(
                self@.pixel_data,
                self@.header.spec_width(),
                self@.header.spec_height(),
            ),
            rows@.len() == self@.header.spec_height(),
    {
        self.inner.scanlines()
    }

    /// The size of the image in pixels: the width times the height.
    pub fn image_data_length(&self) -> (pixels: usize)
        ensures
            pixels == self@.header.spec_pixel_count(),
            3 * pixels == self@.pixel_data.len(),
    {
        self.inner.image_data_length()
    }

    /// The size of the image data in bytes: three for each pixel.
    pub fn image_data_length_bytes(&self) -> (bytes: usize)
        ensures
            bytes == self@.pixel_data.len(),
            bytes == 3 * self@.header.spec_pixel_count(),
    {
        self.inner.image_data_length_bytes()
    }

    /// The image identification field, which follows the header in the file.
    pub fn image_identification(&self) -> (bytes: &[u8])
        ensures
            bytes@ == self@.identification,
    {
        self.inner.image_identification()
    }

    /// The colour map data.
    pub fn colour_map_data(&self) -> (bytes: &[u8])
        ensures
            bytes@ == self@.colour_map,
    {
        self.inner.colour_map_data()
    }

    /// The pixels, three bytes each, in the order in which the file stores
    /// them.
    pub fn image_data(&self) -> (bytes: &[u8])
        ensures
            bytes@ == self@.pixel_data,
    {
        self.inner.image_data()
    }

    /// The extended image identification: what trails the image data in the
    /// file, footer excluded.
    pub fn extended_image_identification(&self) -> (bytes: &[u8])
        ensures
            bytes@ == self@.extended_identification,
    {
        self.inner.extended_image_identification()
    }
}

/// A `TgaImage` is a decoded TGA image: either a 24 bit uncompressed RGB
/// image or a 24 bit run-length encoded RGB image. Both hold the same fields.
#[derive(Eq, Debug)]
pub enum TgaImage {
    /// An image that was decoded from a file with data type code 2.
    Type02(UncompressedRgb),
    /// An image that was decoded from a file with data type code 10.
    Type10(RunLengthEncodedRgb),
}

impl View for TgaImage {
    type V = ImageView;

    open spec fn view(&self) -> ImageView {
        match self {
            TgaImage::Type02(image) => image@,
            TgaImage::Type10(image) => image@,
        }
    }
}

impl PartialEq for TgaImage {
    /// Two images are equal when they are structurally equal. Images of
    /// different kinds never are: their headers differ in the data type code.
    fn eq(&self, other: &TgaImage) -> (equal: bool) {
        match self {
            TgaImage::Type02(image) => match other {
                TgaImage::Type02(other_image) => image == other_image,
                TgaImage::Type10(other_image) => {
                    proof {
                        use_type_invariant(image);
                        use_type_invariant(other_image);
                    }
                    false
                },
            },
            TgaImage::Type10(image) => match other {
                TgaImage::Type02(other_image) => {
                    proof {
                        use_type_invariant(image);
                        use_type_invariant(other_image);
                    }
                    false
                },
                TgaImage::Type10(other_image) => image == other_image,
            },
        }
    }
}

impl vstd::std_specs::cmp::PartialEqSpecImpl for TgaImage {
    open spec fn obeys_eq_spec() -> bool {
        true
    }

    open spec fn eq_spec(&self, other: &TgaImage) -> bool {
        self@ == other@
    }
}

impl TgaImage {
    /// Parses a TGA image from a buffer in memory. The image must start at
    /// the beginning of the buffer. The data type code in the header decides
    /// which of the two kinds of image comes out.
    pub fn parse_from_buffer(buf: &[u8]) -> (result: Result<TgaImage, TgaError>)
        ensures
            match result {
                Ok(image) => {
                    &&& decode(buf@) == Ok::<ImageView, TgaError>(image@)
                    &&& image is Type10 <==> image@.header.data_type_code == 10
                },
                Err(error) => decode(buf@) == Err::<ImageView, TgaError>(error),
            },
    {
        let header = TgaHeader::parse_from_buffer(buf)?;

        // Only 24 bit unmapped RGB images are supported, either uncompressed
        // (type code 2) or run-length encoded (type code 10).
        match header.data_type_code {
            2 => match UncompressedRgb::parse_from_buffer(buf) {
                Ok(image) => Ok(TgaImage::Type02(image)),
                Err(error) => Err(error),
            },
            10 => match RunLengthEncodedRgb::parse_from_buffer(buf) {
                Ok(image) => Ok(TgaImage::Type10(image)),
                Err(error) => Err(error),
            },
            _ => Err(TgaError::Not24BitRgb(header.data_type_code as usize)),
        }
    }

    /// The width of the image, in pixels.
    pub fn width(&self) -> (width: usize)
        ensures
            width == self@.header.spec_width(),
    {
        match self {
            TgaImage::Type02(image) => image.width(),
            TgaImage::Type10(image) => image.width(),
        }
    }

    /// The height of the image, in pixels.
    pub fn height(&self) -> (height: usize)
        ensures
            height == self@.header.spec_height(),
    {
        match self {
            TgaImage::Type02(image) => image.height(),
            TgaImage::Type10(image) => image.height(),
        }
    }

    /// The bit depth of each pixel, which is 24.
    pub fn bits_per_pixel(&self) -> (bits: usize)
        ensures
            bits == 24,
            bits == self@.header.bits_per_pixel,
    {
        match self {
            TgaImage::Type02(image) => image.bits_per_pixel(),
            TgaImage::Type10(image) => image.bits_per_pixel(),
        }
    }

    /// The colour map type: `0` if the file declares no colour map, `1` if it
    /// declares one.
    pub fn color_map_type(&self) -> (kind: usize)
        ensures
            kind == self@.header.color_map_type,
    {
        match self {
            TgaImage::Type02(image) => image.color_map_type(),
            TgaImage::Type10(image) => image.color_map_type(),
        }
    }

    /// The data type code of the file that the image was decoded from: 2 for
    /// an uncompressed image, 10 for a run-length encoded one.
    pub fn data_type_code(&self) -> (code: usize)
        ensures
            code == self@.header.data_type_code,
            code == if self is Type10 {
                10usize
            } else {
                2usize
            },
    {
        match self {
            TgaImage::Type02(image) => image.data_type_code(),
            TgaImage::Type10(image) => image.data_type_code(),
        }
    }

    /// A copy of the TGA header.
    pub fn header(&self) -> (header: TgaHeader)
        ensures
            header == self@.header,
    {
        match self {
            TgaImage::Type02(image) => image.header(),
            TgaImage::Type10(image) => image.header(),
        }
    }

    /// Starts a walk over the pixels of the image, in the order in which the
    /// file stores them: from left to right in each row, and row after row.
    /// Each call starts a new walk at the first pixel.
    pub fn pixels(&self) -> (pixels: PixelIter<'_>)
        ensures
            pixels@ == pixels_of(self@.pixel_data),
            pixels@.len() == self@.header.spec_pixel_count(),
    {
        match self {
            TgaImage::Type02(image) => image.pixels(),
            TgaImage::Type10(image) => image.pixels(),
        }
    }

    /// Starts a walk over the rows of the image, in the order in which the
    /// file stores them. Each call starts a new walk at the first row.
    pub fn scanlines(&self) -> (rows: ScanlineIter<'_>)
        ensures
            rows@ == rows_of(
                self@.pixel_data,
                self@.header.spec_width(),
                self@.header.spec_height(),
            ),
            rows@.len() == self@.header.spec_height(),
    {
        match self {
            TgaImage::Type02(image) => image.scanlines(),
            TgaImage::Type10(image) => image.scanlines(),
        }
    }

    /// The size of the image in pixels: the width times the height.
    pub fn image_data_length(&self) -> (pixels: usize)
        ensures
            pixels == self@.header.spec_pixel_count(),
            3 * pixels == self@.pixel_data.len(),
    {
        match self {
            TgaImage::Type02(image) => image.image_data_length(),
            TgaImage::Type10(image) => image.image_data_length(),
        }
    }

    /// The size of the image data in bytes: three for each pixel.
    pub fn image_data_length_bytes(&self) -> (bytes: usize)
        ensures
            bytes == self@.pixel_data.len(),
            bytes == 3 * self@.header.spec_pixel_count(),
    {
        match self {
            TgaImage::Type02(image) => image.image_data_length_bytes(),
            TgaImage::Type10(image) => image.image_data_length_bytes(),
        }
    }

    /// The image identification field, which follows the header in the file.
    pub fn image_identification(&self) -> (bytes: &[u8])
        ensures
            bytes@ == self@.identification,
    {
        match self {
            TgaImage::Type02(image) => image.image_identification(),
            TgaImage::Type10(image) => image.image_identification(),
        }
    }

    /// The colour map data.
    pub fn colour_map_data(&self) -> (bytes: &[u8])
        ensures
            bytes@ == self@.colour_map,
    {
        match self {
            TgaImage::Type02(image) => image.colour_map_data(),
            TgaImage::Type10(image) => image.colour_map_data(),
        }
    }

    /// The pixels, three bytes each, in the order in which the file stores
    /// them.
    pub fn image_data(&self) -> (bytes: &[u8])
        ensures
            bytes@ == self@.pixel_data,
    {
        match self {
            TgaImage::Type02(image) => image.image_data(),
            TgaImage::Type10(image) => image.image_data(),
        }
    }

    /// The extended image identification: what trails the image data in the
    /// file, footer excluded.
    pub fn extended_image_identification(&self) -> (bytes: &[u8])
        ensures
            bytes@ == self@.extended_identification,
    {
        match self {
            TgaImage::Type02(image) => image.extended_image_identification(),
            TgaImage::Type10(image) => image.extended_image_identification(),
        }
    }

    /// The fields of the image, whichever kind it is.
    pub(crate) fn raw_tga_image(&self) -> (raw: &RawTgaImage)
        ensures
            raw@ == self@,
    {
        match self {
            TgaImage::Type02(image) => &image.inner,
            TgaImage::Type10(image) => &image.inner,
        }
    }
}

} // verus!
