//! Decoding an image from a source that delivers its bytes piece by piece.
//!
//! A `TgaDecoder` is fed what each read of the source returns. It never
//! reads by itself: the caller reads, and tells the decoder what happened.
//! After a piece of bytes the decoder says whether it wants more; at the end
//! of the source it decodes what it was fed; after a failure of the source it
//! says which error the failure amounts to, by the field that was being read.

use crate::error::TgaError;
use crate::format::{colour_map_start, decode, image_data_start, ImageView};
use crate::header::{lemma_header_reads_prefix, TgaHeader, TGA_HEADER_LENGTH};
use crate::image::TgaImage;
use crate::rle::{scan_packets, walk_output};
use vstd::prelude::*;

verus! {

/// The part of a file that a decoder is reading.
#[derive(Copy, Clone, PartialEq, Eq, Structural, Debug)]
pub enum DecodeStage {
    /// The header is not complete.
    Header,
    /// The header is complete and declares an image that is not supported.
    /// Nothing more needs to be read.
    Rejected,
    /// The image identification is not complete.
    IdString,
    /// The colour map is not complete.
    ColourMap,
    /// The image data is not complete.
    ImageData,
    /// The image data is complete. What follows is extended image
    /// identification, to the end of the source.
    Trailer,
}

/// The part of a file that comes next when `bytes` have been read.
pub open spec fn stage_of(bytes: Seq<u8>) -> DecodeStage {
    let header = TgaHeader::from_bytes(bytes);
    let size = header.spec_image_size();
    let data = bytes.skip(image_data_start(header));
    if bytes.len() < 18 {
        DecodeStage::Header
    } else if !header.is_supported() {
        DecodeStage::Rejected
    } else if bytes.len() < colour_map_start(header) {
        DecodeStage::IdString
    } else if bytes.len() < image_data_start(header) {
        DecodeStage::ColourMap
    } else if header.data_type_code == 10 && walk_output(data, 0, size).len() < size {
        DecodeStage::ImageData
    } else if header.data_type_code == 2 && data.len() < size {
        DecodeStage::ImageData
    } else {
        DecodeStage::Trailer
    }
}

/// The error that a failure of the source amounts to when `bytes` have been
/// read: the corruption of the field that was being read. What trails the
/// image data counts as identification. Once the header is rejected no
/// failure of the source changes the verdict.
pub open spec fn fault_error(bytes: Seq<u8>, cause: Box<std::io::Error>) -> TgaError {
    match stage_of(bytes) {
        DecodeStage::Header => TgaError::CorruptTgaHeader,
        DecodeStage::Rejected => TgaError::Not24BitRgb(
            TgaHeader::from_bytes(bytes).data_type_code as usize,
        ),
        DecodeStage::IdString => TgaError::CorruptIdString(cause),
        DecodeStage::ColourMap => TgaError::CorruptColourMap(cause),
        DecodeStage::ImageData => TgaError::CorruptImageData(cause),
        DecodeStage::Trailer => TgaError::CorruptIdString(cause),
    }
}

/// The bytes of the first `count` pieces, one after the other.
pub open spec fn joined(pieces: Seq<Vec<u8>>, count: int) -> Seq<u8>
    decreases count,
{
    if count <= 0 {
        Seq::empty()
    } else {
        joined(pieces, count - 1) + pieces[count - 1]@
    }
}

/// The bytes of the pieces from index `from` up to `to`, one after the other.
pub open spec fn joined_between(pieces: Seq<Vec<u8>>, from: int, to: int) -> Seq<u8>
    decreases to - from,
{
    if to <= from {
        Seq::empty()
    } else {
        joined_between(pieces, from, to - 1) + pieces[to - 1]@
    }
}

/// The bytes of the first pieces, followed by those of the pieces after
/// them, are the bytes of them all.
pub proof fn lemma_joined_splits(pieces: Seq<Vec<u8>>, mid: int, count: int)
    requires
        0 <= mid <= count,
    ensures
        joined(pieces, count) == joined(pieces, mid) + joined_between(pieces, mid, count),
    decreases count - mid,
{
    if mid < count {
        lemma_joined_splits(pieces, mid, count - 1);
    }
}

/// Once the header is rejected, the verdict stands whatever else the source
/// holds.
pub proof fn lemma_rejected_is_final(bytes: Seq<u8>, more: Seq<u8>)
    requires
        stage_of(bytes) is Rejected,
    ensures
        decode(bytes + more) == decode(bytes),
        stage_of(bytes + more) is Rejected,
{
    assert((bytes + more).subrange(0, 18) =~= bytes.subrange(0, 18));
    lemma_header_reads_prefix(bytes + more, bytes);
}

/// Mode equivalence: a file decodes to the same image, or fails with the same
/// error, whether it is taken from one buffer or from a source that delivers
/// it in pieces, however it is cut. This holds also where the reading stops
/// early because the header is rejected.
pub proof fn lemma_mode_equivalence(pieces: Seq<Vec<u8>>, buffer: Seq<u8>)
    requires
        joined(pieces, pieces.len() as int) == buffer,
    ensures
        decode(joined(pieces, pieces.len() as int)) == decode(buffer),
        forall|count: int|
            0 <= count <= pieces.len() && #[trigger] stage_of(joined(pieces, count)) is Rejected
                ==> decode(joined(pieces, count)) == decode(buffer),
{
    assert forall|count: int|
        0 <= count <= pieces.len() && #[trigger] stage_of(
            joined(pieces, count),
        ) is Rejected implies decode(joined(pieces, count)) == decode(buffer) by {
        lemma_joined_splits(pieces, count, pieces.len() as int);
        lemma_rejected_is_final(
            joined(pieces, count),
            joined_between(pieces, count, pieces.len() as int),
        );
    }
}

/// A `TgaDecoder` gathers the bytes of a file as a source delivers them.
pub struct TgaDecoder {
    received: Vec<u8>,
}

impl View for TgaDecoder {
    type V = Seq<u8>;

    /// The bytes that the decoder has been fed, in order.
    closed spec fn view(&self) -> Seq<u8> {
        self.received@
    }
}

impl TgaDecoder {
    /// A decoder that has been fed nothing.
    pub fn new() -> (decoder: TgaDecoder)
        ensures
            decoder@ == Seq::<u8>::empty(),
    {
        TgaDecoder { received: Vec::new() }
    }

    /// Feeds the decoder the bytes that a read of the source returned.
    pub fn push(&mut self, chunk: &[u8])
        ensures
            final(self)@ == old(self)@ + chunk@,
    {
        let mut i: usize = 0;
        while i < chunk.len()
            invariant
                i <= chunk@.len(),
                self@ == old(self)@ + chunk@.subrange(0, i as int),
            decreases chunk@.len() - i,
        {
            self.received.push(chunk[i]);
            i += 1;
        }
    }

    /// The part of the file that the decoder is reading.
    pub fn stage(&self) -> (stage: DecodeStage)
        ensures
            stage == stage_of(self@),
    {
        let buf = self.received.as_slice();
        let header = match TgaHeader::parse_from_buffer(buf) {
            Ok(header) => header,
            Err(_) => {
                return DecodeStage::Header;
            },
        };
        if (header.data_type_code != 2 && header.data_type_code != 10) || header.bits_per_pixel
            != 24 {
            return DecodeStage::Rejected;
        }
        let have: usize = buf.len() - TGA_HEADER_LENGTH;
        if have < header.id_length() {
            return DecodeStage::IdString;
        }
        let have: usize = have - header.id_length();
        if have < header.colour_map_size() {
            return DecodeStage::ColourMap;
        }
        let have: usize = have - header.colour_map_size();
        let image_size: u64 = header.image_size();
        if header.data_type_code == 10 {
            let data = vstd::slice::slice_subrange(buf, buf.len() - have, buf.len());
            let (_, found) = scan_packets(data, image_size);
            if found < image_size {
                return DecodeStage::ImageData;
            }
        } else if (have as u64) < image_size {
            return DecodeStage::ImageData;
        }
        DecodeStage::Trailer
    }

    /// Whether the source should be read further. It should until it ends,
    /// unless the header is complete and is rejected.
    pub fn wants_more(&self) -> (more: bool)
        ensures
            more == !(stage_of(self@) is Rejected),
    {
        // Only the header decides: the fields after it need not be walked.
        match TgaHeader::parse_from_buffer(self.received.as_slice()) {
            Ok(header) => (header.data_type_code == 2 || header.data_type_code == 10)
                && header.bits_per_pixel == 24,
            Err(_) => true,
        }
    }

    /// Decodes what the decoder was fed. To be called when the source has
    /// ended, or when the decoder wants no more.
    pub fn finish(self) -> (result: Result<TgaImage, TgaError>)
        ensures
            match result {
                Ok(image) => {
                    &&& decode(self@) == Ok::<ImageView, TgaError>(image@)
                    &&& image is Type10 <==> image@.header.data_type_code == 10
                },
                Err(error) => decode(self@) == Err::<ImageView, TgaError>(error),
            },
    {
        TgaImage::parse_from_buffer(self.received.as_slice())
    }

    /// Gives up decoding after a failure of the source, and says which error
    /// the failure amounts to.
    pub fn abort(self, cause: Box<std::io::Error>) -> (error: TgaError)
        ensures
            error == fault_error(self@, cause),
    {
        match self.stage() {
            DecodeStage::Header => TgaError::CorruptTgaHeader,
            DecodeStage::Rejected => {
                let code: u8 = self.received[2];
                TgaError::Not24BitRgb(code as usize)
            },
            DecodeStage::IdString => TgaError::CorruptIdString(cause),
            DecodeStage::ColourMap => TgaError::CorruptColourMap(cause),
            DecodeStage::ImageData => TgaError::CorruptImageData(cause),
            DecodeStage::Trailer => TgaError::CorruptIdString(cause),
        }
    }
}

impl TgaImage {
    /// Parses a TGA image from a source that delivers the file in pieces:
    /// `chunks` holds what each read of the source returned, in order. The
    /// result is that of parsing the whole file from one buffer, however the
    /// file is cut into pieces.
    pub fn parse_from_file(chunks: &[Vec<u8>]) -> (result: Result<TgaImage, TgaError>)
        ensures
            match result {
                Ok(image) => {
                    &&& decode(joined(chunks@, chunks@.len() as int)) == Ok::<ImageView, TgaError>(
                        image@,
                    )
                    &&& image is Type10 <==> image@.header.data_type_code == 10
                },
                Err(error) => decode(joined(chunks@, chunks@.len() as int)) == Err::<
                    ImageView,
                    TgaError,
                >(error),
            },
    {
        let mut decoder = TgaDecoder::new();
        let mut read: usize = 0;
        while read < chunks.len() && decoder.wants_more()
            invariant
                read <= chunks@.len(),
                decoder@ == joined(chunks@, read as int),
            decreases chunks@.len() - read,
        {
            decoder.push(chunks[read].as_slice());
            read += 1;
        }
        proof {
            lemma_joined_splits(chunks@, read as int, chunks@.len() as int);
            if read < chunks@.len() {
                lemma_rejected_is_final(
                    decoder@,
                    joined_between(chunks@, read as int, chunks@.len() as int),
                );
            }
        }
        decoder.finish()
    }
}

} // verus!
