//! What holds of decoding and encoding in general, proved over the model of
//! the file format.

use crate::error::TgaError;
use crate::format::{
    colour_map_start, decode, decode_as, footer, image_data_start, strip_footer, ImageView,
};
use crate::header::{lemma_header_from_to_bytes, lemma_header_reads_prefix, TgaHeader};
use crate::rle::{
    lemma_walk_bounds, packet_input_size, packet_output, packet_output_size, walk_end,
    walk_output,
};
use vstd::prelude::*;

verus! {

/// The offset in a file at which its image data ends: for uncompressed data
/// after the bytes that the header declares, for run-length encoded data
/// after the last packet that is decoded.
pub open spec fn image_data_end(file: Seq<u8>) -> int {
    let header = TgaHeader::from_bytes(file);
    let data = file.skip(image_data_start(header));
    if header.data_type_code == 10 {
        image_data_start(header) + walk_end(data, 0, header.spec_image_size())
    } else {
        image_data_start(header) + header.spec_image_size()
    }
}

/// The image with the data type code in its header set to 2: what the image
/// is when it is stored uncompressed.
pub open spec fn as_uncompressed(image: ImageView) -> ImageView {
    ImageView { header: TgaHeader { data_type_code: 2, ..image.header }, ..image }
}

/// Every image that decoding gives is well-formed: it has 24 bits per pixel,
/// each of its fields has the length that its header declares, and its header
/// is the header of the file.
pub proof fn lemma_decoded_is_well_formed(bytes: Seq<u8>, code: u8)
    requires
        decode_as(bytes, code) is Ok,
    ensures
        decode_as(bytes, code)->Ok_0.wf(),
        decode_as(bytes, code)->Ok_0.header == TgaHeader::from_bytes(bytes),
        decode_as(bytes, code)->Ok_0.header.data_type_code == code,
        bytes.len() >= image_data_start(TgaHeader::from_bytes(bytes)),
{
}

/// Every decoded image is well-formed, and its header is the header of the
/// file, which declares a supported image.
pub proof fn lemma_decode_gives_well_formed(bytes: Seq<u8>)
    requires
        decode(bytes) is Ok,
    ensures
        decode(bytes)->Ok_0.wf(),
        decode(bytes)->Ok_0.header == TgaHeader::from_bytes(bytes),
        decode(bytes)->Ok_0.header.is_supported(),
        bytes.len() >= image_data_start(TgaHeader::from_bytes(bytes)),
{
}

/// An error that says that the source is incomplete always reports fewer
/// bytes than are needed: decoding never counts more than the header
/// declares.
pub proof fn lemma_incomplete_is_short(bytes: Seq<u8>)
    ensures
        match decode(bytes) {
            Err(TgaError::IncompleteTgaHeader(have, need)) => have < need,
            Err(TgaError::IncompleteIdString(have, need)) => have < need,
            Err(TgaError::IncompleteColourMap(have, need)) => have < need,
            Err(TgaError::IncompleteImageData(have, need)) => have < need,
            _ => true,
        },
{
    let header = TgaHeader::from_bytes(bytes);
    let size = header.spec_image_size();
    let width = header.spec_width();
    let height = header.spec_height();
    let entries = header.spec_colour_map_length();
    let entry_size = (header.colour_map_depth / 8) as nat;
    assert(width * height <= 65535 * 65535) by (nonlinear_arith)
        requires
            width <= 65535,
            height <= 65535,
    ;
    assert(entries * entry_size <= 65535 * 31) by (nonlinear_arith)
        requires
            entries <= 65535,
            entry_size <= 31,
    ;
    if bytes.len() >= image_data_start(header) {
        lemma_walk_bounds(bytes.skip(image_data_start(header)), 0, size);
    }
}

/// Decoding the file that a well-formed uncompressed image is written out as
/// gives the image back, field for field.
pub proof fn lemma_decode_encode(image: ImageView)
    requires
        image.wf(),
        image.header.data_type_code == 2,
    ensures
        decode(image.encode()) == Ok::<ImageView, TgaError>(image),
{
    let file = image.encode();
    let header = image.header;
    lemma_header_from_to_bytes(header);
    assert(file.subrange(0, 18) =~= header.spec_to_bytes().subrange(0, 18));
    lemma_header_reads_prefix(file, header.spec_to_bytes());
    let size = header.spec_image_size();
    let data = file.skip(image_data_start(header));
    let trailer = image.extended_identification + footer();
    assert(data.subrange(0, size as int) =~= image.pixel_data);
    assert(data.skip(size as int) =~= trailer);
    assert(trailer.subrange(trailer.len() - 26, trailer.len() as int) =~= footer());
    assert(strip_footer(trailer) =~= image.extended_identification);
    assert(file.subrange(18, colour_map_start(header)) =~= image.identification);
    assert(file.subrange(colour_map_start(header), image_data_start(header))
        =~= image.colour_map);
}

/// The round trip: a valid uncompressed file decodes to an image whose
/// written-out file decodes to the same image again.
pub proof fn lemma_round_trip(file: Seq<u8>)
    requires
        decode(file) is Ok,
        TgaHeader::from_bytes(file).data_type_code == 2,
    ensures
        decode(decode(file)->Ok_0.encode()) == decode(file),
{
    lemma_decoded_is_well_formed(file, 2);
    lemma_decode_encode(decode(file)->Ok_0);
}

/// A run-length encoded file and the uncompressed file of the same image
/// decode to the same pixels, byte for byte, and to the same other fields.
pub proof fn lemma_rle_matches_uncompressed(file: Seq<u8>)
    requires
        decode(file) is Ok,
        TgaHeader::from_bytes(file).data_type_code == 10,
    ensures
        decode(as_uncompressed(decode(file)->Ok_0).encode()) == Ok::<ImageView, TgaError>(
            as_uncompressed(decode(file)->Ok_0),
        ),
        decode(as_uncompressed(decode(file)->Ok_0).encode())->Ok_0.pixel_data == decode(
            file,
        )->Ok_0.pixel_data,
{
    lemma_decoded_is_well_formed(file, 10);
    let plain = as_uncompressed(decode(file)->Ok_0);
    lemma_decode_encode(plain);
}

/// An empty identification field is no error: a file whose header declares
/// no identification never fails for want of it, and decodes to an image
/// with an empty identification.
pub proof fn lemma_no_identification(file: Seq<u8>)
    requires
        file.len() >= 18,
        TgaHeader::from_bytes(file).id_length == 0,
    ensures
        !(decode(file) matches Err(error) && error is IncompleteIdString),
        decode(file) matches Ok(image) ==> image.identification == Seq::<u8>::empty(),
{
}

/// An empty colour map is no error: a file whose header declares no colour
/// map, with a colour map size of zero, never fails for want of one, and
/// decodes to an image with an empty colour map.
pub proof fn lemma_no_colour_map(file: Seq<u8>)
    requires
        file.len() >= 18,
        TgaHeader::from_bytes(file).color_map_type == 0,
        TgaHeader::from_bytes(file).spec_colour_map_size() == 0,
    ensures
        !(decode(file) matches Err(error) && error is IncompleteColourMap),
        decode(file) matches Ok(image) ==> image.colour_map == Seq::<u8>::empty(),
{
}

/// The packet at `pos` expands to as many bytes as its header byte says.
pub proof fn lemma_packet_output_len(stream: Seq<u8>, pos: int)
    requires
        0 <= pos,
        pos + packet_input_size(stream[pos]) <= stream.len(),
    ensures
        packet_output(stream, pos).len() == packet_output_size(stream[pos]),
{
}

/// A stream of packets that is cut before the end of its last decoded
/// packet does not hold the image data any more.
pub proof fn lemma_walk_truncated(stream: Seq<u8>, pos: int, need: nat, cut: int)
    requires
        0 <= pos <= cut < walk_end(stream, pos, need),
        cut <= stream.len(),
    ensures
        walk_output(stream.take(cut), pos, need).len() < need,
    decreases need,
{
    // The walk goes on from `pos`, so a packet fits there. If the cut goes
    // through that packet the walk over the cut stream stops at once, with
    // something missing. If not, the packet is decoded as before.
    let short = stream.take(cut);
    let input = packet_input_size(stream[pos]);
    let output = packet_output_size(stream[pos]);
    if pos < cut && pos + input <= cut {
        lemma_packet_output_len(short, pos);
        let rest = (need - output) as nat;
        if pos + input == cut {
            // Nothing is left after the packet, but the whole stream goes
            // on: something is still missing.
            assert(walk_end(stream, pos + input, rest) > cut);
            assert(walk_output(short, pos + input, rest).len() == 0);
        } else {
            lemma_walk_truncated(stream, pos + input, rest, cut);
        }
    }
}

/// A valid file that is cut anywhere before the end of its image data is not
/// decoded to a shorter image: decoding fails, and the error says that the
/// source is incomplete.
pub proof fn lemma_truncated_is_incomplete(file: Seq<u8>, cut: int)
    requires
        decode(file) is Ok,
        0 <= cut < image_data_end(file),
    ensures
        decode(file.take(cut)) matches Err(error) && error.is_incomplete(),
{
    let header = TgaHeader::from_bytes(file);
    let code = header.data_type_code;
    let size = header.spec_image_size();
    let start = image_data_start(header);
    let data = file.skip(start);
    lemma_decoded_is_well_formed(file, code);
    lemma_walk_bounds(data, 0, size);
    let short = file.take(cut);
    if cut >= 18 {
        assert(short.subrange(0, 18) =~= file.subrange(0, 18));
        lemma_header_reads_prefix(short, file);
        if cut >= start {
            let short_data = short.skip(start);
            assert(short_data =~= data.take(cut - start));
            if code == 10 {
                lemma_walk_truncated(data, 0, size, cut - start);
            }
        }
    }
}

} // verus!
