//! Run-length encoded image data: a stream of packets, each of which stands
//! for one to 128 pixels of three bytes.
//!
//! A packet starts with a header byte. Its low seven bits, plus one, are the
//! number of pixels that the packet stands for. If the high bit is set the
//! packet is a run packet: one pixel follows, to be repeated that many times.
//! Otherwise it is a raw packet: that many pixels follow, to be copied.

use vstd::prelude::*;

verus! {

/// The number of pixels that a packet stands for: never zero.
pub open spec fn packet_pixels(head: u8) -> nat {
    ((head & 0x7f) as nat) + 1
}

/// Whether a packet repeats one pixel, rather than listing each of its pixels.
pub open spec fn is_run_packet(head: u8) -> bool {
    head & 0x80 != 0
}

/// The number of bytes that a packet takes in the stream, header byte
/// included.
pub open spec fn packet_input_size(head: u8) -> nat {
    if is_run_packet(head) {
        4
    } else {
        1 + 3 * packet_pixels(head)
    }
}

/// The number of bytes of image data that a packet expands to.
pub open spec fn packet_output_size(head: u8) -> nat {
    3 * packet_pixels(head)
}

/// Whether a packet can be decoded at `pos` when `need` bytes of image data
/// are still missing: the packet lies whole within the stream, and it does
/// not expand to more than is missing.
pub open spec fn packet_fits(stream: Seq<u8>, pos: int, need: nat) -> bool {
    &&& 0 <= pos < stream.len()
    &&& pos + packet_input_size(stream[pos]) <= stream.len()
    &&& packet_output_size(stream[pos]) <= need
}

/// The image data that the packet at `pos` expands to.
pub open spec fn packet_output(stream: Seq<u8>, pos: int) -> Seq<u8> {
    if is_run_packet(stream[pos]) {
        Seq::new(packet_output_size(stream[pos]), |i: int| stream[pos + 1 + i % 3])
    } else {
        stream.subrange(pos + 1, pos + 1 + packet_output_size(stream[pos]))
    }
}

/// Where decoding stops when it starts at `pos` with `need` bytes of image
/// data missing. Packets are decoded one after the other for as long as
/// something is missing and the next packet fits.
pub open spec fn walk_end(stream: Seq<u8>, pos: int, need: nat) -> int
    decreases need,
{
    if need > 0 && packet_fits(stream, pos, need) {
        walk_end(
            stream,
            pos + packet_input_size(stream[pos]),
            (need - packet_output_size(stream[pos])) as nat,
        )
    } else {
        pos
    }
}

/// The image data that decoding produces when it starts at `pos` with `need`
/// bytes missing: the output of the packets up to `walk_end`, in order.
pub open spec fn walk_output(stream: Seq<u8>, pos: int, need: nat) -> Seq<u8>
    decreases need,
{
    if need > 0 && packet_fits(stream, pos, need) {
        packet_output(stream, pos) + walk_output(
            stream,
            pos + packet_input_size(stream[pos]),
            (need - packet_output_size(stream[pos])) as nat,
        )
    } else {
        Seq::empty()
    }
}

/// A packet stands for at least one and at most 128 pixels.
pub proof fn lemma_packet_pixels_range(head: u8)
    ensures
        1 <= packet_pixels(head) <= 128,
{
    assert(head & 0x7f <= 127) by (bit_vector);
}

/// Decoding never goes backwards, never leaves the stream, and never
/// produces more than was missing.
pub proof fn lemma_walk_bounds(stream: Seq<u8>, pos: int, need: nat)
    requires
        0 <= pos <= stream.len(),
    ensures
        pos <= walk_end(stream, pos, need) <= stream.len(),
        walk_output(stream, pos, need).len() <= need,
    decreases need,
{
    if need > 0 && packet_fits(stream, pos, need) {
        lemma_packet_pixels_range(stream[pos]);
        lemma_walk_bounds(
            stream,
            pos + packet_input_size(stream[pos]),
            (need - packet_output_size(stream[pos])) as nat,
        );
    }
}

/// Reads the header byte of the packet at `pos`: the number of bytes that the
/// packet takes in the stream, and the number that it expands to.
fn packet_sizes(stream: &[u8], pos: usize) -> (sizes: (usize, usize))
    requires
        pos < stream@.len(),
    ensures
        sizes.0 == packet_input_size(stream@[pos as int]),
        sizes.1 == packet_output_size(stream@[pos as int]),
        4 <= sizes.0 <= 385,
        3 <= sizes.1 <= 384,
{
    let head: u8 = stream[pos];
    proof {
        lemma_packet_pixels_range(head);
    }
    // A packet never stands for zero pixels: the count is stored less one.
    let pixels: usize = (head & 0x7F) as usize + 1;
    if head & 0x80 != 0 {
        (4, 3 * pixels)
    } else {
        (3 * pixels + 1, 3 * pixels)
    }
}

/// The first pass over run-length encoded image data: walks the packets from
/// the start of `stream` without expanding them, until `size` bytes of image
/// data are accounted for or the next packet does not fit. Returns the offset
/// at which the walk stopped and the number of bytes accounted for.
pub fn scan_packets(stream: &[u8], size: u64) -> (found: (usize, u64))
    ensures
        found.0 == walk_end(stream@, 0, size as nat),
        found.1 == walk_output(stream@, 0, size as nat).len(),
        found.0 <= stream@.len(),
        found.1 <= size,
{
    let mut pos: usize = 0;
    let mut found: u64 = 0;
    let mut fits: bool = true;
    while fits && pos < stream.len() && found < size
        invariant
            pos <= stream@.len(),
            found <= size,
            walk_end(stream@, 0, size as nat) == walk_end(stream@, pos as int, (size - found) as nat),
            walk_output(stream@, 0, size as nat).len() == found + walk_output(
                stream@,
                pos as int,
                (size - found) as nat,
            ).len(),
            !fits ==> !packet_fits(stream@, pos as int, (size - found) as nat),
        decreases size - found + (if fits { 1int } else { 0int }),
    {
        let (input, output) = packet_sizes(stream, pos);
        if input <= stream.len() - pos && output as u64 <= size - found {
            pos += input;
            found += output as u64;
        } else {
            fits = false;
        }
    }
    (pos, found)
}

/// The second pass over run-length encoded image data: expands the packets
/// that the first pass walked into a buffer of exactly `size` bytes. The
/// buffer is allocated at that size where the machine can address it; where
/// it cannot, the image does not fit in memory.
pub fn expand_packets(stream: &[u8], size: u64) -> (image_data: Vec<u8>)
    requires
        walk_output(stream@, 0, size as nat).len() == size,
    ensures
        image_data@ == walk_output(stream@, 0, size as nat),
{
    let mut image_data: Vec<u8> = if size <= usize::MAX as u64 {
        Vec::with_capacity(size as usize)
    } else {
        Vec::new()
    };
    let mut pos: usize = 0;
    while (image_data.len() as u64) < size
        invariant
            pos <= stream@.len(),
            image_data@.len() <= size,
            walk_output(stream@, 0, size as nat) == image_data@ + walk_output(
                stream@,
                pos as int,
                (size - image_data@.len()) as nat,
            ),
            walk_output(stream@, 0, size as nat).len() == size,
        decreases size - image_data@.len(),
    {
        // Something is still missing, and the packets hold all of it: a
        // packet fits here.
        let ghost before = image_data@;
        let (input, output) = packet_sizes(stream, pos);
        let head: u8 = stream[pos];
        if head & 0x80 != 0 {
            // A run packet: the one pixel that follows, over and over.
            let mut written: usize = 0;
            while written < output
                invariant
                    written <= output,
                    written % 3 == 0,
                    output % 3 == 0,
                    pos + 4 <= stream.len(),
                    image_data@.len() == before.len() + written,
                    image_data@ == before + Seq::new(
                        written as nat,
                        |i: int| stream@[pos + 1 + i % 3],
                    ),
                decreases output - written,
            {
                image_data.push(stream[pos + 1]);
                image_data.push(stream[pos + 2]);
                image_data.push(stream[pos + 3]);
                written += 3;
            }
        } else {
            // A raw packet: the pixels that follow, as they are.
            let mut written: usize = 0;
            while written < output
                invariant
                    written <= output,
                    pos + 1 + output <= stream.len(),
                    image_data@.len() == before.len() + written,
                    image_data@ == before + stream@.subrange(pos + 1, pos + 1 + written),
                decreases output - written,
            {
                image_data.push(stream[pos + 1 + written]);
                written += 1;
            }
        }
        // Jump to the next packet.
        pos += input;
    }
    image_data
}

} // verus!
