//! Writing a decoded image back out as the bytes of a file.
//!
//! A `TgaReader` is read from as a file would be: each read fills as much of
//! the caller's buffer as it can with the bytes that come next. What comes
//! out is the image in its canonical form: the header, the identification,
//! the colour map, the pixels uncompressed, the extended identification and
//! the footer.

use crate::format::{copy_of, footer_bytes};
use crate::image::TgaImage;
use std::rc::Rc;
use vstd::prelude::*;

verus! {

/// The bytes of the buffers from the one with index `from` on, in order.
pub open spec fn bytes_from(buffers: Seq<Seq<u8>>, from: int) -> Seq<u8>
    decreases buffers.len() - from,
{
    if 0 <= from < buffers.len() {
        buffers[from] + bytes_from(buffers, from + 1)
    } else {
        Seq::empty()
    }
}

/// A `TgaReader` hands out the bytes of an image's file, piece by piece.
pub struct TgaReader {
    /// The six parts of the file, in order. All but the first and the last
    /// are shared with the image.
    buffer: [Rc<Vec<u8>>; 6],
    /// The part that the next byte comes from; 6 when all has been read.
    index: usize,
    /// The number of bytes already read from that part.
    offset: usize,
}

impl View for TgaReader {
    type V = Seq<u8>;

    /// The bytes that are still to be read.
    closed spec fn view(&self) -> Seq<u8> {
        bytes_from(self.parts(), self.index as int).skip(self.offset as int)
    }
}

impl TgaReader {
    closed spec fn parts(&self) -> Seq<Seq<u8>> {
        Seq::new(6, |i: int| self.buffer@[i]@)
    }

    #[verifier::type_invariant]
    closed spec fn well_formed(&self) -> bool {
        &&& self.index <= 6
        &&& self.index < 6 ==> self.offset <= self.buffer@[self.index as int]@.len()
        &&& self.index == 6 ==> self.offset == 0
    }

    /// Starts to read the file of a decoded image, at its first byte.
    pub fn new(image: &TgaImage) -> (reader: TgaReader)
        ensures
            reader@ == image@.encode(),
    {
        let header = Rc::new(image.header().to_bytes());
        let (identification, colour_map, image_data, extended) = image.raw_tga_image().buffers();
        let footer = Rc::new(copy_of(footer_bytes().as_slice(), 0, 26));
        let reader = TgaReader {
            buffer: [header, identification, colour_map, image_data, extended, footer],
            index: 0,
            offset: 0,
        };
        proof {
            reveal_with_fuel(bytes_from, 7);
        }
        reader
    }

    /// Fills as much of `buf` as it can with the bytes that come next, and
    /// returns how many those were: all of `buf` unless fewer bytes are left.
    /// The rest of `buf` is not changed. Once everything has been read, each
    /// further call returns zero.
    pub fn read(&mut self, buf: &mut [u8]) -> (count: usize)
        ensures
            count == if old(self)@.len() <= old(buf)@.len() {
                old(self)@.len()
            } else {
                old(buf)@.len()
            },
            final(buf)@ == old(self)@.take(count as int) + old(buf)@.skip(count as int),
            final(self)@ == old(self)@.skip(count as int),
    {
        proof {
            use_type_invariant(&*self);
        }
        let mut bytes_written: usize = 0;
        while self.index < 6 && bytes_written < buf.len()
            invariant
                self.well_formed(),
                self.parts() == old(self).parts(),
                bytes_written <= buf.len(),
                buf@.len() == old(buf)@.len(),
                old(self)@ == buf@.take(bytes_written as int) + self@,
                buf@.skip(bytes_written as int) == old(buf)@.skip(bytes_written as int),
            decreases 6 - self.index, buf.len() - bytes_written,
        {
            let part_len: usize = self.buffer[self.index].len();
            let left: usize = part_len - self.offset;
            let room: usize = buf.len() - bytes_written;
            let bytes_to_be_written: usize = if left <= room {
                left
            } else {
                room
            };
            let ghost before = buf@;
            let ghost part = self.buffer@[self.index as int]@;
            let start: usize = bytes_written;
            let from: usize = self.offset;
            let mut i: usize = 0;
            while i < bytes_to_be_written
                invariant
                    self.index < 6,
                    i <= bytes_to_be_written,
                    from == self.offset,
                    part == self.buffer@[self.index as int]@,
                    part.len() == part_len,
                    from + bytes_to_be_written <= part_len,
                    start + bytes_to_be_written <= buf.len(),
                    buf@.len() == before.len(),
                    forall|k: int| 0 <= k < start ==> buf@[k] == before[k],
                    forall|k: int| start + i <= k < buf@.len() ==> buf@[k] == before[k],
                    forall|k: int|
                        start <= k < start + i ==> #[trigger] buf@[k] == part[from + k - start],
                decreases bytes_to_be_written - i,
            {
                buf[start + i] = self.buffer[self.index][from + i];
                i += 1;
            }
            bytes_written += bytes_to_be_written;
            self.offset += bytes_to_be_written;
            if self.offset >= part_len {
                self.offset = 0;
                self.index += 1;
            }
            assert(buf@.skip(bytes_written as int) =~= before.skip(start as int).skip(
                bytes_to_be_written as int,
            ));
        }
        bytes_written
    }
}

} // verus!
