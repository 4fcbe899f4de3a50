//! Walking over the pixels of an image, one by one or row by row, in the
//! order in which the file stores them.

use vstd::prelude::*;

verus! {

/// The pixel with index `i` of image data: three bytes at a stride of three.
pub open spec fn pixel_at(data: Seq<u8>, i: int) -> Seq<u8> {
    data.subrange(3 * i, 3 * i + 3)
}

/// The pixels of image data, in storage order.
pub open spec fn pixels_of(data: Seq<u8>) -> Seq<Seq<u8>> {
    Seq::new(data.len() / 3, |i: int| pixel_at(data, i))
}

/// The row with index `row` of image data that is `width` pixels wide.
pub open spec fn row_at(data: Seq<u8>, width: nat, row: int) -> Seq<Seq<u8>> {
    Seq::new(width, |col: int| pixel_at(data, row * width + col))
}

/// The rows of image data that is `width` pixels wide and `height` pixels
/// high, in storage order.
pub open spec fn rows_of(data: Seq<u8>, width: nat, height: nat) -> Seq<Seq<Seq<u8>>> {
    Seq::new(height, |row: int| row_at(data, width, row))
}

/// The rows of an image, one after the other, are its pixels: walking an
/// image row by row meets the same pixels in the same order as walking it
/// pixel by pixel.
pub proof fn lemma_rows_are_pixels(data: Seq<u8>, width: nat, height: nat)
    requires
        data.len() == 3 * (width * height),
    ensures
        rows_of(data, width, height).flatten() == pixels_of(data),
        rows_of(data, width, height).len() == height,
        pixels_of(data).len() == width * height,
{
    lemma_rows_flatten(data, width, height);
}

/// The first `height` rows, one after the other, are the first `width` times
/// `height` pixels.
proof fn lemma_rows_flatten(data: Seq<u8>, width: nat, height: nat)
    ensures
        rows_of(data, width, height).flatten() == Seq::new(
            width * height,
            |i: int| pixel_at(data, i),
        ),
    decreases height,
{
    if height > 0 {
        // The rows are the rows above the last one, and the last one.
        let above = rows_of(data, width, (height - 1) as nat);
        let last = row_at(data, width, height - 1);
        lemma_rows_flatten(data, width, (height - 1) as nat);
        assert(rows_of(data, width, height) =~= above.push(last));
        above.lemma_flatten_push(last);
        assert(width * height == width * (height - 1) + width && width * (height - 1) == (height
            - 1) * width) by (nonlinear_arith);
    }
}

/// Copies the pixel with index `i` out of image data.
fn read_pixel(data: &[u8], i: usize) -> (pixel: [u8; 3])
    requires
        3 * i + 3 <= data.len(),
    ensures
        pixel@ == pixel_at(data@, i as int),
{
    [data[3 * i], data[3 * i + 1], data[3 * i + 2]]
}

/// A `PixelIter` hands out the pixels of an image one by one, in storage
/// order: left to right within a row, and the rows as the file stores them.
pub struct PixelIter<'a> {
    inner: &'a [u8],
    current: [u8; 3],
    index: usize,
}

impl<'a> View for PixelIter<'a> {
    type V = Seq<Seq<u8>>;

    /// The pixels that are still to come.
    closed spec fn view(&self) -> Seq<Seq<u8>> {
        pixels_of(self.inner@).skip(self.index as int / 3)
    }
}

impl<'a> PixelIter<'a> {
    #[verifier::type_invariant]
    closed spec fn well_formed(&self) -> bool {
        &&& self.inner@.len() % 3 == 0
        &&& self.index % 3 == 0
        &&& self.index <= self.inner@.len()
    }

    /// Starts a walk over the pixels of image data.
    pub(crate) fn new(data: &'a [u8]) -> (pixels: PixelIter<'a>)
        requires
            data@.len() % 3 == 0,
        ensures
            pixels@ == pixels_of(data@),
    {
        let pixels = PixelIter { inner: data, current: [0;3], index: 0 };
        pixels
    }

    /// Hands out the next pixel, or `None` when all have been handed out.
    pub fn next(&mut self) -> (pixel: Option<[u8; 3]>)
        ensures
            match pixel {
                Some(bytes) => old(self)@.len() > 0 && bytes@ == old(self)@[0] && final(self)@
                    == old(self)@.skip(1),
                None => old(self)@.len() == 0 && final(self)@ == old(self)@,
            },
    {
        proof {
            use_type_invariant(&*self);
        }
        if self.index < self.inner.len() {
            self.current = read_pixel(self.inner, self.index / 3);
            self.index += 3;
            return Some(self.current);
        }
        None
    }
}

/// A `Scanline` is one row of an image: its pixels from left to right.
#[derive(Clone, Eq, Debug)]
pub struct Scanline(Vec<[u8; 3]>);

impl View for Scanline {
    type V = Seq<Seq<u8>>;

    /// The pixels of the row.
    closed spec fn view(&self) -> Seq<Seq<u8>> {
        Seq::new(self.0@.len(), |i: int| self.0@[i]@)
    }
}

impl Scanline {
    /// The number of pixels in the row.
    pub fn len(&self) -> (len: usize)
        ensures
            len == self@.len(),
    {
        self.0.len()
    }

    /// The pixel in column `col` of the row.
    pub fn pixel(&self, col: usize) -> (pixel: [u8; 3])
        requires
            col < self@.len(),
        ensures
            pixel@ == self@[col as int],
    {
        self.0[col]
    }
}

impl PartialEq for Scanline {
    /// Two rows are equal when they hold the same pixels.
    fn eq(&self, other: &Scanline) -> (equal: bool) {
        if self.0.len() != other.0.len() {
            assert(self@.len() != other@.len());
            return false;
        }
        let mut col: usize = 0;
        while col < self.0.len()
            invariant
                col <= self.0@.len(),
                self.0@.len() == other.0@.len(),
                forall|i: int| 0 <= i < col ==> self@[i] == other@[i],
            decreases self.0@.len() - col,
        {
            let own = &self.0[col];
            let pixel = &other.0[col];
            if own[0] != pixel[0] || own[1] != pixel[1] || own[2] != pixel[2] {
                assert(self@[col as int] != other@[col as int]);
                return false;
            }
            assert(own@ =~= pixel@);
            col += 1;
        }
        assert(self@ =~= other@);
        true
    }
}

impl vstd::std_specs::cmp::PartialEqSpecImpl for Scanline {
    open spec fn obeys_eq_spec() -> bool {
        true
    }

    open spec fn eq_spec(&self, other: &Scanline) -> bool {
        self@ == other@
    }
}

impl PartialEq<[u8]> for Scanline {
    /// A row equals a run of bytes when the bytes spell out its pixels.
    fn eq(&self, bytes: &[u8]) -> (equal: bool) {
        if bytes.len() / 3 != self.0.len() || bytes.len() % 3 != 0 {
            assert(self@ == pixels_of(bytes@) ==> self@.len() == bytes@.len() / 3);
            return false;
        }
        let mut col: usize = 0;
        while col < self.0.len()
            invariant
                col <= self.0@.len(),
                bytes@.len() == 3 * self.0@.len(),
                forall|i: int| 0 <= i < col ==> self@[i] == pixels_of(bytes@)[i],
            decreases self.0@.len() - col,
        {
            let pixel = read_pixel(bytes, col);
            let own = &self.0[col];
            if own[0] != pixel[0] || own[1] != pixel[1] || own[2] != pixel[2] {
                assert(self@[col as int] != pixels_of(bytes@)[col as int]);
                return false;
            }
            col += 1;
        }
        assert(self@ =~= pixels_of(bytes@));
        true
    }
}

impl vstd::std_specs::cmp::PartialEqSpecImpl<[u8]> for Scanline {
    open spec fn obeys_eq_spec() -> bool {
        true
    }

    open spec fn eq_spec(&self, bytes: &[u8]) -> bool {
        bytes@.len() == 3 * self@.len() && self@ == pixels_of(bytes@)
    }
}

/// A `ScanlineIter` hands out the rows of an image one by one, in storage
/// order.
pub struct ScanlineIter<'a> {
    inner: &'a [u8],
    height: usize,
    width: usize,
    row: usize,
}

impl<'a> View for ScanlineIter<'a> {
    type V = Seq<Seq<Seq<u8>>>;

    /// The rows that are still to come.
    closed spec fn view(&self) -> Seq<Seq<Seq<u8>>> {
        rows_of(self.inner@, self.width as nat, self.height as nat).skip(self.row as int)
    }
}

impl<'a> ScanlineIter<'a> {
    #[verifier::type_invariant]
    closed spec fn well_formed(&self) -> bool {
        &&& self.inner@.len() == 3 * (self.width * self.height)
        &&& self.row <= self.height
    }

    /// Starts a walk over the rows of image data that is `width` pixels wide
    /// and `height` pixels high.
    pub(crate) fn new(data: &'a [u8], width: usize, height: usize) -> (rows: ScanlineIter<'a>)
        requires
            data@.len() == 3 * (width * height),
        ensures
            rows@ == rows_of(data@, width as nat, height as nat),
    {
        let rows = ScanlineIter { inner: data, height, width, row: 0 };
        rows
    }

    /// Hands out the next row, or `None` when all have been handed out.
    pub fn next(&mut self) -> (scanline: Option<Scanline>)
        ensures
            match scanline {
                Some(row) => old(self)@.len() > 0 && row@ == old(self)@[0] && final(self)@ == old(
                    self,
                )@.skip(1),
                None => old(self)@.len() == 0 && final(self)@ == old(self)@,
            },
    {
        proof {
            use_type_invariant(&*self);
        }
        if self.row < self.height {
            let width: usize = self.width;
            let row: usize = self.row;
            assert(self.inner.len() == 3 * (width * self.height));
            assert(0 <= row * width && row * width + width <= width * self.height)
                by (nonlinear_arith)
                requires
                    row < self.height,
            ;
            let first: usize = row * width;
            let mut scanline: Vec<[u8; 3]> = Vec::with_capacity(width);
            let mut col: usize = 0;
            while col < width
                invariant
                    col <= width,
                    first + width <= width * self.height,
                    self.inner.len() == 3 * (width * self.height),
                    scanline@.len() == col,
                    forall|i: int|
                        0 <= i < col ==> (#[trigger] scanline@[i])@ == pixel_at(
                            self.inner@,
                            first + i,
                        ),
                decreases width - col,
            {
                let pixel = read_pixel(self.inner, first + col);
                scanline.push(pixel);
                col += 1;
            }
            self.row += 1;
            let scanline = Scanline(scanline);
            return Some(scanline);
        }
        None
    }
}

} // verus!
