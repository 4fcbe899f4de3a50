//! Reading and writing Truevision TARGA images.
//!
//! The library decodes 24 bit unmapped RGB images, stored either uncompressed
//! or run-length encoded, and writes a decoded image back in its canonical
//! uncompressed form. Its functions are verified against a mathematical model
//! of the file format over sequences of bytes. Two things are taken on trust
//! and say so where they stand: that `std::io::Error` is a type, and that a
//! clone of an `Rc` holds what the `Rc` holds.

pub mod decoder;
pub mod error;
pub mod format;
pub mod header;
pub mod image;
pub mod laws;
pub mod pixels;
pub mod reader;
pub mod rle;

pub use decoder::DecodeStage;
pub use decoder::TgaDecoder;
pub use error::TgaError;
pub use header::TgaHeader;
pub use header::TGA_HEADER_LENGTH;
pub use image::RawTgaImage;
pub use image::RunLengthEncodedRgb;
pub use image::TgaImage;
pub use image::UncompressedRgb;
pub use pixels::PixelIter;
pub use pixels::Scanline;
pub use pixels::ScanlineIter;
pub use reader::TgaReader;
