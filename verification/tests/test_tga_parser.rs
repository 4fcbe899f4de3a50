use tga::{PixelIter, TgaImage, TgaReader};

/// The size of the pieces in which a test file is delivered when a test
/// parses it as from a file.
const CHUNK_SIZE: usize = 4096;

const FOOTER: [u8; 26] = [
    0x00, 0x00, 0x00, 0x00, 0x00, 0x00, 0x00, 0x00,
    0x54, 0x52, 0x55, 0x45, 0x56, 0x49, 0x53, 0x49,
    0x4F, 0x4E, 0x2D, 0x58, 0x46, 0x49, 0x4C, 0x45,
    0x2E, 0x00,
];

const LENA_TGA_WIDTH: usize = 512;
const LENA_TGA_HEIGHT: usize = 512;
const LENA_TGA_BITS_PER_PIXEL: usize = 24;
const LENA_TGA_COLOR_MAP_TYPE: usize = 0;
const LENA_TGA_DATA_TYPE_CODE: usize = 2;

const COLOR_TGA_WIDTH: usize = 640;
const COLOR_TGA_HEIGHT: usize = 480;
const COLOR_TGA_BITS_PER_PIXEL: usize = 24;
const COLOR_TGA_COLOR_MAP_TYPE: usize = 0;
const COLOR_TGA_DATA_TYPE_CODE: usize = 2;

const ONE_TGA_WIDTH: usize = 1;
const ONE_TGA_HEIGHT: usize = 1;
const ONE_TGA_BITS_PER_PIXEL: usize = 24;
const ONE_TGA_COLOR_MAP_TYPE: usize = 0;
const ONE_TGA_DATA_TYPE_CODE: usize = 2;

const LENA_RLE_TGA_WIDTH: usize = 512;
const LENA_RLE_TGA_HEIGHT: usize = 512;
const LENA_RLE_TGA_BITS_PER_PIXEL: usize = 24;
const LENA_RLE_TGA_COLOR_MAP_TYPE: usize = 0;
const LENA_RLE_TGA_DATA_TYPE_CODE: usize = 10;

const COLOR_RLE_TGA_WIDTH: usize = 640;
const COLOR_RLE_TGA_HEIGHT: usize = 480;
const COLOR_RLE_TGA_BITS_PER_PIXEL: usize = 24;
const COLOR_RLE_TGA_COLOR_MAP_TYPE: usize = 0;
const COLOR_RLE_TGA_DATA_TYPE_CODE: usize = 10;

const ONE_RLE_TGA_WIDTH: usize = 1;
const ONE_RLE_TGA_HEIGHT: usize = 1;
const ONE_RLE_TGA_BITS_PER_PIXEL: usize = 24;
const ONE_RLE_TGA_COLOR_MAP_TYPE: usize = 0;
const ONE_RLE_TGA_DATA_TYPE_CODE: usize = 10;

#[derive(Clone, Debug)]
struct TestCase {
    width: usize,
    height: usize,
    bits_per_pixel: usize,
    color_map_type: usize,
    data_type_code: usize,
    image: Vec<u8>,
}

impl TestCase {
    fn as_slice(&self) -> &[u8] {
        self.image.as_slice()
    }

    /// The file as a source would deliver it: in pieces.
    fn as_chunks(&self) -> Vec<Vec<u8>> {
        self.image.chunks(CHUNK_SIZE).map(|chunk| chunk.to_vec()).collect()
    }
}

fn header(data_type_code: u8, width: usize, height: usize) -> Vec<u8> {
    vec![
        0, 0, data_type_code,
        0, 0, 0, 0, 0,
        0, 0, 0, 0,
        (width % 256) as u8, (width / 256) as u8,
        (height % 256) as u8, (height / 256) as u8,
        24, 0,
    ]
}

/// The pixels of a photograph-like picture: smooth ramps, flat patches and
/// noise, so that its run-length encoding holds packets of every kind.
fn picture_pixels(width: usize, height: usize) -> Vec<u8> {
    let mut pixels = Vec::with_capacity(3 * width * height);
    let mut noise: u32 = 0x2545_F491;
    for row in 0..height {
        for col in 0..width {
            noise = noise.wrapping_mul(1_664_525).wrapping_add(1_013_904_223);
            if (row / 32 + col / 64) % 3 == 0 {
                pixels.push((row / 32) as u8);
                pixels.push((col / 64) as u8);
                pixels.push(0x40);
            } else if (row / 32 + col / 64) % 3 == 1 {
                pixels.push((col % 256) as u8);
                pixels.push((row % 256) as u8);
                pixels.push(((row + col) % 256) as u8);
            } else {
                pixels.push((noise >> 24) as u8);
                pixels.push((noise >> 16) as u8);
                pixels.push((noise >> 8) as u8);
            }
        }
    }
    pixels
}

fn one_color_pixels(width: usize, height: usize) -> Vec<u8> {
    let mut pixels = Vec::with_capacity(3 * width * height);
    for _ in 0..(width * height) {
        pixels.push(0x12);
        pixels.push(0xAB);
        pixels.push(0xEF);
    }
    pixels
}

/// Run-length encodes pixels: a run packet for each stretch of equal pixels,
/// raw packets for what lies between them.
fn run_length_encode(pixels: &[u8]) -> Vec<u8> {
    let count = pixels.len() / 3;
    let pixel = |i: usize| &pixels[3 * i..3 * i + 3];
    let mut packets = Vec::new();
    let mut i = 0;
    while i < count {
        let mut run = 1;
        while i + run < count && run < 128 && pixel(i + run) == pixel(i) {
            run += 1;
        }
        if run > 1 {
            packets.push(0x80 | (run - 1) as u8);
            packets.extend_from_slice(pixel(i));
            i += run;
        } else {
            let mut raw = 1;
            while i + raw < count
                && raw < 128
                && !(i + raw + 1 < count && pixel(i + raw) == pixel(i + raw + 1))
            {
                raw += 1;
            }
            packets.push((raw - 1) as u8);
            packets.extend_from_slice(&pixels[3 * i..3 * (i + raw)]);
            i += raw;
        }
    }
    packets
}

fn uncompressed_file(width: usize, height: usize, pixels: &[u8]) -> Vec<u8> {
    let mut file = header(2, width, height);
    file.extend_from_slice(pixels);
    file.extend_from_slice(&FOOTER);
    file
}

fn run_length_file(width: usize, height: usize, pixels: &[u8]) -> Vec<u8> {
    let mut file = header(10, width, height);
    file.extend_from_slice(&run_length_encode(pixels));
    file.extend_from_slice(&FOOTER);
    file
}

fn lena_tga() -> Vec<u8> {
    uncompressed_file(512, 512, &picture_pixels(512, 512))
}

fn color_tga() -> Vec<u8> {
    uncompressed_file(640, 480, &one_color_pixels(640, 480))
}

fn one_tga() -> Vec<u8> {
    uncompressed_file(1, 1, &[0x01, 0x02, 0x03])
}

fn lena_rle_tga() -> Vec<u8> {
    run_length_file(512, 512, &picture_pixels(512, 512))
}

fn color_rle_tga() -> Vec<u8> {
    run_length_file(640, 480, &one_color_pixels(640, 480))
}

fn one_rle_tga() -> Vec<u8> {
    run_length_file(1, 1, &[0x01, 0x02, 0x03])
}

fn test_cases() -> Vec<TestCase> {
    vec![
        TestCase {
            width: LENA_TGA_WIDTH,
            height: LENA_TGA_HEIGHT,
            bits_per_pixel: LENA_TGA_BITS_PER_PIXEL,
            color_map_type: LENA_TGA_COLOR_MAP_TYPE,
            data_type_code: LENA_TGA_DATA_TYPE_CODE,
            image: lena_tga(),
        },
        TestCase {
            width: COLOR_TGA_WIDTH,
            height: COLOR_TGA_HEIGHT,
            bits_per_pixel: COLOR_TGA_BITS_PER_PIXEL,
            color_map_type: COLOR_TGA_COLOR_MAP_TYPE,
            data_type_code: COLOR_TGA_DATA_TYPE_CODE,
            image: color_tga(),
        },
        TestCase {
            width: ONE_TGA_WIDTH,
            height: ONE_TGA_HEIGHT,
            bits_per_pixel: ONE_TGA_BITS_PER_PIXEL,
            color_map_type: ONE_TGA_COLOR_MAP_TYPE,
            data_type_code: ONE_TGA_DATA_TYPE_CODE,
            image: one_tga(),
        },
    ]
}

fn test_cases_rle() -> Vec<TestCase> {
    vec![
        TestCase {
            width: LENA_RLE_TGA_WIDTH,
            height: LENA_RLE_TGA_HEIGHT,
            bits_per_pixel: LENA_RLE_TGA_BITS_PER_PIXEL,
            color_map_type: LENA_RLE_TGA_COLOR_MAP_TYPE,
            data_type_code: LENA_RLE_TGA_DATA_TYPE_CODE,
            image: lena_rle_tga(),
        },
        TestCase {
            width: COLOR_RLE_TGA_WIDTH,
            height: COLOR_RLE_TGA_HEIGHT,
            bits_per_pixel: COLOR_RLE_TGA_BITS_PER_PIXEL,
            color_map_type: COLOR_RLE_TGA_COLOR_MAP_TYPE,
            data_type_code: COLOR_RLE_TGA_DATA_TYPE_CODE,
            image: color_rle_tga(),
        },
        TestCase {
            width: ONE_RLE_TGA_WIDTH,
            height: ONE_RLE_TGA_HEIGHT,
            bits_per_pixel: ONE_RLE_TGA_BITS_PER_PIXEL,
            color_map_type: ONE_RLE_TGA_COLOR_MAP_TYPE,
            data_type_code: ONE_RLE_TGA_DATA_TYPE_CODE,
            image: one_rle_tga(),
        },
    ]
}

/// Tells whether two walks hand out the same pixels for as long as both
/// hand out any.
fn zipped_pixels_are_equal(mut left: PixelIter, mut right: PixelIter) -> bool {
    loop {
        match (left.next(), right.next()) {
            (Some(pixel_left), Some(pixel_right)) => {
                if pixel_left != pixel_right {
                    return false;
                }
            }
            _ => return true,
        }
    }
}

fn collect_pixels(mut pixels: PixelIter) -> Vec<[u8; 3]> {
    let mut collected = Vec::new();
    while let Some(pixel) = pixels.next() {
        collected.push(pixel);
    }
    collected
}

/// The TGA image parser should be able to take a valid existing TGA
/// file, and then parse it into an image.
#[test]
fn test_parse_from_file_succeeds() {
    for test_case in test_cases().iter() {
        let image = TgaImage::parse_from_file(&test_case.as_chunks());

        assert!(image.is_ok());
    }
}

/// The TGA parser should be able to take a buffer in memory
/// containing valid TGA data, and parse it into an image.
#[test]
fn test_parse_from_buffer_succeeds() {
    for test_case in test_cases().iter() {
        let image = TgaImage::parse_from_buffer(test_case.as_slice());

        assert!(image.is_ok());
    }
}

/// The TGA image parser should correctly parse the TGA header data.
/// Given a TGA image with a known height, width, pixel depth, etc.,
/// the TGA image parser should recognize the exact same parameters from
/// the file.
#[test]
fn test_parsed_tga_image_matches_expected_header_data() {
    for test_case in test_cases().iter() {
        let image = TgaImage::parse_from_buffer(test_case.as_slice()).unwrap();

        assert_eq!(image.width(), test_case.width);
        assert_eq!(image.height(), test_case.height);
        assert_eq!(image.bits_per_pixel(), test_case.bits_per_pixel);
        assert_eq!(image.color_map_type(), test_case.color_map_type);
        assert_eq!(image.data_type_code(), test_case.data_type_code);
    }
}

/// The image data field of a TGA image should contain every pixel
/// from the image file, and no more.
#[test]
fn test_tga_image_should_have_correct_width_and_height() {
    for test_case in test_cases().iter() {
        let image = TgaImage::parse_from_file(&test_case.as_chunks()).unwrap();

        assert_eq!(image.image_data_length(), image.width() * image.height());
    }
}

/// The TGA image parser should get the same contents from a TGA image regardless
/// of whether the image came directly from a file, or if it came from a buffer
/// in memory.
#[test]
fn test_parse_from_buffer_and_parse_from_file_should_be_equal() {
    for test_case in test_cases().iter() {
        let image_from_file = TgaImage::parse_from_file(&test_case.as_chunks()).unwrap();
        let image_from_buffer = TgaImage::parse_from_buffer(test_case.as_slice()).unwrap();

        assert_eq!(image_from_file, image_from_buffer);
    }
}

/// The same, seen through the pixels that the two images hand out.
#[test]
fn test_tga_image_pixel_iterator() {
    for test_case in test_cases().iter() {
        let image_from_file = TgaImage::parse_from_file(&test_case.as_chunks()).unwrap();
        let image_from_buffer = TgaImage::parse_from_buffer(test_case.as_slice()).unwrap();

        let pixels_ff = image_from_file.pixels();
        let pixels_fb = image_from_buffer.pixels();

        assert!(zipped_pixels_are_equal(pixels_ff, pixels_fb));
    }
}

#[test]
fn test_tga_image_scanline_iterator() {
    let image = TgaImage::parse_from_file(&[lena_tga()]).unwrap();

    let mut scanlines = image.scanlines();
    let slice = image.image_data();
    let mut scanlines_from_pixels = slice.chunks(3 * image.width());

    let mut rows = 0;
    while let (Some(scanline), Some(scanline_from_pixels)) =
        (scanlines.next(), scanlines_from_pixels.next())
    {
        assert!(scanline == *scanline_from_pixels);
        rows += 1;
    }
    assert_eq!(rows, 512);
}

/// The TGA image pixel iterator should return every pixel in the image.
#[test]
fn test_tga_image_iterator_should_return_every_pixel_in_image() {
    for test_case in test_cases().iter() {
        let image = TgaImage::parse_from_buffer(test_case.as_slice()).unwrap();
        let pixels = collect_pixels(image.pixels());

        assert_eq!(pixels.len(), image.image_data_length());
    }
}

/// In a TGA image where every pixel has one color, each pixel in the image data
/// should have exactly the same value.
#[test]
fn test_tga_image_should_with_one_color_should_return_the_same_color_with_every_pixel() {
    let image = TgaImage::parse_from_file(&[color_tga()]).unwrap();

    let mut pixels = image.pixels();
    let first_pixel = pixels.next().unwrap();

    assert_eq!(first_pixel, [0x12, 0xAB, 0xEF]);
    let mut others = 0;
    while let Some(pixel) = pixels.next() {
        assert_eq!(pixel, first_pixel);
        others += 1;
    }
    assert_eq!(others, 640 * 480 - 1);
}

/// The TGA image parser should be able to take a valid existing run-length
/// encoded TGA file, and then parse it into an image.
#[test]
fn test_tga_parser_test_parse_from_file_succeeds() {
    for test_case in test_cases_rle().iter() {
        let image = TgaImage::parse_from_file(&test_case.as_chunks());

        assert!(image.is_ok());
    }
}

/// The TGA parser should be able to take a buffer in memory
/// containing valid run-length encoded TGA data, and parse it into an image.
#[test]
fn test_parse_from_buffer() {
    for test_case in test_cases_rle().iter() {
        let image = TgaImage::parse_from_buffer(test_case.as_slice());

        assert!(image.is_ok());
    }
}

/// The TGA image parser should correctly parse the TGA header data of a
/// run-length encoded image.
#[test]
fn test_tga_parser_test_parsed_tga_image_matches_expected_header_data() {
    for test_case in test_cases_rle().iter() {
        let image = TgaImage::parse_from_buffer(test_case.as_slice()).unwrap();

        assert_eq!(image.width(), test_case.width);
        assert_eq!(image.height(), test_case.height);
        assert_eq!(image.bits_per_pixel(), test_case.bits_per_pixel);
        assert_eq!(image.color_map_type(), test_case.color_map_type);
        assert_eq!(image.data_type_code(), test_case.data_type_code);
    }
}

/// The image data field of a run-length encoded TGA image should contain
/// every pixel from the image file, and no more.
#[test]
fn test_tga_parser_test_tga_image_should_have_correct_width_and_height() {
    for test_case in test_cases_rle().iter() {
        let image = TgaImage::parse_from_buffer(test_case.as_slice()).unwrap();

        assert_eq!(image.image_data_length(), image.width() * image.height());
    }
}

/// The TGA image parser should get the same contents from a TGA image regardless
/// of whether the image came directly from a file, or if it came from a buffer
/// in memory.
#[test]
fn test_parse_from_buffer_and_parse_from_file_should_have_the_same_contents() {
    for test_case in test_cases_rle().iter() {
        let image_from_file = TgaImage::parse_from_file(&test_case.as_chunks()).unwrap();
        let image_from_buffer = TgaImage::parse_from_buffer(test_case.as_slice()).unwrap();

        assert_eq!(image_from_file, image_from_buffer);
    }
}

/// The same, seen through the pixels that the two images hand out.
#[test]
fn test_tga_parser_test_tga_image_pixel_iterator() {
    for test_case in test_cases().iter().chain(test_cases_rle().iter()) {
        let image_from_file = TgaImage::parse_from_file(&test_case.as_chunks()).unwrap();
        let image_from_buffer = TgaImage::parse_from_buffer(test_case.as_slice()).unwrap();

        let pixels_ff = image_from_file.pixels();
        let pixels_fb = image_from_buffer.pixels();

        assert!(zipped_pixels_are_equal(pixels_ff, pixels_fb));
    }
}

/// The TGA image pixel iterator should return every pixel in the image.
#[test]
fn test_tga_parser_test_tga_image_iterator_should_return_every_pixel_in_image() {
    for test_case in test_cases_rle().iter() {
        let image = TgaImage::parse_from_file(&test_case.as_chunks()).unwrap();
        let pixels = collect_pixels(image.pixels());

        assert_eq!(pixels.len(), image.image_data_length());
    }
}

/// In a run-length encoded TGA image where every pixel has one color, each
/// pixel in the image data should have exactly the same value.
#[test]
fn test_tga_parser_test_tga_image_should_with_one_color_should_return_the_same_color_with_every_pixel(
) {
    let image = TgaImage::parse_from_file(&[color_rle_tga()]).unwrap();

    let mut pixels = image.pixels();
    let first_pixel = pixels.next().unwrap();

    assert_eq!(first_pixel, [0x12, 0xAB, 0xEF]);
    let mut others = 0;
    while let Some(pixel) = pixels.next() {
        assert_eq!(pixel, first_pixel);
        others += 1;
    }
    assert_eq!(others, 640 * 480 - 1);
}

/// A decoded RLE encoded TGA image should be exactly the same as an uncompressed
/// RGB image.
#[test]
fn test_a_decoded_rle_rgb_tga_image_should_be_the_same_as_an_unmapped_one() {
    let image_rle = TgaImage::parse_from_file(&[lena_rle_tga()]).unwrap();
    let image = TgaImage::parse_from_file(&[lena_tga()]).unwrap();

    assert_eq!(image_rle.image_data(), image.image_data());
    assert_eq!(image.image_data(), picture_pixels(512, 512).as_slice());
}

#[test]
fn test_tga_reader_output_should_match_raw_unmapped_rgb_file() {
    for test_case in test_cases().iter() {
        let image = TgaImage::parse_from_buffer(test_case.as_slice()).unwrap();
        let mut reader = TgaReader::new(&image);
        let mut buf = vec![0; test_case.as_slice().len()];
        let count = reader.read(&mut buf);

        assert_eq!(count, test_case.as_slice().len());
        assert_eq!(buf.as_slice(), test_case.as_slice());
    }
}
