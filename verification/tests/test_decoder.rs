use std::io;
use tga::{DecodeStage, TgaDecoder, TgaError, TgaImage};

const FOOTER: [u8; 26] = [
    0x00, 0x00, 0x00, 0x00, 0x00, 0x00, 0x00, 0x00,
    0x54, 0x52, 0x55, 0x45, 0x56, 0x49, 0x53, 0x49,
    0x4F, 0x4E, 0x2D, 0x58, 0x46, 0x49, 0x4C, 0x45,
    0x2E, 0x00,
];

fn fault(text: &str) -> Box<io::Error> {
    Box::new(io::Error::new(io::ErrorKind::UnexpectedEof, text.to_string()))
}

/// A file of two by two pixels with three bytes of identification and six
/// bytes of colour map: the header ends at 18, the identification at 21, the
/// colour map at 27.
fn file_with_all_fields(code: u8) -> Vec<u8> {
    let mut file = vec![3, 1, code, 0, 0, 2, 0, 24, 0, 0, 0, 0, 2, 0, 2, 0, 24, 0];
    file.extend_from_slice(&[100, 101, 102]);
    file.extend_from_slice(&[200, 201, 202, 203, 204, 205]);
    if code == 10 {
        file.extend_from_slice(&[0x81, 1, 2, 3, 0x00, 4, 5, 6, 0x80, 7, 8, 9]);
    } else {
        file.extend_from_slice(&[1, 2, 3, 1, 2, 3, 4, 5, 6, 7, 8, 9]);
    }
    file.extend_from_slice(&[0xAA, 0xBB]);
    file.extend_from_slice(&FOOTER);
    file
}

fn in_chunks(file: &[u8], size: usize) -> Vec<Vec<u8>> {
    file.chunks(size).map(|chunk| chunk.to_vec()).collect()
}

fn decoder_fed(bytes: &[u8]) -> TgaDecoder {
    let mut decoder = TgaDecoder::new();
    decoder.push(bytes);
    decoder
}

#[test]
fn test_decoding_does_not_depend_on_the_pieces() {
    for code in [2u8, 10] {
        let file = file_with_all_fields(code);
        let whole = TgaImage::parse_from_buffer(&file).unwrap();
        for size in [1usize, 2, 3, 5, 17, 18, 19, 26, 27, 64, 1000] {
            let pieces = TgaImage::parse_from_file(&in_chunks(&file, size)).unwrap();
            assert_eq!(pieces, whole);
        }
        assert_eq!(whole.image_data(), &[1, 2, 3, 1, 2, 3, 4, 5, 6, 7, 8, 9]);
        assert_eq!(whole.extended_image_identification(), &[0xAA, 0xBB]);
    }
}

#[test]
fn test_empty_pieces_change_nothing() {
    let file = file_with_all_fields(10);
    let whole = TgaImage::parse_from_buffer(&file).unwrap();
    let mut chunks = vec![Vec::new()];
    for chunk in in_chunks(&file, 7) {
        chunks.push(chunk);
        chunks.push(Vec::new());
    }

    assert_eq!(TgaImage::parse_from_file(&chunks).unwrap(), whole);
}

#[test]
fn test_a_source_without_bytes_has_no_header() {
    assert!(matches!(
        TgaImage::parse_from_file(&[]),
        Err(TgaError::IncompleteTgaHeader(0, 18))
    ));
    assert!(matches!(
        TgaImage::parse_from_file(&[Vec::new(), Vec::new()]),
        Err(TgaError::IncompleteTgaHeader(0, 18))
    ));
}

#[test]
fn test_errors_do_not_depend_on_the_pieces() {
    for code in [2u8, 10] {
        let file = file_with_all_fields(code);
        for cut in [0usize, 10, 19, 25, 30] {
            let expected = TgaImage::parse_from_buffer(&file[..cut]).unwrap_err().to_string();
            for size in [1usize, 4, 100] {
                let error = TgaImage::parse_from_file(&in_chunks(&file[..cut], size)).unwrap_err();
                assert_eq!(error.to_string(), expected);
            }
        }
    }
}

#[test]
fn test_a_rejected_header_ends_the_reading() {
    let mut file = file_with_all_fields(2);
    file[2] = 9;
    let mut decoder = TgaDecoder::new();
    decoder.push(&file[..17]);
    assert!(decoder.wants_more());
    decoder.push(&file[17..18]);
    assert!(!decoder.wants_more());
    assert_eq!(decoder.stage(), DecodeStage::Rejected);
    assert!(matches!(decoder.finish(), Err(TgaError::Not24BitRgb(9))));

    // The pieces after the header are not even looked at.
    assert!(matches!(
        TgaImage::parse_from_file(&in_chunks(&file, 6)),
        Err(TgaError::Not24BitRgb(9))
    ));
}

#[test]
fn test_the_stages_of_an_uncompressed_file() {
    let file = file_with_all_fields(2);
    for received in 0..=file.len() {
        let decoder = decoder_fed(&file[..received]);
        let expected = if received < 18 {
            DecodeStage::Header
        } else if received < 21 {
            DecodeStage::IdString
        } else if received < 27 {
            DecodeStage::ColourMap
        } else if received < 39 {
            DecodeStage::ImageData
        } else {
            DecodeStage::Trailer
        };
        assert_eq!(decoder.stage(), expected);
        assert!(decoder.wants_more());
    }
}

#[test]
fn test_the_stages_of_a_run_length_encoded_file() {
    let file = file_with_all_fields(10);
    for received in 0..=file.len() {
        let decoder = decoder_fed(&file[..received]);
        let expected = if received < 18 {
            DecodeStage::Header
        } else if received < 21 {
            DecodeStage::IdString
        } else if received < 27 {
            DecodeStage::ColourMap
        } else if received < 39 {
            DecodeStage::ImageData
        } else {
            DecodeStage::Trailer
        };
        assert_eq!(decoder.stage(), expected);
        assert!(decoder.wants_more());
    }
}

#[test]
fn test_fields_of_no_length_take_no_stage() {
    let file = [0, 0, 2, 0, 0, 0, 0, 0, 0, 0, 0, 0, 1, 0, 1, 0, 24, 0, 7, 8];
    assert_eq!(decoder_fed(&file[..17]).stage(), DecodeStage::Header);
    assert_eq!(decoder_fed(&file[..18]).stage(), DecodeStage::ImageData);
    assert_eq!(decoder_fed(&file).stage(), DecodeStage::ImageData);
    let empty = [0, 0, 2, 0, 0, 0, 0, 0, 0, 0, 0, 0, 0, 0, 0, 0, 24, 0];
    assert_eq!(decoder_fed(&empty).stage(), DecodeStage::Trailer);
}

#[test]
fn test_a_failure_of_the_source_is_the_corruption_of_the_field_being_read() {
    for code in [2u8, 10] {
        let file = file_with_all_fields(code);

        let error = decoder_fed(&file[..10]).abort(fault("header"));
        assert!(matches!(error, TgaError::CorruptTgaHeader));
        assert!(error.cause().is_none());

        let error = decoder_fed(&file[..18]).abort(fault("identification"));
        assert!(matches!(error, TgaError::CorruptIdString(_)));
        assert_eq!(error.cause().unwrap().to_string(), "identification");

        let error = decoder_fed(&file[..21]).abort(fault("colour map"));
        assert!(matches!(error, TgaError::CorruptColourMap(_)));
        assert_eq!(error.cause().unwrap().to_string(), "colour map");

        let error = decoder_fed(&file[..38]).abort(fault("image data"));
        assert!(matches!(error, TgaError::CorruptImageData(_)));
        assert_eq!(error.cause().unwrap().to_string(), "image data");
        assert_eq!(error.cause().unwrap().kind(), io::ErrorKind::UnexpectedEof);

        let error = decoder_fed(&file[..39]).abort(fault("trailer"));
        assert!(matches!(error, TgaError::CorruptIdString(_)));
        assert_eq!(error.cause().unwrap().to_string(), "trailer");
    }
}

#[test]
fn test_a_failure_of_the_source_before_any_byte() {
    let error = TgaDecoder::new().abort(fault("nothing"));
    assert!(matches!(error, TgaError::CorruptTgaHeader));
}

#[test]
fn test_a_failure_of_the_source_after_a_rejected_header() {
    let mut file = file_with_all_fields(2);
    file[16] = 32;
    let error = decoder_fed(&file[..18]).abort(fault("late"));
    assert!(matches!(error, TgaError::Not24BitRgb(2)));
}

#[test]
fn test_finish_decodes_what_was_pushed() {
    let file = file_with_all_fields(10);
    let mut decoder = TgaDecoder::new();
    for chunk in in_chunks(&file, 5) {
        assert!(decoder.wants_more());
        decoder.push(&chunk);
    }
    let image = decoder.finish().unwrap();

    assert_eq!(image, TgaImage::parse_from_buffer(&file).unwrap());
    assert_eq!(image.data_type_code(), 10);
}

#[test]
fn test_finish_before_the_end_of_the_image_data_is_incomplete() {
    let file = file_with_all_fields(2);
    assert!(matches!(
        decoder_fed(&file[..30]).finish(),
        Err(TgaError::IncompleteImageData(3, 12))
    ));
    let file = file_with_all_fields(10);
    assert!(matches!(
        decoder_fed(&file[..34]).finish(),
        Err(TgaError::IncompleteImageData(6, 12))
    ));
}
