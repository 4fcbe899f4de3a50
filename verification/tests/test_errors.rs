use std::io;
use tga::TgaError;

fn fault(text: &str) -> Box<io::Error> {
    Box::new(io::Error::new(io::ErrorKind::Other, text.to_string()))
}

#[test]
fn test_error_to_string_names_the_variant() {
    assert_eq!(TgaError::CorruptTgaHeader.to_string(), "CorruptTgaHeader");
    assert_eq!(TgaError::CorruptIdString(fault("a")).to_string(), "CorruptIdString");
    assert_eq!(TgaError::CorruptColourMap(fault("b")).to_string(), "CorruptColourMap");
    assert_eq!(TgaError::CorruptImageData(fault("c")).to_string(), "CorruptImageData");
}

#[test]
fn test_error_to_string_writes_the_numbers_in_decimal() {
    assert_eq!(TgaError::Not24BitRgb(3).to_string(), "Not24BitRgb(got_type_code=3)");
    assert_eq!(TgaError::Not24BitRgb(0).to_string(), "Not24BitRgb(got_type_code=0)");
    assert_eq!(TgaError::Not24BitRgb(255).to_string(), "Not24BitRgb(got_type_code=255)");
    assert_eq!(
        TgaError::IncompleteTgaHeader(5, 18).to_string(),
        "IncompleteTgaHeader(have=5, need=18)"
    );
    assert_eq!(
        TgaError::IncompleteIdString(0, 255).to_string(),
        "IncompleteIdString(have=0, need=255)"
    );
    assert_eq!(
        TgaError::IncompleteColourMap(10, 768).to_string(),
        "IncompleteColourMap(have=10, need=768)"
    );
    assert_eq!(
        TgaError::IncompleteImageData(786431, 786432).to_string(),
        "IncompleteImageData(have=786431, need=786432)"
    );
    assert_eq!(
        TgaError::IncompleteImageData(1000, 12_884_508_675).to_string(),
        "IncompleteImageData(have=1000, need=12884508675)"
    );
    assert_eq!(
        TgaError::IncompleteImageData(u64::MAX, 100).to_string(),
        "IncompleteImageData(have=18446744073709551615, need=100)"
    );
}

#[test]
fn test_error_to_string_of_powers_of_ten() {
    let mut power: u64 = 1;
    for _ in 0..19 {
        assert_eq!(
            TgaError::IncompleteImageData(power, power - 1).to_string(),
            format!("IncompleteImageData(have={}, need={})", power, power - 1)
        );
        power *= 10;
    }
}

#[test]
fn test_error_description() {
    assert_eq!(TgaError::CorruptTgaHeader.description(), "The TGA header data is corrupted.");
    assert_eq!(
        TgaError::Not24BitRgb(1).description(),
        "The TGA image is not a 24 bit TGA format RGB image."
    );
    assert_eq!(
        TgaError::CorruptIdString(fault("a")).description(),
        "The image identification is either corrupted, or it is the wrong length."
    );
    assert_eq!(
        TgaError::CorruptColourMap(fault("a")).description(),
        "The colour map is either corrupted, or it is the wrong length."
    );
    assert_eq!(
        TgaError::CorruptImageData(fault("a")).description(),
        "The TGA image data is either corrupted, or it is the wrong length."
    );
    assert_eq!(
        TgaError::IncompleteTgaHeader(1, 18).description(),
        "The file is too small to contain a complete TGA header."
    );
    assert_eq!(TgaError::IncompleteIdString(1, 2).description(), "The ID string is too short.");
    assert_eq!(
        TgaError::IncompleteColourMap(1, 2).description(),
        "The TGA image colour map is too short."
    );
    assert_eq!(
        TgaError::IncompleteImageData(1, 2).description(),
        "The number of pixels in the TGA image does not equal what was reported in the header."
    );
}

#[test]
fn test_error_cause_is_the_failure_of_the_source() {
    let error = TgaError::CorruptIdString(fault("identification"));
    assert_eq!(error.cause().unwrap().to_string(), "identification");
    let error = TgaError::CorruptColourMap(fault("colour map"));
    assert_eq!(error.cause().unwrap().to_string(), "colour map");
    let error = TgaError::CorruptImageData(fault("image data"));
    assert_eq!(error.cause().unwrap().to_string(), "image data");
    assert_eq!(error.cause().unwrap().kind(), io::ErrorKind::Other);
}

#[test]
fn test_error_without_a_failure_of_the_source_has_no_cause() {
    assert!(TgaError::CorruptTgaHeader.cause().is_none());
    assert!(TgaError::Not24BitRgb(3).cause().is_none());
    assert!(TgaError::IncompleteTgaHeader(1, 18).cause().is_none());
    assert!(TgaError::IncompleteIdString(1, 2).cause().is_none());
    assert!(TgaError::IncompleteColourMap(1, 2).cause().is_none());
    assert!(TgaError::IncompleteImageData(1, 2).cause().is_none());
}
