//! The ways in which decoding an image can fail.

use vstd::prelude::*;
use vstd::string::StringExecFns;

verus! {

/// The character that stands for a decimal digit.
pub open spec fn digit_char(d: nat) -> char
    recommends
        d < 10,
{
    if d == 0 {
        '0'
    } else if d == 1 {
        '1'
    } else if d == 2 {
        '2'
    } else if d == 3 {
        '3'
    } else if d == 4 {
        '4'
    } else if d == 5 {
        '5'
    } else if d == 6 {
        '6'
    } else if d == 7 {
        '7'
    } else if d == 8 {
        '8'
    } else {
        '9'
    }
}

/// A number written in decimal, without leading zeros.
pub open spec fn decimal(n: nat) -> Seq<char>
    decreases n,
{
    if n < 10 {
        seq![digit_char(n)]
    } else {
        decimal(n / 10).push(digit_char(n % 10))
    }
}

fn digit_str(d: u64) -> (s: &'static str)
    requires
        d < 10,
    ensures
        s@ == seq![digit_char(d as nat)],
{
    proof {
        reveal_strlit("0");
        reveal_strlit("1");
        reveal_strlit("2");
        reveal_strlit("3");
        reveal_strlit("4");
        reveal_strlit("5");
        reveal_strlit("6");
        reveal_strlit("7");
        reveal_strlit("8");
        reveal_strlit("9");
    }
    let s = if d == 0 {
        "0"
    } else if d == 1 {
        "1"
    } else if d == 2 {
        "2"
    } else if d == 3 {
        "3"
    } else if d == 4 {
        "4"
    } else if d == 5 {
        "5"
    } else if d == 6 {
        "6"
    } else if d == 7 {
        "7"
    } else if d == 8 {
        "8"
    } else {
        "9"
    };
    s
}

/// Appends a number in decimal to a string.
fn append_decimal(text: &mut String, n: u64)
    ensures
        final(text)@ == old(text)@ + decimal(n as nat),
    decreases n,
{
    if n >= 10 {
        append_decimal(text, n / 10);
    }
    text.append(digit_str(n % 10));
}

/// `std::io::Error`: a failure of the byte source itself, as opposed to its
/// running out of bytes. The library never looks inside one: it only carries
/// the value from the source to the caller.
#[verifier::external_type_specification]
#[verifier::external_body]
pub struct ExIoError(std::io::Error);

/// The error returned when a byte source does not hold a decodable 24 bit RGB
/// image. Every error ends the decoding: no partial image is ever returned.
///
/// In the `Incomplete` variants the first number is the count of bytes that
/// the source still had for the field, the second the count that the header
/// declares for it.
#[derive(Debug)]
pub enum TgaError {
    /// The byte source failed while the header was being read.
    CorruptTgaHeader,
    /// The image is not a 24 bit RGB image of a supported type. The number is
    /// the data type code found in the header.
    Not24BitRgb(usize),
    /// The byte source failed while identification data was being read.
    CorruptIdString(Box<std::io::Error>),
    /// The byte source failed while the colour map was being read.
    CorruptColourMap(Box<std::io::Error>),
    /// The byte source failed while the image data was being read.
    CorruptImageData(Box<std::io::Error>),
    /// The source is shorter than a header.
    IncompleteTgaHeader(u64, u64),
    /// The source ends inside the image identification field.
    IncompleteIdString(u64, u64),
    /// The source ends inside the colour map.
    IncompleteColourMap(u64, u64),
    /// The source does not hold the image data that the header declares.
    IncompleteImageData(u64, u64),
}

impl TgaError {
    /// Whether the error says that the source ran out of bytes.
    pub open spec fn is_incomplete(&self) -> bool {
        self is IncompleteTgaHeader || self is IncompleteIdString || self is IncompleteColourMap
            || self is IncompleteImageData
    }

    /// What kind of failure this is, in a sentence.
    pub open spec fn spec_description(&self) -> Seq<char> {
        match *self {
            TgaError::CorruptTgaHeader => "The TGA header data is corrupted."@,
            TgaError::Not24BitRgb(_) => "The TGA image is not a 24 bit TGA format RGB image."@,
            TgaError::CorruptIdString(_) =>
                "The image identification is either corrupted, or it is the wrong length."@,
            TgaError::CorruptColourMap(_) =>
                "The colour map is either corrupted, or it is the wrong length."@,
            TgaError::CorruptImageData(_) =>
                "The TGA image data is either corrupted, or it is the wrong length."@,
            TgaError::IncompleteTgaHeader(_, _) =>
                "The file is too small to contain a complete TGA header."@,
            TgaError::IncompleteIdString(_, _) => "The ID string is too short."@,
            TgaError::IncompleteColourMap(_, _) => "The TGA image colour map is too short."@,
            TgaError::IncompleteImageData(_, _) =>
                "The number of pixels in the TGA image does not equal what was reported in the header."@,
        }
    }

    /// What kind of failure this is, in a sentence.
    pub fn description(&self) -> (text: &'static str)
        ensures
            text@ == self.spec_description(),
    {
        match self {
            TgaError::CorruptTgaHeader => "The TGA header data is corrupted.",
            TgaError::Not24BitRgb(_) => "The TGA image is not a 24 bit TGA format RGB image.",
            TgaError::CorruptIdString(_) =>
                "The image identification is either corrupted, or it is the wrong length.",
            TgaError::CorruptColourMap(_) =>
                "The colour map is either corrupted, or it is the wrong length.",
            TgaError::CorruptImageData(_) =>
                "The TGA image data is either corrupted, or it is the wrong length.",
            TgaError::IncompleteTgaHeader(_, _) =>
                "The file is too small to contain a complete TGA header.",
            TgaError::IncompleteIdString(_, _) => "The ID string is too short.",
            TgaError::IncompleteColourMap(_, _) => "The TGA image colour map is too short.",
            TgaError::IncompleteImageData(_, _) =>
                "The number of pixels in the TGA image does not equal what was reported in the header.",
        }
    }

    /// The name of the variant.
    pub open spec fn spec_name(&self) -> Seq<char> {
        match *self {
            TgaError::CorruptTgaHeader => "CorruptTgaHeader"@,
            TgaError::Not24BitRgb(_) => "Not24BitRgb"@,
            TgaError::CorruptIdString(_) => "CorruptIdString"@,
            TgaError::CorruptColourMap(_) => "CorruptColourMap"@,
            TgaError::CorruptImageData(_) => "CorruptImageData"@,
            TgaError::IncompleteTgaHeader(_, _) => "IncompleteTgaHeader"@,
            TgaError::IncompleteIdString(_, _) => "IncompleteIdString"@,
            TgaError::IncompleteColourMap(_, _) => "IncompleteColourMap"@,
            TgaError::IncompleteImageData(_, _) => "IncompleteImageData"@,
        }
    }

    /// The error as one line of text: the name of the variant, followed for
    /// the variants that carry numbers by those numbers in decimal.
    pub open spec fn spec_to_string(&self) -> Seq<char> {
        match *self {
            TgaError::Not24BitRgb(code) => self.spec_name() + "(got_type_code="@ + decimal(
                code as nat,
            ) + ")"@,
            TgaError::IncompleteTgaHeader(have, need)
            | TgaError::IncompleteIdString(have, need)
            | TgaError::IncompleteColourMap(have, need)
            | TgaError::IncompleteImageData(have, need) => self.spec_name() + "(have="@ + decimal(
                have as nat,
            ) + ", need="@ + decimal(need as nat) + ")"@,
            _ => self.spec_name(),
        }
    }

    fn name(&self) -> (text: &'static str)
        ensures
            text@ == self.spec_name(),
    {
        match self {
            TgaError::CorruptTgaHeader => "CorruptTgaHeader",
            TgaError::Not24BitRgb(_) => "Not24BitRgb",
            TgaError::CorruptIdString(_) => "CorruptIdString",
            TgaError::CorruptColourMap(_) => "CorruptColourMap",
            TgaError::CorruptImageData(_) => "CorruptImageData",
            TgaError::IncompleteTgaHeader(_, _) => "IncompleteTgaHeader",
            TgaError::IncompleteIdString(_, _) => "IncompleteIdString",
            TgaError::IncompleteColourMap(_, _) => "IncompleteColourMap",
            TgaError::IncompleteImageData(_, _) => "IncompleteImageData",
        }
    }

    /// Writes the error as one line of text.
    pub fn to_string(&self) -> (text: String)
        ensures
            text@ == self.spec_to_string(),
    {
        let mut text = String::from_str(self.name());
        match self {
            TgaError::Not24BitRgb(code) => {
                text.append("(got_type_code=");
                append_decimal(&mut text, *code as u64);
                text.append(")");
            },
            TgaError::IncompleteTgaHeader(have, need)
            | TgaError::IncompleteIdString(have, need)
            | TgaError::IncompleteColourMap(have, need)
            | TgaError::IncompleteImageData(have, need) => {
                text.append("(have=");
                append_decimal(&mut text, *have);
                text.append(", need=");
                append_decimal(&mut text, *need);
                text.append(")");
            },
            _ => {},
        }
        text
    }

    /// The failure of the byte source that led to this error, if one did.
    pub open spec fn spec_cause(&self) -> Option<std::io::Error> {
        match *self {
            TgaError::CorruptIdString(cause) => Some(*cause),
            TgaError::CorruptColourMap(cause) => Some(*cause),
            TgaError::CorruptImageData(cause) => Some(*cause),
            _ => None,
        }
    }

    /// The failure of the byte source that led to this error, if one did.
    pub fn cause(&self) -> (cause: Option<&std::io::Error>)
        ensures
            cause == match self.spec_cause() {
                Some(c) => Some(&c),
                None => None,
            },
    {
        match self {
            TgaError::CorruptIdString(cause) => Some(&**cause),
            TgaError::CorruptColourMap(cause) => Some(&**cause),
            TgaError::CorruptImageData(cause) => Some(&**cause),
            _ => None,
        }
    }
}

} // verus!
