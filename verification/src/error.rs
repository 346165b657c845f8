//! The errors that the library reports.

use vstd::prelude::*;

verus! {

/// An I/O failure, as the standard library reports it.
#[verifier::external_type_specification]
#[verifier::external_body]
pub struct ExIoError(std::io::Error);

/// A failure to read or write JSON, as `serde_json` reports it.
#[verifier::external_type_specification]
#[verifier::external_body]
pub struct ExJsonError(serde_json::Error);

/// Everything that can go wrong in a derivation or around a profile.
#[derive(Debug)]
pub enum SpectreError {
    /// The algorithm version lies outside the supported range.
    InvalidAlgorithm(u32),
    /// The text names no result type.
    InvalidResultType(String),
    /// The text names no key purpose.
    InvalidKeyPurpose(String),
    /// The counter lies outside the supported range.
    InvalidCounter(i64),
    /// The text names no file format, or the format cannot be handled.
    InvalidFileFormat(String),
    /// The memory-hard derivation or the keyed MAC refused its input.
    KeyDerivationFailed,
    /// No credential can be assembled for the request.
    PasswordGenerationFailed,
    /// A stored state could not be encrypted.
    EncryptionFailed,
    /// A stored state could not be decrypted.
    DecryptionFailed,
    /// The secret does not belong to the profile.
    UserSecretMismatch,
    /// Reading or writing a file failed.
    Io(std::io::Error),
    /// A profile could not be turned into JSON or back.
    Json(serde_json::Error),
    /// A field that the request needs is empty.
    MissingField(String),
}

/// What an error says, with its texts as sequences of characters.
pub enum SpectreErrorView {
    InvalidAlgorithm(u32),
    InvalidResultType(Seq<char>),
    InvalidKeyPurpose(Seq<char>),
    InvalidCounter(i64),
    InvalidFileFormat(Seq<char>),
    KeyDerivationFailed,
    PasswordGenerationFailed,
    EncryptionFailed,
    DecryptionFailed,
    UserSecretMismatch,
    Io(std::io::Error),
    Json(serde_json::Error),
    MissingField(Seq<char>),
}

impl View for SpectreError {
    type V = SpectreErrorView;

    open spec fn view(&self) -> SpectreErrorView {
        match *self {
            SpectreError::InvalidAlgorithm(v) => SpectreErrorView::InvalidAlgorithm(v),
            SpectreError::InvalidResultType(s) => SpectreErrorView::InvalidResultType(s@),
            SpectreError::InvalidKeyPurpose(s) => SpectreErrorView::InvalidKeyPurpose(s@),
            SpectreError::InvalidCounter(v) => SpectreErrorView::InvalidCounter(v),
            SpectreError::InvalidFileFormat(s) => SpectreErrorView::InvalidFileFormat(s@),
            SpectreError::KeyDerivationFailed => SpectreErrorView::KeyDerivationFailed,
            SpectreError::PasswordGenerationFailed => SpectreErrorView::PasswordGenerationFailed,
            SpectreError::EncryptionFailed => SpectreErrorView::EncryptionFailed,
            SpectreError::DecryptionFailed => SpectreErrorView::DecryptionFailed,
            SpectreError::UserSecretMismatch => SpectreErrorView::UserSecretMismatch,
            SpectreError::Io(e) => SpectreErrorView::Io(e),
            SpectreError::Json(e) => SpectreErrorView::Json(e),
            SpectreError::MissingField(s) => SpectreErrorView::MissingField(s@),
        }
    }
}

/// A result of the library as contracts speak of it: the view of the value, or
/// the view of the error.
pub open spec fn result_view<T: View>(r: Result<T, SpectreError>) -> Result<
    T::V,
    SpectreErrorView,
> {
    match r {
        Ok(value) => Ok(value@),
        Err(e) => Err(e@),
    }
}

impl From<std::io::Error> for SpectreError {
    fn from(e: std::io::Error) -> (r: SpectreError) {
        SpectreError::Io(e)
    }
}

impl vstd::std_specs::convert::FromSpecImpl<std::io::Error> for SpectreError {
    open spec fn obeys_from_spec() -> bool {
        true
    }

    open spec fn from_spec(e: std::io::Error) -> SpectreError {
        SpectreError::Io(e)
    }
}

impl From<serde_json::Error> for SpectreError {
    fn from(e: serde_json::Error) -> (r: SpectreError) {
        SpectreError::Json(e)
    }
}

impl vstd::std_specs::convert::FromSpecImpl<serde_json::Error> for SpectreError {
    open spec fn obeys_from_spec() -> bool {
        true
    }

    open spec fn from_spec(e: serde_json::Error) -> SpectreError {
        SpectreError::Json(e)
    }
}

/// The ten decimal digits.
pub open spec fn spec_digits() -> Seq<char> {
    seq!['0', '1', '2', '3', '4', '5', '6', '7', '8', '9']
}

/// A natural number in decimal, without leading zeros.
pub open spec fn spec_decimal(n: nat) -> Seq<char>
    decreases n,
{
    if n < 10 {
        seq![spec_digits()[n as int]]
    } else {
        spec_decimal(n / 10).push(spec_digits()[(n % 10) as int])
    }
}

/// An integer in decimal, with a minus sign where it is negative.
pub open spec fn spec_signed_decimal(v: int) -> Seq<char> {
    if v < 0 {
        seq!['-'] + spec_decimal((-v) as nat)
    } else {
        spec_decimal(v as nat)
    }
}

/// What an error says to the user. An I/O or JSON failure is described by the
/// library that reported it, so only the beginning of its message is fixed
/// here.
pub open spec fn spec_message(e: SpectreErrorView) -> Seq<char> {
    match e {
        SpectreErrorView::InvalidAlgorithm(v) => "Invalid algorithm version: "@ + spec_decimal(
            v as nat,
        ),
        SpectreErrorView::InvalidResultType(s) => "Invalid result type: "@ + s,
        SpectreErrorView::InvalidKeyPurpose(s) => "Invalid key purpose: "@ + s,
        SpectreErrorView::InvalidCounter(v) => "Invalid counter value: "@ + spec_signed_decimal(
            v as int,
        ),
        SpectreErrorView::InvalidFileFormat(s) => "Invalid file format: "@ + s,
        SpectreErrorView::KeyDerivationFailed => "User key derivation failed"@,
        SpectreErrorView::PasswordGenerationFailed => "Password generation failed"@,
        SpectreErrorView::EncryptionFailed => "Encryption failed"@,
        SpectreErrorView::DecryptionFailed => "Decryption failed"@,
        SpectreErrorView::UserSecretMismatch => "User secret mismatch"@,
        SpectreErrorView::Io(_) => "File I/O error: "@,
        SpectreErrorView::Json(_) => "JSON error: "@,
        SpectreErrorView::MissingField(s) => "Missing required field: "@ + s,
    }
}

/// Appends a number in decimal to a text.
fn push_decimal(text: &mut String, n: u64)
    ensures
        final(text)@ == old(text)@ + spec_decimal(n as nat),
    decreases n,
{
    let digits: [char; 10] = ['0', '1', '2', '3', '4', '5', '6', '7', '8', '9'];
    if n >= 10 {
        push_decimal(text, n / 10);
    }
    text.push(digits[(n % 10) as usize]);
}

/// Appends an integer in decimal to a text.
fn push_signed_decimal(text: &mut String, v: i64)
    ensures
        final(text)@ == old(text)@ + spec_signed_decimal(v as int),
{
    if v < 0 {
        text.push('-');
        // `-(v + 1) + 1` is `-v` and stays in range for the least integer.
        let magnitude: u64 = (-(v + 1)) as u64 + 1;
        push_decimal(text, magnitude);
    } else {
        push_decimal(text, v as u64);
    }
}

/// `std::io::Error`'s `Display`: the text with which the standard library
/// describes the failure.
#[verifier::external_body]
fn io_error_text(e: &std::io::Error) -> String {
    e.to_string()
}

/// `serde_json::Error`'s `Display`: the text with which `serde_json`
/// describes the failure.
#[verifier::external_body]
fn json_error_text(e: &serde_json::Error) -> String {
    e.to_string()
}

impl SpectreError {
    /// What the error says to the user. The message of an I/O or JSON failure
    /// goes on with the description that the reporting library gives.
    pub fn message(&self) -> (r: String)
        ensures
            match self@ {
                SpectreErrorView::Io(_) => exists|text: Seq<char>| r@ == spec_message(self@) + text,
                SpectreErrorView::Json(_) => exists|text: Seq<char>|
                    r@ == spec_message(self@) + text,
                _ => r@ == spec_message(self@),
            },
    {
        match self {
            SpectreError::InvalidAlgorithm(v) => {
                let mut r = "Invalid algorithm version: ".to_owned();
                push_decimal(&mut r, *v as u64);
                r
            },
            SpectreError::InvalidResultType(s) => {
                let mut r = "Invalid result type: ".to_owned();
                r.push_str(s.as_str());
                r
            },
            SpectreError::InvalidKeyPurpose(s) => {
                let mut r = "Invalid key purpose: ".to_owned();
                r.push_str(s.as_str());
                r
            },
            SpectreError::InvalidCounter(v) => {
                let mut r = "Invalid counter value: ".to_owned();
                push_signed_decimal(&mut r, *v);
                r
            },
            SpectreError::InvalidFileFormat(s) => {
                let mut r = "Invalid file format: ".to_owned();
                r.push_str(s.as_str());
                r
            },
            SpectreError::KeyDerivationFailed => "User key derivation failed".to_owned(),
            SpectreError::PasswordGenerationFailed => "Password generation failed".to_owned(),
            SpectreError::EncryptionFailed => "Encryption failed".to_owned(),
            SpectreError::DecryptionFailed => "Decryption failed".to_owned(),
            SpectreError::UserSecretMismatch => "User secret mismatch".to_owned(),
            SpectreError::Io(e) => {
                let mut r = "File I/O error: ".to_owned();
                let text = io_error_text(e);
                r.push_str(text.as_str());
                assert(r@ == spec_message(self@) + text@);
                r
            },
            SpectreError::Json(e) => {
                let mut r = "JSON error: ".to_owned();
                let text = json_error_text(e);
                r.push_str(text.as_str());
                assert(r@ == spec_message(self@) + text@);
                r
            },
            SpectreError::MissingField(s) => {
                let mut r = "Missing required field: ".to_owned();
                r.push_str(s.as_str());
                r
            },
        }
    }
}

} // verus!
