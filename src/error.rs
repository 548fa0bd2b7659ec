use vstd::prelude::*;

verus! {

#[verifier::external_type_specification]
#[verifier::external_body]
pub struct ExIoError(std::io::Error);

#[verifier::external_type_specification]
#[verifier::external_body]
pub struct ExFromHexError(hex::FromHexError);

#[verifier::external_type_specification]
#[verifier::external_body]
pub struct ExImageError(image::ImageError);

/// Every failure a session can report.
#[derive(Debug)]
pub enum AGError {
    /// A socket or process operation failed, a timeout included.
    Io(std::io::Error),
    /// A length prefix was not four hexadecimal digits.
    Decode,
    /// A capture payload was not a decodable image.
    Image(image::ImageError),
    /// A protocol-level rejection, with its message.
    Custom(String),
}

impl AGError {
    /// The message of a `Custom` error, if it is one.
    pub open spec fn custom_text(&self) -> Option<Seq<char>> {
        match self {
            AGError::Custom(m) => Some(m@),
            _ => None,
        }
    }
}

} // verus!
