use vstd::prelude::*;

use crate::keys::Key;

verus! {

#[verifier::external_type_specification]
#[verifier::external_body]
pub struct ExIoError(std::io::Error);

#[verifier::external_type_specification]
#[verifier::external_body]
pub struct ExImageError(image::ImageError);

#[verifier::external_type_specification]
#[verifier::external_body]
pub struct ExSixelError(icy_sixel::SixelError);

/// Why printing an image failed.
#[derive(Debug)]
pub enum ViuError {
    /// The image codec refused the image.
    Image(image::ImageError),
    /// Reading from or writing to the terminal, or to a temporary file, failed.
    Io(std::io::Error),
    /// The configuration asks for something impossible.
    InvalidConfiguration(String),
    /// The terminal answered a Kitty query with something else than success; these are
    /// the keys it sent.
    KittyResponse(Vec<Key>),
    /// The terminal does not support the Kitty graphics protocol.
    KittyNotSupported,
    /// The terminal answered an iTerm query with something unexpected; these are the keys
    /// it sent.
    ItermResponse(Vec<Key>),
    /// The sixel encoder refused the image.
    IcySixelError(icy_sixel::SixelError),
    /// The native sixel encoder failed, with its message.
    SixelError(String),
}

/// The result of an operation that can fail with a `ViuError`.
pub type ViuResult<T = ()> = Result<T, ViuError>;

} // verus!
