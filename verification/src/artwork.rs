//! Cover art: turning the bytes that were fetched into an image.

use vstd::prelude::*;

verus! {

/// Why `image` could not decode some bytes; carried through unread.
#[verifier::external_type_specification]
#[verifier::external_body]
pub struct ExImageError(image::ImageError);

/// `image::load_from_memory`: guesses the format from the bytes and decodes
/// them. Besides the bytes, the outcome depends on the format-detection and
/// decoding hooks registered in the process at the time of the call, so
/// nothing is stated of it: not whether it succeeds, not what the image
/// holds, not which error comes back.
#[verifier::external_body]
fn load_image(bytes: &[u8]) -> (r: Result<image::DynamicImage, image::ImageError>) {
    image::load_from_memory(bytes)
}

/// The cover image in the fetched `bytes`, or the decoder's error. Whether
/// decoding succeeds rests on the process's registered image hooks as well
/// as on the bytes; the caller takes the outcome as it comes.
pub fn decode_artwork(bytes: &[u8]) -> (r: Result<image::DynamicImage, image::ImageError>) {
    load_image(bytes)
}

} // verus!
