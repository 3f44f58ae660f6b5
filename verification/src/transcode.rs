//! PNG (or any format the `image` crate recognises) to WebP transcoding,
//! optionally flipping the picture upside down.
use vstd::prelude::*;

verus! {

#[verifier::external_type_specification]
#[verifier::external_body]
pub struct ExDynamicImage(image::DynamicImage);

#[verifier::external_type_specification]
#[verifier::external_body]
pub struct ExImageError(image::ImageError);

/// Why transcoding failed, with the `image` crate's error.
pub enum TranscodeError {
    /// The input could not be read as an image.
    Decode(image::ImageError),
    /// The image could not be written as WebP.
    Encode(image::ImageError),
}

/// The bytes every WebP file starts with: `RIFF`, a 4-byte size, `WEBP`.
pub open spec fn is_webp_container(b: Seq<u8>) -> bool {
    &&& b.len() >= 12
    &&& b.take(4) == seq![82u8, 73u8, 70u8, 70u8]
    &&& b.subrange(8, 12) == seq![87u8, 69u8, 66u8, 80u8]
}

/// Whether `img` is an image that `image::load_from_memory` gives for
/// these bytes, with the decoding hooks of the process (the library and
/// its programs register none). It is written as a relation: which formats
/// are recognised depends on those hooks as well as on the bytes.
pub uninterp spec fn decodes_to(bytes: Seq<u8>, img: image::DynamicImage) -> bool;

/// Calls `image::load_from_memory`, which guesses the format from the
/// bytes and decodes them (the same as
/// `ImageReader::new(Cursor::new(bytes)).with_guessed_format()?.decode()`).
/// A decoded image is one the decoders give for exactly these bytes
/// ([`decodes_to`]), and a failure means the decoders give no image for
/// these bytes. Which bytes decode is not stated: it depends on the
/// formats and hooks of the `image` crate.
#[verifier::external_body]
fn load_image(contents: &[u8]) -> (r: Result<image::DynamicImage, image::ImageError>)
    ensures
        r matches Ok(img) ==> decodes_to(contents@, img),
        r is Err ==> forall|img: image::DynamicImage| !decodes_to(contents@, img),
{
    image::load_from_memory(contents)
}

/// The image `DynamicImage::flipv` makes of an image: the same image
/// flipped vertically.
pub uninterp spec fn flipped(img: image::DynamicImage) -> image::DynamicImage;

/// What writing an image as WebP gives: the bytes of the WebP file, or
/// `None` when the encoder refuses the image.
pub uninterp spec fn webp_of(img: image::DynamicImage) -> Option<Seq<u8>>;

/// Calls `DynamicImage::flipv`, which returns the image flipped
/// vertically; the result depends on the image alone, and is named
/// [`flipped`].
#[verifier::external_body]
fn flip_vertical(img: &image::DynamicImage) -> (r: image::DynamicImage)
    ensures
        r == flipped(*img),
{
    img.flipv()
}

/// Calls `DynamicImage::write_to` with `ImageFormat::WebP` into an empty
/// in-memory cursor and returns the bytes written. The lossless WebP
/// encoder is a function of the image alone, so its outcome is named
/// [`webp_of`]; it writes `RIFF`, a size and `WEBP` first whatever the
/// image, so every successful result is such a container.
#[verifier::external_body]
fn write_webp(img: &image::DynamicImage) -> (r: Result<Vec<u8>, image::ImageError>)
    ensures
        match r {
            Ok(b) => webp_of(*img) == Some(b@),
            Err(_) => webp_of(*img) is None,
        },
        r matches Ok(b) ==> is_webp_container(b@),
{
    let mut out = std::io::Cursor::new(Vec::new());
    match img.write_to(&mut out, image::ImageFormat::WebP) {
        Ok(()) => Ok(out.into_inner()),
        Err(e) => Err(e),
    }
}

/// The WebP encoding of a decoded image, flipped first when asked.
pub open spec fn transcoded(decoded: image::DynamicImage, upside_down: bool) -> Option<Seq<u8>> {
    webp_of(if upside_down { flipped(decoded) } else { decoded })
}

/// Writes a decoded image as WebP, flipped upside down exactly when asked:
/// the result is the encoder's bytes for that image, or the encoder's
/// refusal.
pub fn encode_decoded(image: image::DynamicImage, upside_down: bool) -> (r: Result<Vec<u8>, image::ImageError>)
    ensures
        match r {
            Ok(b) => transcoded(image, upside_down) == Some(b@),
            Err(_) => transcoded(image, upside_down) is None,
        },
        r matches Ok(b) ==> is_webp_container(b@),
{
    let image = if upside_down {
        flip_vertical(&image)
    } else {
        image
    };
    write_webp(&image)
}

/// Reads an image, flips it upside down exactly when asked, and writes it
/// as WebP. A success is the encoder's bytes for an image decoded from
/// `contents` (flipped when asked), and a WebP container; an encoding
/// failure means the encoder refused such an image; a decoding failure
/// means no image decodes from `contents`.
pub fn transcode(contents: &[u8], upside_down: bool) -> (r: Result<Vec<u8>, TranscodeError>)
    ensures
        match r {
            Ok(b) => exists|d: image::DynamicImage|
                decodes_to(contents@, d) && #[trigger] transcoded(d, upside_down) == Some(b@),
            Err(TranscodeError::Encode(_)) => exists|d: image::DynamicImage|
                decodes_to(contents@, d) && #[trigger] transcoded(d, upside_down) is None,
            Err(TranscodeError::Decode(_)) => forall|d: image::DynamicImage| !decodes_to(contents@, d),
        },
        r matches Ok(b) ==> is_webp_container(b@),
{
    let image = match load_image(contents) {
        Ok(image) => image,
        Err(e) => return Err(TranscodeError::Decode(e)),
    };
    let ghost decoded = image;
    match encode_decoded(image, upside_down) {
        Ok(b) => {
            proof {
                assert(decodes_to(contents@, decoded) && transcoded(decoded, upside_down) == Some(b@));
            }
            Ok(b)
        },
        Err(e) => {
            proof {
                assert(decodes_to(contents@, decoded) && transcoded(decoded, upside_down) is None);
            }
            Err(TranscodeError::Encode(e))
        },
    }
}

} // verus!
