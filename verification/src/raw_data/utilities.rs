use vstd::prelude::*;
use vstd::string::StringExecFns;

verus! {

#[verifier::external_type_specification]
#[verifier::external_body]
pub struct ExDynamicImage(image::DynamicImage);

#[verifier::external_type_specification]
#[verifier::external_body]
pub struct ExImageError(image::ImageError);

/// Whether an image can be re-encoded as PNG.  Encoding into an in-memory
/// buffer succeeds or fails as a function of the image alone (it fails, for
/// instance, on zero-sized images and on sample types PNG has no
/// representation for).
pub uninterp spec fn png_encodes(img: image::DynamicImage) -> bool;

/// The bytes of the lossless PNG re-encoding of an image that can be so
/// encoded.
pub uninterp spec fn png_bytes_of(img: image::DynamicImage) -> Seq<u8>;

/// The standard-alphabet, padded base64 text of a byte sequence.
pub uninterp spec fn base64_of(bytes: Seq<u8>) -> Seq<char>;

/// Why an image could not be turned into a base64 payload.
#[derive(Debug, Clone, Copy, PartialEq, Eq, Structural)]
pub enum EncodeError {
    /// The image could not be re-encoded as PNG.
    ImageEncoding,
    /// The re-encoded image is too large to base64-encode.
    PayloadTooLarge,
}

/// Relies on `image::DynamicImage::write_to` with `ImageFormat::Png`:
/// writing to an in-memory cursor, both whether it succeeds and, on success,
/// the bytes it wrote are functions of the image alone.
#[verifier::external_body]
fn png_encode(img: &image::DynamicImage) -> (r: Result<Vec<u8>, image::ImageError>)
    ensures
        r is Ok <==> png_encodes(*img),
        r matches Ok(bytes) ==> bytes@ == png_bytes_of(*img),
{
    let mut raw: Vec<u8> = Vec::new();
    match img.write_to(&mut std::io::Cursor::new(&mut raw), image::ImageFormat::Png) {
        Ok(()) => Ok(raw),
        Err(e) => Err(e),
    }
}

/// Relies on `base64::engine::general_purpose::STANDARD`'s `encode`: the
/// standard-alphabet, padded base64 text of the bytes, a function of the
/// bytes alone; empty input gives empty output.  The length bound keeps the
/// encoder's output-size computation from overflowing `usize`.
#[verifier::external_body]
fn base64_encode(bytes: &Vec<u8>) -> (r: String)
    requires
        bytes@.len() <= usize::MAX / 2,
    ensures
        r@ == base64_of(bytes@),
        bytes@.len() == 0 ==> r@.len() == 0,
{
    base64::Engine::encode(&base64::engine::general_purpose::STANDARD, bytes)
}

/// Re-encodes an image as PNG and base64-encodes the PNG bytes.  Succeeds
/// exactly when the image can be PNG-encoded and the encoding is small
/// enough to base64-encode.
pub fn dynamic_image_to_base64(image: &image::DynamicImage) -> (r: Result<String, EncodeError>)
    ensures
        r is Ok <==> png_encodes(*image) && png_bytes_of(*image).len() <= usize::MAX / 2,
        r matches Ok(s) ==> s@ == base64_of(png_bytes_of(*image)),
        !png_encodes(*image) ==> r == Err::<String, EncodeError>(EncodeError::ImageEncoding),
        png_encodes(*image) && png_bytes_of(*image).len() > usize::MAX / 2 ==> r == Err::<
            String,
            EncodeError,
        >(EncodeError::PayloadTooLarge),
{
    let raw_image_bytes: Vec<u8> = match png_encode(image) {
        Ok(bytes) => bytes,
        Err(_) => {
            return Err(EncodeError::ImageEncoding);
        },
    };
    if raw_image_bytes.len() > usize::MAX / 2 {
        return Err(EncodeError::PayloadTooLarge);
    }
    Ok(base64_encode(&raw_image_bytes))
}

/// The data URI wrapped around a base64 payload: the PNG media-type header
/// followed by the payload.
pub open spec fn spec_image_data_uri(payload: Seq<char>) -> Seq<char> {
    "data:image/png;base64,"@ + payload
}

/// Wraps the base64 encoding of the given PNG bytes as a data URI, ready to
/// be sent as the image part of a chat request.
pub fn image_data_uri(png_bytes: &Vec<u8>) -> (r: String)
    requires
        png_bytes@.len() <= usize::MAX / 2,
    ensures
        r@ == spec_image_data_uri(base64_of(png_bytes@)),
{
    let payload: String = base64_encode(png_bytes);
    let mut uri: String = String::from_str("data:image/png;base64,");
    uri.append(payload.as_str());
    uri
}

/// Builds the image part of a chat request: the image re-encoded as PNG,
/// base64-encoded and wrapped as a data URI.  Succeeds exactly when the
/// image can be PNG-encoded and the encoding is small enough to
/// base64-encode.
pub fn build_image_content(image: &image::DynamicImage) -> (r: Result<String, EncodeError>)
    ensures
        r is Ok <==> png_encodes(*image) && png_bytes_of(*image).len() <= usize::MAX / 2,
        r matches Ok(s) ==> s@ == spec_image_data_uri(base64_of(png_bytes_of(*image))),
        !png_encodes(*image) ==> r == Err::<String, EncodeError>(EncodeError::ImageEncoding),
        png_encodes(*image) && png_bytes_of(*image).len() > usize::MAX / 2 ==> r == Err::<
            String,
            EncodeError,
        >(EncodeError::PayloadTooLarge),
{
    let raw_image_bytes: Vec<u8> = match png_encode(image) {
        Ok(bytes) => bytes,
        Err(_) => {
            return Err(EncodeError::ImageEncoding);
        },
    };
    if raw_image_bytes.len() > usize::MAX / 2 {
        return Err(EncodeError::PayloadTooLarge);
    }
    Ok(image_data_uri(&raw_image_bytes))
}

} // verus!
