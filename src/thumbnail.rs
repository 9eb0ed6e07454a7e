use vstd::prelude::*;

verus! {

#[verifier::external_type_specification]
#[verifier::external_body]
pub struct ExDynamicImage(image::DynamicImage);

#[verifier::external_type_specification]
#[verifier::external_body]
pub struct ExImageError(image::ImageError);

/// Whether the bytes start with the signature of a built-in image format and
/// decode as an image of that format.
pub uninterp spec fn decodes(bytes: Seq<u8>) -> bool;

/// The JPEG encoding of the image in `bytes` shrunk with the triangle filter to
/// fit within `max_width` x `max_height`, when decoding and encoding succeed.
pub uninterp spec fn jpeg_thumbnail(bytes: Seq<u8>, max_width: u32, max_height: u32) -> Option<
    Seq<u8>,
>;

/// Relies on image::guess_format (the built-in signature table) and
/// image::load_from_memory_with_format (the built-in decoder of that format):
/// whether they succeed depends on the bytes alone.
#[verifier::external_body]
fn load_image(bytes: &[u8]) -> (r: Result<image::DynamicImage, image::ImageError>)
    ensures
        r is Ok <==> decodes(bytes@),
{
    let format = image::guess_format(bytes)?;
    image::load_from_memory_with_format(bytes, format)
}

/// Relies on image::guess_format, image::load_from_memory_with_format,
/// image::DynamicImage::resize with the triangle filter (aspect ratio kept,
/// largest size within the box) and image::DynamicImage::write_to with the
/// JPEG format into an in-memory buffer: the bytes written depend on the
/// input bytes and the box alone, and exist only for bytes that decode.
#[verifier::external_body]
fn shrink_to_jpeg(bytes: &[u8], max_width: u32, max_height: u32) -> (r: Result<
    Vec<u8>,
    image::ImageError,
>)
    ensures
        r is Ok <==> jpeg_thumbnail(bytes@, max_width, max_height) is Some,
        r is Ok ==> r->Ok_0@ == jpeg_thumbnail(bytes@, max_width, max_height)->Some_0,
        r is Ok ==> decodes(bytes@),
{
    let format = image::guess_format(bytes)?;
    let img = image::load_from_memory_with_format(bytes, format)?;
    let small = img.resize(max_width, max_height, image::imageops::FilterType::Triangle);
    let mut out: Vec<u8> = Vec::new();
    small.write_to(&mut std::io::Cursor::new(&mut out), image::ImageFormat::Jpeg)?;
    Ok(out)
}

/// Why an image could not be turned into a thumbnail.
#[derive(Debug, Clone, Copy, PartialEq, Eq, Structural)]
pub enum TransformError {
    /// The bytes are not an image in a format the decoder knows.
    Decode,
    /// The shrunk image could not be encoded as JPEG.
    Encode,
}

/// The thumbnail of `bytes` within `max_width` x `max_height`: the JPEG
/// encoding of the decoded image shrunk to fit the box, or why there is none.
pub fn make_thumbnail(bytes: &[u8], max_width: u32, max_height: u32) -> (r: Result<
    Vec<u8>,
    TransformError,
>)
    ensures
        !decodes(bytes@) ==> r == Err::<Vec<u8>, TransformError>(TransformError::Decode),
        decodes(bytes@) ==> match jpeg_thumbnail(bytes@, max_width, max_height) {
            Some(t) => r is Ok && r->Ok_0@ == t,
            None => r == Err::<Vec<u8>, TransformError>(TransformError::Encode),
        },
{
    match load_image(bytes) {
        Ok(_) => {},
        Err(_) => {
            return Err(TransformError::Decode);
        },
    }
    match shrink_to_jpeg(bytes, max_width, max_height) {
        Ok(out) => Ok(out),
        Err(_) => Err(TransformError::Encode),
    }
}

} // verus!
