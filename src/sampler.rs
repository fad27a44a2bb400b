use vstd::prelude::*;
use crate::error::SonifyError;
use crate::format::ImageKind;
use crate::song::Pixel;

verus! {

#[verifier::external_type_specification]
#[verifier::external_body]
pub struct ExImageError(image::ImageError);

/// Whether image decodes `bytes` as an image of format `kind`.
pub uninterp spec fn decodes_as(bytes: Seq<u8>, kind: ImageKind) -> bool;

/// The pixels, row by row, of the image that `bytes` decode to, resized
/// to `width` by `height` with nearest-neighbour sampling.
pub uninterp spec fn sampled_pixels_of(bytes: Seq<u8>, kind: ImageKind, width: u32, height: u32) -> Seq<Pixel>;

/// Relies on image's `io::Reader::with_format` and `Reader::decode` to
/// decode the bytes, `DynamicImage::resize_exact` with nearest-neighbour
/// sampling to bring the image to exactly `width` by `height`, and
/// `DynamicImage::to_rgba8` with `ImageBuffer::pixels` to list its pixels row
/// by row, alpha dropped. Decoding and resizing depend on their arguments
/// alone. The calls share one wrapper because the names above speak of the
/// bytes, which the decoded image no longer shows.
#[verifier::external_body]
fn decode_and_sample(bytes: &[u8], kind: ImageKind, width: u32, height: u32) -> (r: Result<Vec<Pixel>, image::ImageError>)
    requires
        width as nat * height as nat * 4 <= usize::MAX,
    ensures
        r is Ok <==> decodes_as(bytes@, kind),
        r matches Ok(p) ==> p@ == sampled_pixels_of(bytes@, kind, width, height),
        r matches Ok(p) ==> p@.len() == width as nat * height as nat,
{
    let format = match kind {
        ImageKind::Png => image::ImageFormat::Png,
        ImageKind::Jpeg => image::ImageFormat::Jpeg,
        ImageKind::Tiff => image::ImageFormat::Tiff,
    };
    let img = image::io::Reader::with_format(std::io::Cursor::new(bytes), format).decode()?;
    let resized = img.resize_exact(width, height, image::imageops::FilterType::Nearest);
    Ok(resized.to_rgba8().pixels().map(|p| (p[0], p[1], p[2])).collect())
}

/// Decodes an image and samples it on a grid of exactly `width` by `height`
/// pixels, row by row.
///
/// Fails with `InvalidArgument` when the grid is too large to address, and
/// with `DecodeFailure` when the bytes are no image of that format.
pub fn analyze_image(bytes: &[u8], kind: ImageKind, width: u32, height: u32) -> (r: Result<Vec<Pixel>, SonifyError>)
    ensures
        width as nat * height as nat * 4 > usize::MAX ==> r == Err::<Vec<Pixel>, SonifyError>(
            SonifyError::InvalidArgument,
        ),
        width as nat * height as nat * 4 <= usize::MAX ==> {
            &&& r is Ok <==> decodes_as(bytes@, kind)
            &&& r matches Ok(p) ==> p@ == sampled_pixels_of(bytes@, kind, width, height)
                && p@.len() == width as nat * height as nat
            &&& r matches Err(e) ==> e == SonifyError::DecodeFailure
        },
{
    proof {
        assert(width as nat * height as nat <= 0xffff_ffff * 0xffff_ffff) by (nonlinear_arith)
            requires
                width <= u32::MAX,
                height <= u32::MAX,
        ;
    }
    let cells: u64 = width as u64 * height as u64;
    if cells > (usize::MAX / 4) as u64 {
        return Err(SonifyError::InvalidArgument);
    }
    match decode_and_sample(bytes, kind, width, height) {
        Ok(pixels) => Ok(pixels),
        Err(_) => Err(SonifyError::DecodeFailure),
    }
}

} // verus!
