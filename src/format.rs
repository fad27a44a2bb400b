use vstd::prelude::*;
use crate::error::SonifyError;

verus! {

/// The image formats that can be read.
#[derive(Clone, Copy, Debug, PartialEq, Eq, Structural)]
pub enum ImageKind {
    Png,
    Jpeg,
    Tiff,
}

/// What `str::to_lowercase` makes of a string.
pub uninterp spec fn lower_of(s: Seq<char>) -> Seq<char>;

/// Relies on `str::to_lowercase`: the result depends on the characters alone.
#[verifier::external_body]
fn lowercase(s: &str) -> (r: String)
    ensures
        r@ == lower_of(s@),
{
    s.to_lowercase()
}

/// The format named by a tag already in lower case.
pub open spec fn format_of(tag: Seq<char>) -> Result<ImageKind, SonifyError> {
    if tag == "png"@ {
        Ok(ImageKind::Png)
    } else if tag == "jpg"@ || tag == "jpeg"@ {
        Ok(ImageKind::Jpeg)
    } else if tag == "tif"@ || tag == "tiff"@ {
        Ok(ImageKind::Tiff)
    } else {
        Err(SonifyError::UnsupportedFormat)
    }
}

/// Reads a lower-case format tag: `png`, `jpg` or `jpeg`, `tif` or `tiff`.
pub fn format_from_lowercase(tag: &str) -> (r: Result<ImageKind, SonifyError>)
    ensures
        r == format_of(tag@),
{
    let t = tag.to_owned();
    if t.eq(&"png".to_owned()) {
        Ok(ImageKind::Png)
    } else if t.eq(&"jpg".to_owned()) || t.eq(&"jpeg".to_owned()) {
        Ok(ImageKind::Jpeg)
    } else if t.eq(&"tif".to_owned()) || t.eq(&"tiff".to_owned()) {
        Ok(ImageKind::Tiff)
    } else {
        Err(SonifyError::UnsupportedFormat)
    }
}

/// Reads a format tag in any case; fails with `UnsupportedFormat` on an
/// unknown one.
pub fn parse_image_format(tag: &str) -> (r: Result<ImageKind, SonifyError>)
    ensures
        r == format_of(lower_of(tag@)),
{
    let lower = lowercase(tag);
    format_from_lowercase(lower.as_str())
}

} // verus!
