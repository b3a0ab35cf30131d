use vstd::prelude::*;
use crate::error::{RogueError, RogueResult};

verus! {

/// image's `ImageFormat`, the encoding a font image is decoded from; passed
/// to the decoder, never read.
#[verifier::external_type_specification]
#[verifier::external_body]
pub struct ExImageFormat(image::ImageFormat);

/// image's `ImageError`, a failure to decode; mapped to `RogueError::BadFont`.
#[verifier::external_type_specification]
#[verifier::external_body]
pub struct ExImageError(image::ImageError);

/// What decoding `data` as an image in `format` gives: its width and height
/// in pixels and its pixels as RGBA bytes, row by row.
pub uninterp spec fn decoded_rgba(data: Seq<u8>, format: image::ImageFormat) -> Option<(u32, u32, Seq<u8>)>;

/// Relies on `image::load_from_memory_with_format` to decode the image, and on
/// `DynamicImage::to_rgba8` with `ImageBuffer::into_raw` for its RGBA bytes;
/// the outcome depends on the bytes and the format alone.
#[verifier::external_body]
fn decode_rgba(data: &[u8], format: image::ImageFormat) -> (r: Result<(u32, u32, Vec<u8>), image::ImageError>)
    ensures
        r matches Ok((w, h, px)) ==> decoded_rgba(data@, format) == Some((w, h, px@)),
        r matches Ok((w, h, px)) ==> px@.len() == 4 * w * h,
        r is Err ==> decoded_rgba(data@, format) is None,
{
    match image::load_from_memory_with_format(data, format) {
        Ok(img) => {
            let (w, h) = image::GenericImageView::dimensions(&img);
            Ok((w, h, img.to_rgba8().into_raw()))
        },
        Err(e) => Err(e),
    }
}

/// The little-endian 32-bit word made of four bytes.
pub open spec fn le_word(b0: u8, b1: u8, b2: u8, b3: u8) -> u32 {
    (b0 + b1 * 0x100 + b2 * 0x1_0000 + b3 * 0x100_0000) as u32
}

/// RGBA bytes taken four at a time as packed colours (red in the low byte);
/// trailing bytes that make no whole pixel are dropped.
pub open spec fn rgba_words(b: Seq<u8>) -> Seq<u32> {
    Seq::new(
        (b.len() / 4) as nat,
        |i: int| le_word(b[4 * i], b[4 * i + 1], b[4 * i + 2], b[4 * i + 3]),
    )
}

/// A font atlas: 16 × 16 glyphs of `width × height` pixels each, with the
/// atlas's pixels as packed colours.
pub struct RogueFontData {
    data: Vec<u32>,
    width: u32,
    height: u32,
}

impl RogueFontData {
    #[verifier::type_invariant]
    spec fn glyph_has_area(&self) -> bool {
        self.width > 0 && self.height > 0
    }

    /// The atlas's pixels.
    pub closed spec fn spec_data(&self) -> Seq<u32> {
        self.data@
    }

    /// The width of one glyph in pixels.
    pub closed spec fn spec_width(&self) -> u32 {
        self.width
    }

    /// The height of one glyph in pixels.
    pub closed spec fn spec_height(&self) -> u32 {
        self.height
    }

    pub fn data(&self) -> (r: &Vec<u32>)
        ensures
            r@ == self.spec_data(),
    {
        &self.data
    }

    pub fn width(&self) -> (r: u32)
        ensures
            r == self.spec_width(),
            r > 0,
    {
        proof {
            use_type_invariant(self);
        }
        self.width
    }

    pub fn height(&self) -> (r: u32)
        ensures
            r == self.spec_height(),
            r > 0,
    {
        proof {
            use_type_invariant(self);
        }
        self.height
    }
}

/// Builds a font from an atlas of `width × height` pixels given as RGBA bytes:
/// each glyph is a sixteenth of the atlas in each direction, and an atlas
/// under 16 pixels in either direction is refused.
pub fn font_from_rgba(width: u32, height: u32, rgba: &Vec<u8>) -> (r: RogueResult<RogueFontData>)
    ensures
        r is Ok <==> (width >= 16 && height >= 16),
        r is Err ==> r matches Err(RogueError::BadFont),
        r matches Ok(f) ==> {
            &&& f.spec_width() == width / 16
            &&& f.spec_height() == height / 16
            &&& f.spec_data() == rgba_words(rgba@)
        },
{
    let char_width = width / 16;
    let char_height = height / 16;
    if char_width == 0 || char_height == 0 {
        return Err(RogueError::BadFont);
    }
    Ok(RogueFontData { data: pack_words(rgba), width: char_width, height: char_height })
}

/// Packs RGBA bytes into colours, four bytes to a colour.
fn pack_words(b: &Vec<u8>) -> (r: Vec<u32>)
    ensures
        r@ == rgba_words(b@),
{
    let len: usize = b.len();
    let n: usize = len / 4;
    let mut r: Vec<u32> = Vec::new();
    let mut i: usize = 0;
    while i < n
        invariant
            i <= n,
            len == b@.len(),
            n == b@.len() / 4,
            r@ == rgba_words(b@).subrange(0, i as int),
        decreases n - i,
    {
        let k: usize = 4 * i;
        let w: u32 = (b[k] as u32) + (b[k + 1] as u32) * 0x100 + (b[k + 2] as u32) * 0x1_0000 + (
        b[k + 3] as u32) * 0x100_0000;
        r.push(w);
        i = i + 1;
        assert(r@ =~= rgba_words(b@).subrange(0, i as int));
    }
    assert(r@ =~= rgba_words(b@));
    r
}

/// Decodes a font atlas image of 16 × 16 glyphs.
pub fn load_font_image(data: &[u8], format: image::ImageFormat) -> (r: RogueResult<RogueFontData>)
    ensures
        r is Ok <==> (decoded_rgba(data@, format) matches Some((w, h, px)) && w >= 16 && h >= 16),
        r is Err ==> r matches Err(RogueError::BadFont),
        r matches Ok(f) ==> (decoded_rgba(data@, format) matches Some((w, h, px)) && f.spec_width()
            == w / 16 && f.spec_height() == h / 16 && f.spec_data() == rgba_words(px)
            && f.spec_data().len() == w * h),
{
    match decode_rgba(data, format) {
        Ok((w, h, px)) => {
            assert(px@.len() / 4 == w * h) by (nonlinear_arith)
                requires
                    px@.len() == 4 * w * h,
            ;
            font_from_rgba(w, h, &px)
        },
        Err(_) => Err(RogueError::BadFont),
    }
}

} // verus!
