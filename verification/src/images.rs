use vstd::prelude::*;
use std::io::Cursor;
use image::imageops::thumbnail;
use image::{ImageReader, RgbaImage};

verus! {

/// What `image` decodes `data` to, as RGBA with eight bits a channel: width, height and the
/// channel bytes row by row; `None` where the format is not recognised or the data does not
/// decode.
pub uninterp spec fn decoded_rgba(data: Seq<u8>) -> Option<(u32, u32, Seq<u8>)>;

/// The channel bytes of `image::imageops::thumbnail` of the RGBA image of the given size and
/// bytes, scaled to `new_width` by `new_height`.
pub uninterp spec fn thumbnail_rgba(
    width: u32,
    height: u32,
    pixels: Seq<u8>,
    new_width: u32,
    new_height: u32,
) -> Seq<u8>;

/// `ImageReader::with_guessed_format`, `ImageReader::decode` and `DynamicImage::into_rgba8` on
/// `data`: the decoded image, or `None` where either call fails. An RGBA image buffer holds
/// exactly four bytes for each pixel.
#[verifier::external_body]
fn decode_rgba(data: &[u8]) -> (r: Option<(u32, u32, Vec<u8>)>)
    ensures
        r is None <==> decoded_rgba(data@) is None,
        r matches Some(t) ==> decoded_rgba(data@) == Some((t.0, t.1, t.2@)),
        r matches Some(t) ==> t.2@.len() == 4 * t.0 * t.1,
{
    let reader = ImageReader::new(Cursor::new(data)).with_guessed_format().ok()?;
    let image = reader.decode().ok()?.into_rgba8();
    Some((image.width(), image.height(), image.into_raw()))
}

/// `RgbaImage::from_raw` on the given size and bytes, then `image::imageops::thumbnail` of it
/// and the thumbnail's bytes. `from_raw` refuses bytes too few for the size, so those are left
/// out. The thumbnail has exactly the size asked for.
#[verifier::external_body]
fn scale_rgba(width: u32, height: u32, pixels: Vec<u8>, new_width: u32, new_height: u32) -> (r:
    Vec<u8>)
    requires
        4 * width * height <= pixels@.len(),
    ensures
        r@ == thumbnail_rgba(width, height, pixels@, new_width, new_height),
        r@.len() == 4 * new_width * new_height,
{
    let image = RgbaImage::from_raw(width, height, pixels).unwrap();
    thumbnail(&image, new_width, new_height).into_raw()
}

/// The side of the square that album art is shrunk to for a thumbnail.
pub const THUMBNAIL_SIZE: u32 = 80;

/// RGBA bytes with red and blue swapped in every pixel: BGRA, the order the renderer takes.
pub open spec fn swap_red_blue(pixels: Seq<u8>) -> Seq<u8> {
    Seq::new(
        pixels.len(),
        |i: int|
            if i % 4 == 0 {
                pixels[i + 2]
            } else if i % 4 == 2 {
                pixels[i - 2]
            } else {
                pixels[i]
            },
    )
}

/// Swaps red and blue in every pixel of RGBA bytes.
pub fn rgb_to_bgr(pixels: &mut Vec<u8>)
    requires
        old(pixels)@.len() % 4 == 0,
    ensures
        final(pixels)@ == swap_red_blue(old(pixels)@),
{
    let len = pixels.len();
    let mut i: usize = 0;
    while i < len
        invariant
            len == pixels@.len(),
            len == old(pixels)@.len(),
            len % 4 == 0,
            i % 4 == 0,
            i <= len,
            forall|j: int| 0 <= j < i ==> pixels@[j] == swap_red_blue(old(pixels)@)[j],
            forall|j: int| i <= j < len ==> pixels@[j] == old(pixels)@[j],
        decreases len - i,
    {
        let red = pixels[i];
        let blue = pixels[i + 2];
        pixels.set(i, blue);
        pixels.set(i + 2, red);
        i = i + 4;
    }
    proof {
        assert(pixels@ =~= swap_red_blue(old(pixels)@));
    }
}

/// A decoded image ready to draw: its size and its bytes, four a pixel in BGRA order, row by row.
#[derive(Clone, Debug)]
pub struct DecodedImage {
    pub width: u32,
    pub height: u32,
    pub pixels: Vec<u8>,
}

/// What decoding `data` gives: the image with red and blue swapped, shrunk to a thumbnail when
/// `thumb` is set; `None` where the data does not decode.
pub open spec fn decoded_image_spec(data: Seq<u8>, thumb: bool) -> Option<(u32, u32, Seq<u8>)> {
    match decoded_rgba(data) {
        None => None,
        Some((w, h, px)) => if thumb {
            Some(
                (
                    THUMBNAIL_SIZE,
                    THUMBNAIL_SIZE,
                    thumbnail_rgba(w, h, swap_red_blue(px), THUMBNAIL_SIZE, THUMBNAIL_SIZE),
                ),
            )
        } else {
            Some((w, h, swap_red_blue(px)))
        },
    }
}

/// Decodes encoded image data (album art) into an image ready to draw, shrunk to a thumbnail
/// when `thumb` is set; `None` where the data does not decode.
pub fn decode_image(data: &[u8], thumb: bool) -> (r: Option<DecodedImage>)
    ensures
        match decoded_image_spec(data@, thumb) {
            None => r is None,
            Some((w, h, px)) => r matches Some(img) && img.width == w && img.height == h
                && img.pixels@ == px,
        },
{
    match decode_rgba(data) {
        None => None,
        Some((width, height, pixels)) => {
            let mut pixels = pixels;
            proof {
                let n: int = width as int * height as int;
                vstd::arithmetic::div_mod::lemma_mod_multiples_basic(n, 4);
                assert(pixels@.len() == n * 4) by (nonlinear_arith)
                    requires
                        pixels@.len() == 4 * width * height,
                        n == width as int * height as int,
                ;
            }
            rgb_to_bgr(&mut pixels);
            if thumb {
                let scaled = scale_rgba(width, height, pixels, THUMBNAIL_SIZE, THUMBNAIL_SIZE);
                Some(DecodedImage { width: THUMBNAIL_SIZE, height: THUMBNAIL_SIZE, pixels: scaled })
            } else {
                Some(DecodedImage { width, height, pixels })
            }
        },
    }
}

} // verus!
