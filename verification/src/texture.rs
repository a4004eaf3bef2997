//! Decoding a PNG file into a texture of 8-bit RGB pixels.

use std::io::Cursor;
use vstd::prelude::*;

verus! {

/// The error type of the `image` crate.
#[verifier::external_type_specification]
#[verifier::external_body]
pub struct ExImageError(image::ImageError);

/// An image of 8-bit RGB pixels: three bytes per pixel, rows from the top,
/// each row from the left.
#[derive(Debug)]
pub struct RgbImage {
    width: u32,
    height: u32,
    data: Vec<u8>,
}

/// What an [`RgbImage`] stands for.
pub struct RgbImageView {
    pub width: u32,
    pub height: u32,
    pub data: Seq<u8>,
}

/// The number of bytes that `width` times `height` RGB pixels take.
pub open spec fn rgb_len(width: u32, height: u32) -> int {
    3 * (width as int) * (height as int)
}

/// An image with its dimensions, width first.
pub type Img = (RgbImage, (u32, u32));

/// Why a texture could not be loaded.
#[derive(Debug)]
pub enum LoadError {
    /// The decoder refused the file.
    Decode(image::ImageError),
}

impl View for RgbImage {
    type V = RgbImageView;

    closed spec fn view(&self) -> RgbImageView {
        RgbImageView { width: self.width, height: self.height, data: self.data@ }
    }
}

impl RgbImage {
    #[verifier::type_invariant]
    spec fn well_formed(&self) -> bool {
        self.data@.len() == rgb_len(self.width, self.height)
    }

    /// Makes an image of `width` by `height` pixels out of its bytes, if
    /// there are exactly as many as that many pixels take.
    pub fn from_raw(width: u32, height: u32, data: Vec<u8>) -> (image: Option<RgbImage>)
        ensures
            image is Some <==> data@.len() == rgb_len(width, height),
            image matches Some(image) ==> image@ == (RgbImageView { width, height, data: data@ }),
    {
        assert(0 <= width * height <= 0xffff_ffff * 0xffff_ffff) by (nonlinear_arith)
            requires
                0 <= width <= 0xffff_ffff,
                0 <= height <= 0xffff_ffff,
        ;
        let pixels: u64 = (width as u64) * (height as u64);
        let len: u64 = data.len() as u64;
        assert(rgb_len(width, height) == 3 * (width * height)) by (nonlinear_arith);
        if len % 3 == 0 && len / 3 == pixels {
            Some(RgbImage { width, height, data })
        } else {
            None
        }
    }

    /// The width and height of this image.
    pub fn dimensions(&self) -> (dimensions: (u32, u32))
        ensures
            dimensions == (self@.width, self@.height),
    {
        (self.width, self.height)
    }

    /// The bytes of this image; there are three for each pixel.
    pub fn as_raw(&self) -> (data: &Vec<u8>)
        ensures
            data@ == self@.data,
            data@.len() == rgb_len(self@.width, self@.height),
    {
        proof {
            use_type_invariant(self);
        }
        &self.data
    }
}

/// What the `image` crate makes of `bytes`, read as a PNG file and converted
/// to 8-bit RGB; `None` where it refuses them.
pub uninterp spec fn decoded_png(bytes: Seq<u8>) -> Option<RgbImageView>;

/// Decodes `bytes` as a PNG file with `image::load`, converts the picture to
/// 8-bit RGB with `DynamicImage::to_rgb8`, and hands out the buffer of the
/// result with its width and height.
///
/// The contract names the outcome [`decoded_png`], and claims of the buffer
/// what `ImageBuffer::new` shows: it holds three bytes for each pixel.
#[verifier::external_body]
fn decode_png(bytes: &[u8]) -> (decoded: Result<(u32, u32, Vec<u8>), image::ImageError>)
    ensures
        match decoded {
            Ok((width, height, data)) => {
                &&& decoded_png(bytes@) == Some(RgbImageView { width, height, data: data@ })
                &&& data@.len() == rgb_len(width, height)
            },
            Err(_) => decoded_png(bytes@) is None,
        },
{
    let picture = image::load(Cursor::new(bytes), image::ImageFormat::Png)?;
    let rgb = picture.to_rgb8();
    let (width, height) = rgb.dimensions();
    Ok((width, height, rgb.into_raw()))
}

/// Returns the texture that the PNG file `bytes` holds, with its dimensions.
pub fn load_image(bytes: &[u8]) -> (loaded: Result<Img, LoadError>)
    ensures
        match loaded {
            Ok((image, dimensions)) => {
                &&& decoded_png(bytes@) == Some(image@)
                &&& dimensions == (image@.width, image@.height)
            },
            Err(_) => decoded_png(bytes@) is None,
        },
{
    match decode_png(bytes) {
        Ok((width, height, data)) => {
            let image = RgbImage::from_raw(width, height, data).unwrap();
            let dimensions = image.dimensions();
            Ok((image, dimensions))
        },
        Err(error) => Err(LoadError::Decode(error)),
    }
}

} // verus!
