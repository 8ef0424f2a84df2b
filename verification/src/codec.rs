use crate::raster::{Raster, RasterView};
use vstd::prelude::*;

verus! {

/// Width of every transported image, in pixels.
pub const DISPLAY_WIDTH: u32 = 640;

/// Height of every transported image, in pixels.
pub const DISPLAY_HEIGHT: u32 = 360;

/// Bytes of one column of the resampler's intermediate image: sixteen for
/// each row of the display.
const COLUMN_BYTES: u64 = 5760;

/// The error type of the `image` crate. Nothing is read from it.
#[verifier::external_type_specification]
#[verifier::external_body]
pub struct ExImageError(image::ImageError);

/// The samples that `image::imageops::resize` returns, with the
/// nearest-neighbour filter, for the RGB image of the first three arguments
/// and the new width and height of the last two.
pub uninterp spec fn resampled_nearest(
    width: int,
    height: int,
    samples: Seq<u8>,
    new_width: int,
    new_height: int,
) -> Seq<u8>;

/// The bytes that the `image` crate writes for an RGB image in the BMP
/// format, or `None` where its encoder reports an error.
pub uninterp spec fn bitmap_bytes(width: int, height: int, samples: Seq<u8>) -> Option<Seq<u8>>;

/// Resamples an RGB image with `image::imageops::resize` and
/// `FilterType::Nearest`.
///
/// Believed of that function: it returns three samples for each pixel of
/// the new size, and the same samples whenever it is given the same image
/// and size. It is called only where its intermediate image, `width` by
/// `new_height` pixels of four `f32` samples, and its result stay within
/// `isize::MAX` bytes: a larger buffer makes it panic.
#[verifier::external_body]
fn resize_nearest(width: u32, height: u32, samples: &Vec<u8>, new_width: u32, new_height: u32) -> (resized:
    Vec<u8>)
    requires
        samples@.len() == width * height * 3,
        width * new_height * 16 <= isize::MAX,
        new_width * new_height * 3 <= isize::MAX,
    ensures
        resized@ == resampled_nearest(
            width as int,
            height as int,
            samples@,
            new_width as int,
            new_height as int,
        ),
        resized@.len() == new_width * new_height * 3,
{
    let source = image::ImageBuffer::<image::Rgb<u8>, &[u8]>::from_raw(
        width,
        height,
        samples.as_slice(),
    ).unwrap();
    let filter = image::imageops::FilterType::Nearest;
    image::imageops::resize(&source, new_width, new_height, filter).into_raw()
}

/// Writes an RGB image to memory with `ImageBuffer::write_to` and
/// `ImageOutputFormat::Bmp`.
///
/// Believed of that function: whether it reports an error, and the bytes it
/// writes where it does not, depend on the image alone. It is called only
/// where three times the width and three times the height fit in 32 bits:
/// its row arithmetic multiplies them unchecked.
#[verifier::external_body]
fn write_bitmap(width: u32, height: u32, samples: &Vec<u8>) -> (written: Result<
    Vec<u8>,
    image::ImageError,
>)
    requires
        samples@.len() == width * height * 3,
        width * 3 <= u32::MAX,
        height * 3 <= u32::MAX,
    ensures
        match written {
            Ok(bytes) => bitmap_bytes(width as int, height as int, samples@) == Some(bytes@),
            Err(_) => bitmap_bytes(width as int, height as int, samples@) is None,
        },
{
    let source = image::ImageBuffer::<image::Rgb<u8>, &[u8]>::from_raw(
        width,
        height,
        samples.as_slice(),
    ).unwrap();
    let mut sink = std::io::Cursor::new(Vec::new());
    source.write_to(&mut sink, image::ImageOutputFormat::Bmp).map(|_| sink.into_inner())
}

/// Why a raster could not be encoded.
#[derive(Clone, Copy, Debug, PartialEq, Eq, Structural)]
pub enum EncodeError {
    /// The raster is too wide for the resampler's intermediate image to be
    /// addressed on this machine.
    TooWide,
    /// The bitmap encoder reported an error.
    Rejected,
}

/// Whether a raster of this width can be resampled to the display height:
/// the intermediate image has `width` by `DISPLAY_HEIGHT` pixels of sixteen
/// bytes each.
pub open spec fn resampling_fits(width: nat) -> bool {
    width * DISPLAY_HEIGHT * 16 <= isize::MAX
}

/// The samples of a raster brought to the display size.
pub open spec fn display_samples(view: RasterView) -> Seq<u8> {
    resampled_nearest(
        view.width as int,
        view.height as int,
        view.samples,
        DISPLAY_WIDTH as int,
        DISPLAY_HEIGHT as int,
    )
}

/// The bitmap that transports a raster: the raster at the display size, in
/// the BMP format; `None` where the encoder reports an error.
pub open spec fn encoded_bitmap(view: RasterView) -> Option<Seq<u8>> {
    bitmap_bytes(DISPLAY_WIDTH as int, DISPLAY_HEIGHT as int, display_samples(view))
}

/// Turns the bitmap writer's answer into the codec's: the bytes as they
/// are, and any error of the writer as `Rejected`.
pub fn encoding_outcome(written: Result<Vec<u8>, image::ImageError>) -> (result: Result<
    Vec<u8>,
    EncodeError,
>)
    ensures
        match written {
            Ok(bytes) => result == Ok::<Vec<u8>, EncodeError>(bytes),
            Err(_) => result == Err::<Vec<u8>, EncodeError>(EncodeError::Rejected),
        },
{
    match written {
        Ok(bytes) => Ok(bytes),
        Err(_) => Err(EncodeError::Rejected),
    }
}

/// Encodes a raster for transport: brought to 640 by 360 pixels by
/// nearest-neighbour sampling, then written as a bitmap.
pub fn encode(raster: &Raster) -> (result: Result<Vec<u8>, EncodeError>)
    requires
        raster.wf(),
    ensures
        match result {
            Ok(bytes) => resampling_fits(raster@.width) && encoded_bitmap(raster@) == Some(bytes@),
            Err(EncodeError::TooWide) => !resampling_fits(raster@.width),
            Err(EncodeError::Rejected) => resampling_fits(raster@.width) && encoded_bitmap(
                raster@,
            ) is None,
        },
{
    let width: u32 = raster.width();
    assert(width * COLUMN_BYTES == width * DISPLAY_HEIGHT * 16);
    let needed: u64 = width as u64 * COLUMN_BYTES;
    if needed > isize::MAX as u64 {
        return Err(EncodeError::TooWide);
    }
    let resized = resize_nearest(
        raster.width(),
        raster.height(),
        raster.as_raw(),
        DISPLAY_WIDTH,
        DISPLAY_HEIGHT,
    );
    encoding_outcome(write_bitmap(DISPLAY_WIDTH, DISPLAY_HEIGHT, &resized))
}

/// Encoding is a function of the raster's content: rasters of one size with
/// the same samples have the same bitmap.
pub proof fn lemma_encoding_is_deterministic(first: RasterView, second: RasterView)
    requires
        first.width == second.width,
        first.height == second.height,
        first.samples =~= second.samples,
    ensures
        encoded_bitmap(first) == encoded_bitmap(second),
{
}

} // verus!
