//! Frames of the animation, through the `gif` crate.
//!
//! An animation frame holds its size in 16 bits a side and at most 256
//! colours. This module checks what the `gif` crate would not accept and
//! hands a buffer's pixels to it.

use crate::image_buf::ImageBuf;
use gif::Frame;
use vstd::prelude::*;

verus! {

/// `gif::Frame`: one frame of an animation, ready to be written. The library
/// only hands it through.
#[verifier::external_type_specification]
#[verifier::external_body]
pub struct ExFrame<'a>(Frame<'a>);

/// The frame that `gif::Frame::from_rgb_speed` makes of `width * height`
/// pixels over the bytes `pixels` at the quantization speed `speed`.
pub uninterp spec fn rgb_frame(width: u16, height: u16, pixels: Seq<u8>, speed: i32) -> Frame<
    'static,
>;

/// Calls `gif::Frame::from_rgb_speed`, which panics unless `pixels` holds
/// three bytes for each pixel and `speed` lies between 1 and 30. The contract
/// only says that the frame is the one named by [`rgb_frame`]: it depends on
/// nothing but the arguments.
#[verifier::external_body]
fn frame_from_rgb(width: u16, height: u16, pixels: &[u8], speed: i32) -> (frame: Frame<'static>)
    requires
        pixels@.len() == width * height * 3,
        1 <= speed <= 30,
    ensures
        frame == rgb_frame(width, height, pixels@, speed),
{
    Frame::from_rgb_speed(width, height, pixels, speed)
}

/// Why a buffer did not give an animation frame.
#[derive(Clone, Copy, Debug, PartialEq, Eq, Structural)]
pub enum FrameError {
    /// The buffer has more than 65535 columns.
    TooWide,
    /// The buffer has more than 65535 rows.
    TooTall,
    /// The quantization speed does not lie between 1 and 30.
    Speed,
}

/// The lowest quantization speed: the slowest and the most exact.
pub const MIN_SPEED: i32 = 1;

/// The highest quantization speed.
pub const MAX_SPEED: i32 = 30;

/// The size of `image` as an animation holds it, unless a side of it does not
/// fit in 16 bits.
pub fn frame_size(image: &ImageBuf) -> (size: Result<(u16, u16), FrameError>)
    ensures
        image@.width > 0xffff ==> size == Err::<(u16, u16), FrameError>(FrameError::TooWide),
        image@.width <= 0xffff && image@.height > 0xffff ==> size == Err::<
            (u16, u16),
            FrameError,
        >(FrameError::TooTall),
        image@.width <= 0xffff && image@.height <= 0xffff ==> size == Ok::<
            (u16, u16),
            FrameError,
        >((image@.width as u16, image@.height as u16)),
{
    let width: u32 = image.width();
    let height: u32 = image.height();
    if width > 0xffff {
        Err(FrameError::TooWide)
    } else if height > 0xffff {
        Err(FrameError::TooTall)
    } else {
        Ok((width as u16, height as u16))
    }
}

/// The animation frame of the pixels of `image`, quantized at `speed`, unless
/// the image is too large for a frame or the speed is out of range.
pub fn animation_frame(image: &ImageBuf, speed: i32) -> (out: Result<Frame<'static>, FrameError>)
    requires
        image.wf(),
    ensures
        image@.width > 0xffff ==> out == Err::<Frame<'static>, FrameError>(FrameError::TooWide),
        image@.width <= 0xffff && image@.height > 0xffff ==> out == Err::<
            Frame<'static>,
            FrameError,
        >(FrameError::TooTall),
        image@.width <= 0xffff && image@.height <= 0xffff && !(MIN_SPEED <= speed <= MAX_SPEED)
            ==> out == Err::<Frame<'static>, FrameError>(FrameError::Speed),
        image@.width <= 0xffff && image@.height <= 0xffff && MIN_SPEED <= speed <= MAX_SPEED
            ==> out == Ok::<Frame<'static>, FrameError>(
            rgb_frame(image@.width as u16, image@.height as u16, image@.bytes, speed),
        ),
{
    let (width, height) = match frame_size(image) {
        Ok(size) => size,
        Err(error) => {
            return Err(error);
        },
    };
    if speed < MIN_SPEED || speed > MAX_SPEED {
        return Err(FrameError::Speed);
    }
    Ok(frame_from_rgb(width, height, image.as_slice(), speed))
}

} // verus!
