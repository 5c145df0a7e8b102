//! Icon assets as plain pixel buffers: a decoded image is a byte buffer of
//! 32-bit RGBA pixels with explicit dimensions, and a frame set holds exactly
//! `FRAME_COUNT` such frames for each color variant. Validation failures here
//! are the fatal startup errors: a malformed asset cannot be animated.

use vstd::prelude::*;

use crate::color::ColorMode;
use crate::frame::FRAME_COUNT;

verus! {

/// Why an icon asset or a frame set was rejected at startup.
#[derive(Clone, Copy, Debug, PartialEq, Eq, Structural)]
pub enum IconError {
    /// The pixel buffer's length is not divisible by 4, so it cannot be read
    /// as 32-bit RGBA pixels.
    ByteCountNotDivisibleBy4,
    /// The pixel count, length divided by 4, differs from width times height.
    DimensionsVsPixelCount,
    /// A color variant was given a number of frames other than `FRAME_COUNT`.
    WrongFrameCount,
}

/// A decoded icon asset: RGBA bytes with their dimensions.
pub struct IconPixels {
    pub rgba: Vec<u8>,
    pub width: u32,
    pub height: u32,
}

impl IconPixels {
    /// The buffer holds exactly one 4-byte pixel per image position.
    pub open spec fn wf(self) -> bool {
        self.rgba@.len() == 4 * (self.width * self.height)
    }

    /// Validates a decoded buffer against its dimensions: accepted exactly
    /// when its length is divisible by 4 and the pixel count matches
    /// width times height, with the byte-count error reported first.
    pub fn new(rgba: Vec<u8>, width: u32, height: u32) -> (r: Result<IconPixels, IconError>)
        ensures
            r is Ok <==> rgba@.len() == 4 * (width * height),
            r matches Ok(ic) ==> ic.rgba@ == rgba@ && ic.width == width && ic.height == height
                && ic.wf(),
            r matches Err(e) ==> if rgba@.len() % 4 != 0 {
                e == IconError::ByteCountNotDivisibleBy4
            } else {
                e == IconError::DimensionsVsPixelCount
            },
    {
        let len = rgba.len();
        proof {
            vstd::arithmetic::div_mod::lemma_fundamental_div_mod(len as int, 4);
            vstd::arithmetic::div_mod::lemma_mod_multiples_basic(
                (width as int) * (height as int),
                4,
            );
            assert((width as int) * (height as int) < 0x1_0000_0000_0000_0000) by (nonlinear_arith)
                requires
                    width as int <= 0xFFFF_FFFF,
                    height as int <= 0xFFFF_FFFF,
            ;
        }
        if len % 4 != 0 {
            return Err(IconError::ByteCountNotDivisibleBy4);
        }
        if (len / 4) as u64 != (width as u64) * (height as u64) {
            return Err(IconError::DimensionsVsPixelCount);
        }
        Ok(IconPixels { rgba, width, height })
    }
}

/// The five frames of each color variant, loaded once at startup and
/// immutable thereafter.
pub struct FrameSet {
    pub dark: Vec<IconPixels>,
    pub light: Vec<IconPixels>,
}

impl FrameSet {
    /// Each variant holds exactly `FRAME_COUNT` well-formed frames.
    pub open spec fn wf(self) -> bool {
        &&& self.dark@.len() == FRAME_COUNT
        &&& self.light@.len() == FRAME_COUNT
        &&& forall|i: int| 0 <= i < FRAME_COUNT ==> (#[trigger] self.dark@[i]).wf()
        &&& forall|i: int| 0 <= i < FRAME_COUNT ==> (#[trigger] self.light@[i]).wf()
    }

    /// Builds a frame set from the two variants' frames: accepted exactly
    /// when each variant has `FRAME_COUNT` frames.
    pub fn new(dark: Vec<IconPixels>, light: Vec<IconPixels>) -> (r: Result<FrameSet, IconError>)
        requires
            forall|i: int| 0 <= i < dark@.len() ==> (#[trigger] dark@[i]).wf(),
            forall|i: int| 0 <= i < light@.len() ==> (#[trigger] light@[i]).wf(),
        ensures
            r is Ok <==> dark@.len() == FRAME_COUNT && light@.len() == FRAME_COUNT,
            r matches Ok(f) ==> f.dark@ == dark@ && f.light@ == light@ && f.wf(),
            r matches Err(e) ==> e == IconError::WrongFrameCount,
    {
        if dark.len() != FRAME_COUNT || light.len() != FRAME_COUNT {
            return Err(IconError::WrongFrameCount);
        }
        Ok(FrameSet { dark, light })
    }

    /// The frame to show for a color variant and a frame index.
    pub fn frame(&self, color: ColorMode, index: usize) -> (r: &IconPixels)
        requires
            self.wf(),
            index < FRAME_COUNT,
        ensures
            *r == if color is Dark {
                self.dark@[index as int]
            } else {
                self.light@[index as int]
            },
            r.wf(),
    {
        match color {
            ColorMode::Dark => &self.dark[index],
            ColorMode::Light => &self.light[index],
        }
    }
}

} // verus!
