//! Parameter computation for a headless rendering context.
//!
//! Creating the context itself is window-system glue outside the verified
//! core. What the core decides is computed here: the pixel format to assume
//! when the context cannot report one, and the dimensions and sample count
//! of the main render targets derived from the requested size and format.

use vstd::prelude::*;

verus! {

/// The pixel format of a headless context.
#[derive(Copy, Clone, Debug, PartialEq)]
pub struct PixelFormat {
    /// True if rendering is hardware accelerated.
    pub hardware_accelerated: bool,
    /// Bits of the color channels, without alpha.
    pub color_bits: u8,
    /// Bits of the alpha channel.
    pub alpha_bits: u8,
    /// Bits of the depth buffer.
    pub depth_bits: u8,
    /// Bits of the stencil buffer.
    pub stencil_bits: u8,
    /// True for stereoscopic output.
    pub stereoscopy: bool,
    /// True for double buffering.
    pub double_buffer: bool,
    /// Samples per pixel, if multisampling is on.
    pub multisampling: Option<u16>,
    /// True for an sRGB-capable surface.
    pub srgb: bool,
}

/// Everything context setup derives for the main render targets.
#[derive(Copy, Clone, Debug, PartialEq)]
pub struct InitParams {
    /// Width and height of the targets, in the texture size type.
    pub dimensions: (u16, u16),
    /// Samples per pixel of the targets.
    pub num_samples: u8,
    /// The pixel format assumed for the context.
    pub format: PixelFormat,
}

/// The reasonable default assumed when the context reports no pixel format
/// of its own: 24-bit color with 8-bit alpha, a 24/8 depth-stencil
/// configuration, double buffered, with no multisampling.
pub open spec fn default_pixel_format() -> PixelFormat {
    PixelFormat {
        hardware_accelerated: false,
        color_bits: 24,
        alpha_bits: 8,
        depth_bits: 24,
        stencil_bits: 8,
        stereoscopy: false,
        double_buffer: true,
        multisampling: Option::None,
        srgb: false,
    }
}

/// The pixel format setup proceeds with: the caller's, or the default.
pub open spec fn chosen_pixel_format(pixel_fmt: Option<PixelFormat>) -> PixelFormat {
    match pixel_fmt {
        Option::Some(format) => format,
        Option::None => default_pixel_format(),
    }
}

/// The sample count a pixel format implies: its multisampling count, or
/// zero, truncated into the sample-count type.
pub open spec fn samples_of(format: PixelFormat) -> u8 {
    (match format.multisampling {
        Option::Some(samples) => samples,
        Option::None => 0u16,
    }) as u8
}

/// Compute the parameters of the main render targets for a headless
/// context of the requested size: the requested dimensions truncated into
/// the texture size type, the sample count the format implies, and the
/// format itself (the caller's, or the default).
pub fn init_params(width: u32, height: u32, pixel_fmt: Option<PixelFormat>) -> (params: InitParams)
    ensures
        params.dimensions == (width as u16, height as u16),
        params.num_samples == samples_of(chosen_pixel_format(pixel_fmt)),
        params.format == chosen_pixel_format(pixel_fmt),
{
    let format = match pixel_fmt {
        Option::Some(format) => format,
        Option::None => PixelFormat {
            hardware_accelerated: false,
            color_bits: 24,
            alpha_bits: 8,
            depth_bits: 24,
            stencil_bits: 8,
            stereoscopy: false,
            double_buffer: true,
            multisampling: Option::None,
            srgb: false,
        },
    };
    let samples: u16 = match format.multisampling {
        Option::Some(samples) => samples,
        Option::None => 0,
    };
    #[verifier::truncate]
    let num_samples: u8 = samples as u8;
    #[verifier::truncate]
    let w: u16 = width as u16;
    #[verifier::truncate]
    let h: u16 = height as u16;
    InitParams { dimensions: (w, h), num_samples, format }
}

} // verus!
