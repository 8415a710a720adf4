//! Parameter computation for a headless context.

use corell::headless::{init_params, PixelFormat};

fn custom_format() -> PixelFormat {
    PixelFormat {
        hardware_accelerated: true,
        color_bits: 30,
        alpha_bits: 2,
        depth_bits: 32,
        stencil_bits: 0,
        stereoscopy: false,
        double_buffer: false,
        multisampling: Some(4),
        srgb: true,
    }
}

#[test]
fn missing_pixel_format_falls_back_to_the_default() {
    let params = init_params(640, 480, None);
    let format = params.format;
    assert!(!format.hardware_accelerated);
    assert_eq!(format.color_bits, 24);
    assert_eq!(format.alpha_bits, 8);
    assert_eq!(format.depth_bits, 24);
    assert_eq!(format.stencil_bits, 8);
    assert!(!format.stereoscopy);
    assert!(format.double_buffer);
    assert_eq!(format.multisampling, None);
    assert!(!format.srgb);
    assert_eq!(params.num_samples, 0);
    assert_eq!(params.dimensions, (640, 480));
}

#[test]
fn given_pixel_format_passes_through() {
    let params = init_params(1920, 1080, Some(custom_format()));
    assert_eq!(params.format, custom_format());
    assert_eq!(params.num_samples, 4);
    assert_eq!(params.dimensions, (1920, 1080));
}

#[test]
fn sample_count_is_truncated_into_the_sample_type() {
    let mut format = custom_format();
    format.multisampling = Some(0x0102);
    let params = init_params(1, 1, Some(format));
    assert_eq!(params.num_samples, 2);
}

#[test]
fn dimensions_are_truncated_into_the_texture_size_type() {
    let params = init_params(0x0001_0003, 0x0002_0004, None);
    assert_eq!(params.dimensions, (3, 4));
}
