use un_motion::native_frame::{rgb_image_ref, PixelFormat, RgbFrameError};

#[test]
fn accepts_rgb8_image_frame_as_native_rgb_ref() {
    let data = vec![255, 0, 0, 0, 255, 0];
    let rgb = rgb_image_ref(PixelFormat::Rgb8, 2, 1, 6, &data).unwrap();
    assert_eq!(rgb.width, 2);
    assert_eq!(rgb.height, 1);
    assert_eq!(rgb.stride, 6);
    assert_eq!(rgb.bytes.len(), 6);
}

#[test]
fn rejects_non_rgb8_image_frame() {
    let data = vec![0, 0, 0, 255];
    let err = rgb_image_ref(PixelFormat::Rgba8, 1, 1, 4, &data).err().expect("rgba must be rejected");
    assert!(err.message().contains("Rgb8"));
}

#[test]
fn rejects_short_image_frame_buffer() {
    let data = vec![0; 11];
    let err = rgb_image_ref(PixelFormat::Rgb8, 2, 2, 6, &data).err().expect("short buffer must be rejected");
    assert!(err.message().contains("stride * height"));
}

#[test]
fn rejects_empty_frame_dimensions() {
    let data = vec![0; 6];
    assert_eq!(rgb_image_ref(PixelFormat::Rgb8, 0, 1, 6, &data).err(), Some(RgbFrameError::EmptyFrame));
    assert_eq!(rgb_image_ref(PixelFormat::Rgb8, 2, 1, 0, &data).err(), Some(RgbFrameError::EmptyFrame));
    assert!(rgb_image_ref(PixelFormat::Rgb8, 2, 1, 6, &data[..5]).is_err());
}
