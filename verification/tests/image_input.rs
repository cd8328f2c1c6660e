use std::io::Cursor;

use un_motion::file_image::{FileImageEmissionMode, ImageResizeOptions, ResizeAxis, RgbaColor};
use un_motion::image_source::{resize_rgba, FileImageInputConfig, FileImageInputSource};

fn test_image_png() -> Vec<u8> {
    let image = image::RgbaImage::from_fn(2, 1, |x, _| {
        if x == 0 {
            image::Rgba([255, 0, 0, 255])
        } else {
            image::Rgba([0, 255, 0, 255])
        }
    });
    let mut bytes = Cursor::new(Vec::new());
    image.write_to(&mut bytes, image::ImageFormat::Png).unwrap();
    bytes.into_inner()
}

#[test]
fn once_source_emits_only_one_frame() {
    let mut source = FileImageInputSource::open_once(
        "once-source.png".to_string(),
        Some("once-source.png".to_string()),
        &test_image_png(),
    )
    .unwrap();
    let first = source.next_image_frame(0, 10, 0).expect("first frame");
    assert_eq!(first.width, 2);
    assert_eq!(first.height, 1);
    assert_eq!(first.stride_bytes, 6);
    assert_eq!(first.data, vec![255, 0, 0, 0, 255, 0]);
    assert_eq!(first.source_id, "file-image:once-source.png");
    assert!(source.next_image_frame(1_000_000_000, 20, 0).is_none());
}

#[test]
fn resize_can_letterbox_to_requested_canvas() {
    let mut config = FileImageInputConfig::once("letterbox-source.png".to_string(), None);
    config.resize = Some(ImageResizeOptions {
        preserve_aspect_ratio: true,
        reference_axis: ResizeAxis::Width,
        reference_length: 4,
        output_width: 4,
        output_height: 4,
        pad_color: RgbaColor { r: 1, g: 2, b: 3, a: 255 },
    });
    let mut source = FileImageInputSource::open(config, &test_image_png()).unwrap();
    let frame = source.next_image_frame(0, 0, 0).expect("frame");
    assert_eq!((frame.width, frame.height), (4, 4));
    assert_eq!(&frame.data[..3], &[1, 2, 3]);
    assert_eq!(frame.data.len(), 4 * 4 * 3);
}

#[test]
fn repeat_source_waits_for_its_interval() {
    let mut config = FileImageInputConfig::once("repeat.png".to_string(), None);
    config.emission_mode = FileImageEmissionMode::RepeatFps(10);
    let mut source = FileImageInputSource::open(config, &test_image_png()).unwrap();
    let interval = 100_000_000;
    assert_eq!(source.next_image_frame(1_000, 1, interval).expect("first").sequence, 0);
    assert!(source.next_image_frame(50_000_000, 2, interval).is_none());
    assert_eq!(source.next_image_frame(100_001_000, 3, interval).expect("second").sequence, 1);
    assert_eq!(source.path(), "repeat.png");
}

#[test]
fn undecodable_bytes_are_refused() {
    let config = FileImageInputConfig::once("broken.png".to_string(), None);
    assert!(FileImageInputSource::open(config, b"not an image").is_err());
}

#[test]
fn resize_keeps_image_without_canvas() {
    let pixels = vec![9, 8, 7, 6];
    let options = ImageResizeOptions {
        preserve_aspect_ratio: true,
        reference_axis: ResizeAxis::Height,
        reference_length: 0,
        output_width: 4,
        output_height: 4,
        pad_color: RgbaColor { r: 0, g: 0, b: 0, a: 0 },
    };
    assert_eq!(resize_rgba(1, 1, pixels.clone(), options), (1, 1, pixels));
}

#[test]
fn resize_pads_with_the_pad_colour() {
    let options = ImageResizeOptions {
        preserve_aspect_ratio: true,
        reference_axis: ResizeAxis::Height,
        reference_length: 1,
        output_width: 3,
        output_height: 1,
        pad_color: RgbaColor { r: 5, g: 6, b: 7, a: 255 },
    };
    let (w, h, data) = resize_rgba(1, 1, vec![200, 100, 50, 255], options);
    assert_eq!((w, h), (3, 1));
    assert_eq!(data, vec![5, 6, 7, 255, 200, 100, 50, 255, 5, 6, 7, 255]);
}

#[test]
fn format_follows_the_file_extension() {
    let as_jpeg = FileImageInputConfig::once("picture.jpg".to_string(), None);
    assert!(matches!(
        FileImageInputSource::open(as_jpeg, &test_image_png()),
        Err(un_motion::image_source::FileImageError::Decode(_))
    ));
    let no_extension = FileImageInputConfig::once("picture".to_string(), None);
    assert!(FileImageInputSource::open(no_extension, &test_image_png()).is_err());
    let upper = FileImageInputConfig::once("PICTURE.PNG".to_string(), None);
    assert!(FileImageInputSource::open(upper, &test_image_png()).is_ok());
}

#[test]
fn decoded_image_becomes_rgb_frame() {
    let config = FileImageInputConfig::once("decoded.png".to_string(), None);
    let mut source =
        FileImageInputSource::from_decoded(config, 1, 2, vec![1, 2, 3, 255, 4, 5, 6, 0]).expect("small image opens");
    let frame = source.next_image_frame(0, 5, 0).expect("first frame");
    assert_eq!((frame.width, frame.height, frame.sequence), (1, 2, 0));
    assert_eq!(frame.data, vec![1, 2, 3, 4, 5, 6]);
}

#[test]
fn too_wide_decoded_image_is_refused() {
    let mut config = FileImageInputConfig::once("wide.png".to_string(), None);
    config.resize = Some(ImageResizeOptions {
        preserve_aspect_ratio: true,
        reference_axis: ResizeAxis::Height,
        reference_length: 10,
        output_width: 0,
        output_height: u32::MAX,
        pad_color: RgbaColor { r: 0, g: 0, b: 0, a: 255 },
    });
    match FileImageInputSource::from_decoded(config, u32::MAX, 0, Vec::new()) {
        Err(un_motion::image_source::FileImageError::TooLarge { width, canvas_height }) => {
            assert_eq!((width, canvas_height), (u32::MAX, u32::MAX));
        }
        _ => panic!("expected TooLarge"),
    }
}
