use asset_pipeline::error::PipelineError;
use asset_pipeline::resizer::{
    color_kind, encode_scaled, generate_thumbnail, thumbnail_fits, to_bitmap, ColorKind, DecodedImage,
};
use asset_pipeline::thumbs::{
    io_outcome, plan_thumbnail, serve_source, serve_stored, SourceProbe, ThumbPlan,
};
use image::{DynamicImage, ImageFormat, Rgb, RgbImage};
use std::io::Cursor;

fn two_tone_png(width: u32, height: u32) -> Vec<u8> {
    let mut img = RgbImage::new(width, height);
    for (x, _, pixel) in img.enumerate_pixels_mut() {
        *pixel = if x < width / 2 { Rgb([255, 0, 0]) } else { Rgb([0, 0, 255]) };
    }
    let mut out = Cursor::new(Vec::new());
    DynamicImage::ImageRgb8(img).write_to(&mut out, ImageFormat::Png).unwrap();
    out.into_inner()
}

#[test]
fn thumbnail_of_1000_by_500_at_400_is_400_by_200() {
    let source = two_tone_png(1000, 500);
    let plan = plan_thumbnail("/a.png", 400, SourceProbe::Dimensions { width: 1000, height: 500 });
    let (width, height) = match plan {
        ThumbPlan::Thumbnail { width, height, .. } => (width, height),
        other => panic!("{:?}", other),
    };
    let png = generate_thumbnail(&source, "/a.png", width, height).unwrap();
    let decoded = image::load_from_memory(&png).unwrap();
    assert_eq!(image::guess_format(&png).unwrap(), ImageFormat::Png);
    assert_eq!((decoded.width(), decoded.height()), (400, 200));
}

#[test]
fn thumbnail_keeps_the_picture() {
    let source = two_tone_png(200, 100);
    let png = generate_thumbnail(&source, "/a.png", 20, 10).unwrap();
    assert_ne!(png, source);
    let decoded = image::load_from_memory(&png).unwrap().to_rgb8();
    assert_eq!(decoded.dimensions(), (20, 10));
    let left = decoded.get_pixel(2, 5);
    let right = decoded.get_pixel(17, 5);
    assert!(left[0] > 200 && left[2] < 50);
    assert!(right[2] > 200 && right[0] < 50);
}

#[test]
fn thumbnail_of_own_size_keeps_every_pixel() {
    let source = two_tone_png(16, 8);
    let png = generate_thumbnail(&source, "/a.png", 16, 8).unwrap();
    let before = image::load_from_memory(&source).unwrap().to_rgb8();
    let after = image::load_from_memory(&png).unwrap().to_rgb8();
    assert_eq!(before, after);
}

#[test]
fn generating_twice_gives_the_same_bytes() {
    let source = two_tone_png(64, 32);
    let first = generate_thumbnail(&source, "/a.png", 8, 4).unwrap();
    let second = generate_thumbnail(&source, "/a.png", 8, 4).unwrap();
    assert_eq!(first, second);
}

#[test]
fn bytes_that_are_no_image_fail_to_decode() {
    let err = generate_thumbnail(b"definitely not an image", "/a.png", 10, 10).unwrap_err();
    assert!(matches!(err, PipelineError::DecodeFailure(_)));
    assert!(!err.message().is_empty());
    assert!(matches!(generate_thumbnail(b"", "/a.png", 1, 1), Err(PipelineError::DecodeFailure(_))));
}

#[test]
fn thumbnail_too_large_for_memory_is_refused() {
    assert!(thumbnail_fits(400, 200));
    assert!(thumbnail_fits(0, u32::MAX));
    assert!(!thumbnail_fits(u32::MAX, u32::MAX));
    let source = two_tone_png(4, 4);
    match generate_thumbnail(&source, "/a.png", u32::MAX, u32::MAX) {
        Err(PipelineError::ResizeFailure(m)) => assert_eq!(m, "Thumbnail is too large"),
        other => panic!("{:?}", other.map(|b| b.len())),
    }
}

#[test]
fn no_upscaling_serves_the_source_bytes() {
    let source = two_tone_png(800, 10);
    let plan = plan_thumbnail("/a.png", 2000, SourceProbe::Dimensions { width: 800, height: 10 });
    assert!(matches!(plan, ThumbPlan::Passthrough));
    let bytes = io_outcome(Ok(source.clone())).unwrap();
    let served = serve_source("/a.png", bytes);
    assert_eq!(served.bytes, source);
    assert_eq!(served.mime_type, "image/png");
}

#[test]
fn failed_read_is_an_io_failure() {
    match io_outcome(Err("permission denied".to_string())) {
        Err(PipelineError::IoFailure(m)) => assert_eq!(m, "permission denied"),
        other => panic!("{:?}", other),
    }
    assert_eq!(io_outcome(Ok(vec![1, 2])).unwrap(), vec![1, 2]);
}

#[test]
fn thumbnail_is_served_only_once_stored() {
    let served = serve_stored(vec![1, 2, 3], Ok(())).unwrap();
    assert_eq!(served.bytes, vec![1, 2, 3]);
    assert_eq!(served.mime_type, "image/png");
    match serve_stored(vec![1, 2, 3], Err("disk full".to_string())) {
        Err(PipelineError::IoFailure(m)) => assert_eq!(m, "disk full"),
        other => panic!("{:?}", other),
    }
}

#[test]
fn thumbnail_without_height_gives_a_value() {
    let source = two_tone_png(1000, 1);
    let plan = plan_thumbnail("/a.png", 400, SourceProbe::Dimensions { width: 1000, height: 1 });
    let (width, height) = match plan {
        ThumbPlan::Thumbnail { width, height, .. } => (width, height),
        other => panic!("{:?}", other),
    };
    assert_eq!((width, height), (400, 0));
    match generate_thumbnail(&source, "/a.png", width, height) {
        Ok(png) => assert!(!png.is_empty()),
        Err(e) => assert!(matches!(e, PipelineError::ResizeFailure(_))),
    }
}

#[test]
fn thumbnails_of_grey_and_transparent_images_keep_their_size() {
    let mut grey = Cursor::new(Vec::new());
    DynamicImage::new_luma8(40, 20).write_to(&mut grey, ImageFormat::Png).unwrap();
    let png = generate_thumbnail(&grey.into_inner(), "grey.PNG", 10, 5).unwrap();
    let decoded = image::load_from_memory(&png).unwrap();
    assert_eq!((decoded.width(), decoded.height()), (10, 5));
    assert_eq!(decoded.color(), image::ColorType::L8);

    let mut rgba = Cursor::new(Vec::new());
    DynamicImage::new_rgba16(40, 20).write_to(&mut rgba, ImageFormat::Png).unwrap();
    let png = generate_thumbnail(&rgba.into_inner(), "/x/rgba.png", 10, 5).unwrap();
    let decoded = image::load_from_memory(&png).unwrap();
    assert_eq!((decoded.width(), decoded.height()), (10, 5));
    assert_eq!(decoded.color(), image::ColorType::Rgba16);
}

#[test]
fn source_is_decoded_in_the_format_of_its_extension() {
    let source = two_tone_png(8, 8);
    assert!(generate_thumbnail(&source, "/a.png", 4, 4).is_ok());
    assert!(matches!(
        generate_thumbnail(&source, "/a.jpg", 4, 4),
        Err(PipelineError::DecodeFailure(_))
    ));
    assert!(matches!(
        generate_thumbnail(&source, "/noextension", 4, 4),
        Err(PipelineError::DecodeFailure(_))
    ));
}

#[test]
fn image_with_a_sound_header_and_a_broken_body_fails_to_decode() {
    let mut source = two_tone_png(1000, 500);
    let header = image::ImageReader::new(Cursor::new(&source)).with_guessed_format().unwrap();
    assert_eq!(header.into_dimensions().unwrap(), (1000, 500));
    let keep = 60;
    source.truncate(keep);
    let err = generate_thumbnail(&source, "/a.png", 400, 200).unwrap_err();
    assert!(matches!(err, PipelineError::DecodeFailure(_)));
    assert!(!err.message().is_empty());
}

#[test]
fn colour_kinds_by_channels_and_pixel_bytes() {
    assert_eq!(color_kind(1, 1), Some(ColorKind::L8));
    assert_eq!(color_kind(2, 2), Some(ColorKind::La8));
    assert_eq!(color_kind(3, 3), Some(ColorKind::Rgb8));
    assert_eq!(color_kind(4, 4), Some(ColorKind::Rgba8));
    assert_eq!(color_kind(1, 2), Some(ColorKind::L16));
    assert_eq!(color_kind(2, 4), Some(ColorKind::La16));
    assert_eq!(color_kind(3, 6), Some(ColorKind::Rgb16));
    assert_eq!(color_kind(4, 8), Some(ColorKind::Rgba16));
    assert_eq!(color_kind(3, 12), Some(ColorKind::Rgb32F));
    assert_eq!(color_kind(4, 16), Some(ColorKind::Rgba32F));
    assert_eq!(color_kind(0, 0), None);
    assert_eq!(color_kind(1, 4), None);
    assert_eq!(color_kind(4, 2), None);
}

#[test]
fn decoded_image_of_unknown_kind_is_a_decode_failure() {
    let odd = DecodedImage { width: 1, height: 1, channels: 5, pixel_bytes: 5, data: vec![0; 5] };
    match to_bitmap(odd) {
        Err(PipelineError::DecodeFailure(m)) => assert_eq!(m, "Unsupported pixel layout"),
        other => panic!("{:?}", other),
    }
    let rgb = DecodedImage { width: 2, height: 1, channels: 3, pixel_bytes: 3, data: vec![7; 6] };
    let bitmap = to_bitmap(rgb).unwrap();
    assert_eq!((bitmap.width, bitmap.height, bitmap.color), (2, 1, ColorKind::Rgb8));
    assert_eq!(bitmap.data, vec![7; 6]);
}

#[test]
fn scaled_pixels_are_encoded_as_png() {
    let png = encode_scaled(ColorKind::Rgb8, 2, 1, Some(vec![255, 0, 0, 0, 0, 255])).unwrap();
    let decoded = image::load_from_memory(&png).unwrap().to_rgb8();
    assert_eq!(decoded.dimensions(), (2, 1));
    assert_eq!(decoded.get_pixel(0, 0).0, [255, 0, 0]);
    assert_eq!(decoded.get_pixel(1, 0).0, [0, 0, 255]);
    match encode_scaled(ColorKind::Rgb8, 2, 1, None) {
        Err(PipelineError::ResizeFailure(m)) => assert_eq!(m, "The image could not be scaled"),
        other => panic!("{:?}", other),
    }
    let float = encode_scaled(ColorKind::Rgb32F, 1, 1, Some(vec![0; 12]));
    assert!(matches!(float, Err(PipelineError::ResizeFailure(_))));
}
