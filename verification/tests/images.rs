use speedy2d::dimen::{ScaleFactor, Vector2, Viewport};
use speedy2d::image::{
    convert_pixels, is_byte_length, ImageCreationError, ImageDataType, ImageSmoothingMode,
    RawBitmapData,
};
use speedy2d::renderer::GpuCommand;
use speedy2d::{GLRenderer, Graphics2D};

#[test]
fn bytes_per_pixel_of_each_layout() {
    assert_eq!(ImageDataType::RGB.bytes_per_pixel(), 3);
    assert_eq!(ImageDataType::RGBA.bytes_per_pixel(), 4);
}

#[test]
fn byte_length_is_width_times_height_times_pixel() {
    assert!(is_byte_length(24, Vector2::new(2, 3), ImageDataType::RGBA));
    assert!(is_byte_length(18, Vector2::new(2, 3), ImageDataType::RGB));
    assert!(!is_byte_length(23, Vector2::new(2, 3), ImageDataType::RGBA));
    assert!(!is_byte_length(24, Vector2::new(2, 3), ImageDataType::RGB));
    assert!(is_byte_length(0, Vector2::new(0, 5), ImageDataType::RGB));
    // The product does not fit in 64 bits; it is still compared exactly.
    assert!(!is_byte_length(0, Vector2::new(u32::MAX, u32::MAX), ImageDataType::RGBA));
    assert!(!is_byte_length(usize::MAX, Vector2::new(u32::MAX, u32::MAX), ImageDataType::RGBA));
}

#[test]
fn image_from_raw_pixels() {
    let mut g: Graphics2D<f32> = Graphics2D::new(42, 0.0, 1.0);
    let pixels: Vec<u8> = (0..24).collect();
    let h = g
        .create_image_from_raw_pixels(
            ImageDataType::RGBA,
            ImageSmoothingMode::NearestNeighbor,
            Vector2::new(3, 2),
            &pixels,
        )
        .unwrap();
    assert_eq!(h.size(), Vector2::new(3, 2));
    assert_eq!(h.data_type(), ImageDataType::RGBA);
    assert_eq!(h.smoothing_mode(), ImageSmoothingMode::NearestNeighbor);
    assert_eq!(h.context(), 42);
    assert_eq!(h.index(), 0);
    assert!(g.is_valid_image(&h));
    let commands = g.take_commands();
    assert_eq!(commands.len(), 1);
    match &commands[0] {
        GpuCommand::CreateTexture(handle, data) => {
            assert_eq!(*handle, h);
            assert_eq!(*data, pixels);
        }
        other => panic!("expected a texture, got {:?}", other),
    }
    let second = g
        .create_image_from_raw_pixels(
            ImageDataType::RGB,
            ImageSmoothingMode::Linear,
            Vector2::new(1, 1),
            &[9, 9, 9],
        )
        .unwrap();
    assert_eq!(second.index(), 1);
    assert!(g.is_valid_image(&h) && g.is_valid_image(&second));
}

#[test]
fn image_with_wrong_length_is_refused() {
    let mut g: Graphics2D<f32> = Graphics2D::new(42, 0.0, 1.0);
    let first = g
        .create_image_from_raw_pixels(
            ImageDataType::RGB,
            ImageSmoothingMode::Linear,
            Vector2::new(1, 1),
            &[9, 9, 9],
        )
        .unwrap();
    g.take_commands();
    for len in [0usize, 23, 25, 18] {
        let data = vec![0u8; len];
        let e = g
            .create_image_from_raw_pixels(
                ImageDataType::RGBA,
                ImageSmoothingMode::Linear,
                Vector2::new(3, 2),
                &data,
            )
            .unwrap_err();
        assert_eq!(*e.error(), ImageCreationError::InvalidDataLength);
        assert_eq!(e.cause_count(), 0);
    }
    // Nothing was issued, and the image made before is as it was.
    assert!(g.take_commands().is_empty());
    assert!(g.is_valid_image(&first));
    let next = g
        .create_image_from_raw_pixels(
            ImageDataType::RGB,
            ImageSmoothingMode::Linear,
            Vector2::new(1, 1),
            &[9, 9, 9],
        )
        .unwrap();
    assert_eq!(next.index(), 1);
}

#[test]
fn image_from_decoded_file() {
    let mut g: Graphics2D<f32> = Graphics2D::new(1, 0.0, 1.0);
    let e = g.create_image_from_file_bytes(ImageSmoothingMode::Linear, None).unwrap_err();
    assert_eq!(*e.error(), ImageCreationError::DecodingFailed);
    let e = g
        .create_image_from_file_bytes(
            ImageSmoothingMode::Linear,
            Some((ImageDataType::RGB, Vector2::new(2, 2), vec![0; 11])),
        )
        .unwrap_err();
    assert_eq!(*e.error(), ImageCreationError::InvalidDataLength);
    assert!(g.take_commands().is_empty());
    let h = g
        .create_image_from_file_bytes(
            ImageSmoothingMode::Linear,
            Some((ImageDataType::RGB, Vector2::new(2, 2), vec![7; 12])),
        )
        .unwrap();
    assert_eq!(h.size(), Vector2::new(2, 2));
    assert_eq!(h.data_type(), ImageDataType::RGB);
    assert_eq!(g.take_commands().len(), 1);
}

#[test]
fn handle_of_another_context_is_not_valid() {
    let mut a: Graphics2D<f32> = Graphics2D::new(1, 0.0, 1.0);
    let mut b: Graphics2D<f32> = Graphics2D::new(2, 0.0, 1.0);
    let ha = a
        .create_image_from_raw_pixels(
            ImageDataType::RGB,
            ImageSmoothingMode::Linear,
            Vector2::new(1, 1),
            &[1, 2, 3],
        )
        .unwrap();
    let hb = b
        .create_image_from_raw_pixels(
            ImageDataType::RGB,
            ImageSmoothingMode::Linear,
            Vector2::new(1, 1),
            &[1, 2, 3],
        )
        .unwrap();
    assert!(a.is_valid_image(&ha));
    assert!(!a.is_valid_image(&hb));
    assert!(!b.is_valid_image(&ha));
    let fresh: Graphics2D<f32> = Graphics2D::new(1, 0.0, 1.0);
    assert!(!fresh.is_valid_image(&ha));
}

#[test]
fn renderer_makes_images_too() {
    let mut r: GLRenderer<f32> = GLRenderer::new_for_quad(
        5,
        Viewport::new(Vector2::new(10, 10), ScaleFactor::identity()),
        0.0,
        1.0,
    );
    let h = r
        .create_image_from_raw_pixels(
            ImageDataType::RGB,
            ImageSmoothingMode::Linear,
            Vector2::new(1, 2),
            &[1, 2, 3, 4, 5, 6],
        )
        .unwrap();
    assert_eq!(h.context(), 5);
    assert!(r
        .create_image_from_raw_pixels(
            ImageDataType::RGB,
            ImageSmoothingMode::Linear,
            Vector2::new(1, 2),
            &[1, 2, 3, 4, 5],
        )
        .is_err());
}

#[test]
fn conversion_drops_or_adds_alpha() {
    let rgba = [1u8, 2, 3, 4, 5, 6, 7, 8];
    assert_eq!(convert_pixels(&rgba, ImageDataType::RGBA, ImageDataType::RGB), vec![1, 2, 3, 5, 6, 7]);
    assert_eq!(convert_pixels(&rgba, ImageDataType::RGBA, ImageDataType::RGBA), rgba.to_vec());
    let rgb = [1u8, 2, 3, 5, 6, 7];
    assert_eq!(
        convert_pixels(&rgb, ImageDataType::RGB, ImageDataType::RGBA),
        vec![1, 2, 3, 255, 5, 6, 7, 255]
    );
    assert_eq!(convert_pixels(&rgb, ImageDataType::RGB, ImageDataType::RGB), rgb.to_vec());
    // Bytes that do not make a whole pixel are left out.
    assert_eq!(convert_pixels(&[1, 2, 3, 4, 5], ImageDataType::RGBA, ImageDataType::RGB), vec![1, 2, 3]);
    assert_eq!(convert_pixels(&[], ImageDataType::RGBA, ImageDataType::RGB), Vec::<u8>::new());
}

#[test]
fn alpha_added_and_dropped_gives_the_pixels_back() {
    let rgb: Vec<u8> = (0..30).collect();
    let wide = convert_pixels(&rgb, ImageDataType::RGB, ImageDataType::RGBA);
    assert_eq!(wide.len(), 40);
    assert_eq!(convert_pixels(&wide, ImageDataType::RGBA, ImageDataType::RGB), rgb);
}

#[test]
fn capture_brings_the_frame_to_the_layout() {
    let g: Graphics2D<f32> = Graphics2D::new(1, 0.0, 1.0);
    let frame = [10u8, 20, 30, 40, 50, 60, 70, 80];
    let same = g.capture(ImageDataType::RGBA, &frame, Vector2::new(2, 1)).unwrap();
    assert_eq!(same.data(), &frame.to_vec());
    assert_eq!(same.size(), Vector2::new(2, 1));
    assert_eq!(same.format(), ImageDataType::RGBA);
    let rgb = g.capture(ImageDataType::RGB, &frame, Vector2::new(1, 2)).unwrap();
    assert_eq!(rgb.data(), &vec![10, 20, 30, 50, 60, 70]);
    assert_eq!(rgb.format(), ImageDataType::RGB);
    assert!(g.capture(ImageDataType::RGB, &frame, Vector2::new(2, 2)).is_none());
    assert!(g.capture(ImageDataType::RGB, &frame[..7], Vector2::new(2, 1)).is_none());
}

#[test]
fn raw_bitmap_holds_whole_pixels_only() {
    assert!(RawBitmapData::new(vec![0; 12], Vector2::new(2, 2), ImageDataType::RGB).is_some());
    assert!(RawBitmapData::new(vec![0; 12], Vector2::new(2, 2), ImageDataType::RGBA).is_none());
    assert!(RawBitmapData::new(vec![], Vector2::new(0, 0), ImageDataType::RGBA).is_some());
}

#[test]
fn renderer_makes_images_from_decoded_files() {
    let mut r: GLRenderer<f32> = GLRenderer::new_for_quad(
        5,
        Viewport::new(Vector2::new(10, 10), ScaleFactor::identity()),
        0.0,
        1.0,
    );
    assert!(r.create_image_from_file_bytes(ImageSmoothingMode::Linear, None).is_err());
    let h = r
        .create_image_from_file_bytes(
            ImageSmoothingMode::NearestNeighbor,
            Some((ImageDataType::RGBA, Vector2::new(1, 1), vec![1, 2, 3, 4])),
        )
        .unwrap();
    assert_eq!(h.index(), 0);
    assert_eq!(h.smoothing_mode(), ImageSmoothingMode::NearestNeighbor);
    let commands = r.take_commands();
    assert!(matches!(&commands[0], GpuCommand::CreateTexture(x, p) if *x == h && p == &vec![1, 2, 3, 4]));
}
