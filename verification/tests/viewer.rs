use rvu::decode::{load_image, DecodedImage};
use rvu::error::ViewerError;
use rvu::events::{handle_event, LoopState, SurfaceAction, ViewerEvent};
use rvu::frame::{build_frame, convert_pixels};
use rvu::scale::{calc_scale, initial_window_size, max_screen_size, window_size};

#[test]
fn scale_is_one_when_image_fits() {
    assert_eq!(calc_scale(1000, 500), 1);
    assert_eq!(calc_scale(1000, 999), 1);
    assert_eq!(calc_scale(1, 0), 1);
}

#[test]
fn scale_is_zero_on_exact_equality() {
    assert_eq!(calc_scale(500, 500), 0);
    assert_eq!(calc_scale(0, 0), 0);
}

#[test]
fn scale_is_ceiling_when_image_exceeds() {
    assert_eq!(calc_scale(1000, 3000), 3);
    assert_eq!(calc_scale(800, 1600), 2);
    assert_eq!(calc_scale(3, 10), 4);
    assert_eq!(calc_scale(999, 1000), 2);
}

#[test]
fn scale_times_maximum_covers_image() {
    for (max_size, size) in [(1000u32, 3000u32), (800, 1600), (3, 10), (999, 1000)] {
        let scale = calc_scale(max_size, size);
        assert!(scale as u64 * max_size as u64 >= size as u64);
    }
}

#[test]
fn scale_saturates_without_maximum() {
    assert_eq!(calc_scale(0, 5), u32::MAX);
}

#[test]
fn max_screen_size_is_ninety_percent() {
    assert_eq!(max_screen_size(1000, 800), (900, 720));
    assert_eq!(max_screen_size(0, 1), (0, 0));
}

#[test]
fn small_image_keeps_native_window() {
    assert_eq!(window_size(1000, 1000, 500, 500), (500, 500));
}

#[test]
fn large_image_is_scaled_down() {
    assert_eq!(window_size(1000, 800, 3000, 1600), (1000, 533));
}

#[test]
fn initial_window_size_applies_screen_percent() {
    // 90% of 1112 by 889 is an allowed area of 1000 by 800.
    assert_eq!(initial_window_size(1112, 889, 3000, 1600), (1000, 533));
    assert_eq!(initial_window_size(1112, 1112, 500, 500), (500, 500));
}

#[test]
fn convert_pixels_appends_opaque_alpha() {
    let src = vec![1u8, 2, 3, 4, 5, 6];
    let dst = convert_pixels(&src);
    assert_eq!(dst, vec![1, 2, 3, 0xff, 4, 5, 6, 0xff]);
}

#[test]
fn convert_pixels_empty_input() {
    let src: Vec<u8> = Vec::new();
    assert_eq!(convert_pixels(&src), Vec::<u8>::new());
}

#[test]
fn convert_pixels_ignores_trailing_bytes() {
    let src = vec![9u8, 8, 7, 6];
    assert_eq!(convert_pixels(&src), vec![9, 8, 7, 0xff]);
}

#[test]
fn convert_pixels_length_is_four_thirds() {
    let src = vec![0u8; 300];
    assert_eq!(convert_pixels(&src).len(), 400);
}

#[test]
fn build_frame_covers_whole_image() {
    let img = DecodedImage {
        width: 2,
        height: 1,
        pixels: vec![10, 20, 30, 40, 50, 60],
    };
    assert_eq!(build_frame(&img), vec![10, 20, 30, 0xff, 40, 50, 60, 0xff]);
}

#[test]
fn escape_terminates_running_loop() {
    let (state, action) = handle_event(LoopState::Running, ViewerEvent::EscapePressed);
    assert_eq!(state, LoopState::Terminated);
    assert_eq!(action, SurfaceAction::NoOp);
}

#[test]
fn close_request_terminates_running_loop() {
    let (state, action) = handle_event(LoopState::Running, ViewerEvent::CloseRequested);
    assert_eq!(state, LoopState::Terminated);
    assert_eq!(action, SurfaceAction::NoOp);
}

#[test]
fn redraw_renders_and_keeps_running() {
    let (state, action) = handle_event(LoopState::Running, ViewerEvent::RedrawRequested);
    assert_eq!(state, LoopState::Running);
    assert_eq!(action, SurfaceAction::Render);
}

#[test]
fn resize_resizes_the_surface() {
    let (state, action) = handle_event(
        LoopState::Running,
        ViewerEvent::Resized { width: 640, height: 480 },
    );
    assert_eq!(state, LoopState::Running);
    assert_eq!(action, SurfaceAction::ResizeSurface { width: 640, height: 480 });
}

#[test]
fn scale_factor_change_resizes_the_surface() {
    let (state, action) = handle_event(
        LoopState::Running,
        ViewerEvent::ScaleFactorChanged { width: 320, height: 200 },
    );
    assert_eq!(state, LoopState::Running);
    assert_eq!(action, SurfaceAction::ResizeSurface { width: 320, height: 200 });
}

#[test]
fn other_events_are_ignored() {
    let (state, action) = handle_event(LoopState::Running, ViewerEvent::Other);
    assert_eq!(state, LoopState::Running);
    assert_eq!(action, SurfaceAction::NoOp);
}

#[test]
fn terminated_stays_terminated() {
    let (state, action) = handle_event(LoopState::Terminated, ViewerEvent::RedrawRequested);
    assert_eq!(state, LoopState::Terminated);
    assert_eq!(action, SurfaceAction::NoOp);
}

fn png_bytes_rgb(width: u32, height: u32, pixels: Vec<u8>) -> Vec<u8> {
    let img = image::RgbImage::from_raw(width, height, pixels).unwrap();
    let mut bytes: Vec<u8> = Vec::new();
    img.write_to(
        &mut std::io::Cursor::new(&mut bytes),
        image::ImageOutputFormat::Png,
    )
    .unwrap();
    bytes
}

#[test]
fn load_image_decodes_rgb_png() {
    let pixels = vec![1u8, 2, 3, 4, 5, 6, 7, 8, 9, 10, 11, 12];
    let bytes = png_bytes_rgb(2, 2, pixels.clone());
    let img = load_image(&bytes).unwrap();
    assert_eq!(img.width, 2);
    assert_eq!(img.height, 2);
    assert_eq!(img.pixels, pixels);
}

#[test]
fn load_image_rejects_garbage() {
    let bytes = vec![1u8, 2, 3, 4];
    assert_eq!(load_image(&bytes).unwrap_err(), ViewerError::ImageDecodeFailure);
}

#[test]
fn load_image_rejects_non_rgb() {
    let img = image::GrayImage::from_raw(2, 2, vec![0u8, 64, 128, 255]).unwrap();
    let mut bytes: Vec<u8> = Vec::new();
    img.write_to(
        &mut std::io::Cursor::new(&mut bytes),
        image::ImageOutputFormat::Png,
    )
    .unwrap();
    assert_eq!(load_image(&bytes).unwrap_err(), ViewerError::ImageDecodeFailure);
}

#[test]
fn error_messages_name_each_failure() {
    assert_eq!(
        ViewerError::WindowCreationFailure.message(),
        "unable to create a window"
    );
    assert_eq!(
        ViewerError::ImageDecodeFailure.message(),
        "unable to decode the image to 8-bit RGB"
    );
    assert_eq!(
        ViewerError::FileIoFailure.message(),
        "unable to read the image file"
    );
    assert_eq!(
        ViewerError::NoPrimaryMonitorFound.message(),
        "unable to find a primary monitor"
    );
    assert_eq!(
        ViewerError::SurfaceCreationFailure.message(),
        "unable to create a presentation surface"
    );
    assert_eq!(
        ViewerError::RenderFailure.message(),
        "unable to present the frame"
    );
}
