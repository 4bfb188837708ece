use reflax::config::{MOTION_REFLECTIONS, SCREENSHOT_REFLECTIONS, SHIFT_FORWARD_MASK, STATIC_REFLECTIONS, TURN_DOWN_MASK};
use reflax::{Director, KeyCode, State, TickAction};

fn live(width: u32, height: u32) -> Director {
    let mut d = Director::new();
    d.init();
    d.resize_image(width, height);
    d
}

fn press(d: &mut Director, key: KeyCode) {
    d.handle_key_event(key, true);
    d.handle_key_event(key, false);
}

#[test]
fn screenshot_workflow_then_cancel_restores_live_resolution() {
    let mut d = live(640, 480);
    assert_eq!(d.state, State::CameraControl);
    press(&mut d, KeyCode::KeyF2);
    assert_eq!(d.state, State::ScreenshotResolutionSelection);
    press(&mut d, KeyCode::Key3);
    assert_eq!(d.state, State::ScreenshotSamplingSelection);
    press(&mut d, KeyCode::Key2);
    assert_eq!(d.state, State::ScreenshotRenderBegin);
    assert_eq!(d.tick(1_000_000), TickAction::ScreenshotBegun);
    assert_eq!(d.state, State::ScreenshotRenderProceed);
    assert!(d.scan.in_progress);
    assert_eq!((d.scan.image_width, d.scan.image_height), (1280, 960));
    assert_eq!(d.scan.samples, 2);
    assert_eq!(d.scan.max_reflections, SCREENSHOT_REFLECTIONS);
    assert!(!d.scan.is_additive);
    assert_eq!(d.tick(1_000_000), TickAction::RenderScreenshot);
    let tasks = d.next_chunk();
    assert_eq!(tasks.len(), 1);
    d.chunk_done(1_000);
    press(&mut d, KeyCode::KeyEscape);
    assert_eq!(d.state, State::ScreenshotRenderCancelRequested);
    press(&mut d, KeyCode::KeyY);
    assert_eq!(d.state, State::CameraControl);
    assert_eq!((d.scan.image_width, d.scan.image_height), (640, 480));
    assert!(!d.scan.in_progress);
}

#[test]
fn screenshot_cancel_declined_resumes() {
    let mut d = live(64, 48);
    press(&mut d, KeyCode::KeyF2);
    press(&mut d, KeyCode::Key1);
    press(&mut d, KeyCode::Key1);
    d.tick(0);
    press(&mut d, KeyCode::KeyEscape);
    press(&mut d, KeyCode::KeyN);
    assert_eq!(d.state, State::ScreenshotRenderProceed);
    assert_eq!((d.scan.image_width, d.scan.image_height), (800, 600));
    assert_eq!(d.scan.samples, 1);
}

#[test]
fn screenshot_runs_to_save_and_end() {
    let mut d = live(64, 48);
    press(&mut d, KeyCode::KeyF2);
    press(&mut d, KeyCode::Key1);
    press(&mut d, KeyCode::Key9);
    assert_eq!(d.screenshot_samples, 256);
    d.tick(0);
    let total = 800u64 * 600;
    let mut rounds = 0;
    while d.state == State::ScreenshotRenderProceed {
        assert_eq!(d.tick(10), TickAction::RenderScreenshot);
        d.next_chunk();
        d.chunk_done(0);
        rounds += 1;
    }
    assert!(rounds < 40);
    assert_eq!(d.scan.completed_pixels(), total);
    assert_eq!(d.state, State::ScreenshotRenderSave);
    assert_eq!(d.screenshot_progress_bp(), 10000);
    assert_eq!(d.tick(10), TickAction::SaveScreenshot);
    d.screenshot_saved();
    assert_eq!(d.tick(10), TickAction::ScreenshotFinished);
    assert_eq!(d.state, State::CameraControl);
    assert_eq!((d.scan.image_width, d.scan.image_height), (64, 48));
    assert_eq!(d.screenshot_width, 0);
}

#[test]
fn escape_leaves_selection_and_other_keys_are_ignored() {
    let mut d = live(64, 48);
    press(&mut d, KeyCode::KeyF2);
    press(&mut d, KeyCode::KeyW);
    assert_eq!(d.state, State::ScreenshotResolutionSelection);
    press(&mut d, KeyCode::KeyEscape);
    assert_eq!(d.state, State::CameraControl);
    press(&mut d, KeyCode::KeyF2);
    press(&mut d, KeyCode::Key8);
    assert_eq!((d.screenshot_width, d.screenshot_height), (1920, 1080));
    press(&mut d, KeyCode::KeyEscape);
    assert_eq!(d.state, State::CameraControl);
    assert_eq!(d.tick(0), TickAction::ControlCamera);
}

#[test]
fn movement_keys_set_and_clear_control_flags() {
    let mut d = live(64, 48);
    d.handle_key_event(KeyCode::KeyW, true);
    d.handle_key_event(KeyCode::KeyUp, true);
    assert_eq!(d.control_flags, SHIFT_FORWARD_MASK | TURN_DOWN_MASK);
    d.handle_key_event(KeyCode::KeyW, false);
    assert_eq!(d.control_flags, TURN_DOWN_MASK);
    d.handle_key_event(KeyCode::KeyUp, false);
    assert_eq!(d.control_flags, 0);
}

#[test]
fn live_frames_switch_between_motion_and_still_profiles() {
    let mut d = live(16, 16);
    assert!(d.prepare_frame(false));
    assert_eq!(d.scan.max_reflections, STATIC_REFLECTIONS);
    assert_eq!(d.scan.samples, 1);
    assert!(d.scan.is_additive);
    assert_eq!(d.scan.additive_counter, 1);
    assert!(!d.prepare_frame(false));

    d.handle_key_event(KeyCode::KeyW, true);
    while d.scan.in_progress {
        d.next_chunk();
        d.chunk_done(0);
    }
    assert!(d.prepare_frame(false));
    assert_eq!(d.scan.max_reflections, MOTION_REFLECTIONS);
    assert_eq!(d.scan.samples, -1);
    assert_eq!(d.scan.additive_counter, 0);
}

#[test]
fn slow_motion_frames_coarsen_sampling() {
    let mut d = live(16, 16);
    d.handle_key_event(KeyCode::KeyA, true);
    d.frame_time_ns = 30_000_000;
    assert!(d.prepare_frame(false));
    assert_eq!(d.scan.samples, -2);
    while d.scan.in_progress {
        d.next_chunk();
        d.chunk_done(0);
    }
    assert!(d.prepare_frame(false));
    assert_eq!(d.scan.samples, -1);
}

#[test]
fn chunk_size_doubles_when_fast_and_halves_when_slow() {
    let mut d = live(100, 100);
    d.prepare_frame(false);
    assert_eq!(d.render_chunk_in_pixels, 1);
    d.next_chunk();
    d.chunk_done(1_000_000);
    assert_eq!(d.render_chunk_in_pixels, 2);
    d.next_chunk();
    d.chunk_done(4_999_999);
    assert_eq!(d.render_chunk_in_pixels, 4);
    d.next_chunk();
    d.chunk_done(10_000_000);
    assert_eq!(d.render_chunk_in_pixels, 4);
    d.next_chunk();
    d.chunk_done(21_000_000);
    assert_eq!(d.render_chunk_in_pixels, 2);
    d.next_chunk();
    d.chunk_done(21_000_000);
    d.next_chunk();
    d.chunk_done(21_000_000);
    assert_eq!(d.render_chunk_in_pixels, 1);
}

#[test]
fn completed_live_frame_fixes_frame_time() {
    let mut d = live(2, 1);
    d.prepare_frame(false);
    d.next_chunk();
    assert!(!d.chunk_done(3_000_000));
    d.next_chunk();
    assert!(d.chunk_done(4_000_000));
    assert_eq!(d.frame_time_ns, 7_000_000);
    assert_eq!(d.frame_time_accumulator_ns, 0);
}

#[test]
fn camera_control_text() {
    let mut d = live(640, 480);
    d.frame_time_ns = 16_400_000;
    let text = d.get_current_screen_text();
    assert_eq!(text.len(), 10);
    assert_eq!(text[0], "Resolution : 640x480");
    assert_eq!(text[1], "Frame time: 16 ms");
    assert_eq!(text[2], "Blended frames : 0");
    assert_eq!(text[9], "F2 : save screenshot");
    d.frame_time_ns = 12_345_600_000;
    assert_eq!(d.get_current_screen_text()[1], "Frame time: 12.346 s");
}

#[test]
fn selection_texts_list_the_tables() {
    let mut d = live(64, 48);
    press(&mut d, KeyCode::KeyF2);
    let text = d.get_current_screen_text();
    assert_eq!(text.len(), 13);
    assert_eq!(text[0], "Select screenshot resolution (keys 1-9)");
    assert_eq!(text[2], "1 : 800x600 (4:3)");
    assert_eq!(text[10], "9 : 7680x4320 (Super Hi Vision 16:9)");
    assert_eq!(text[12], "ESC : cancel");
    press(&mut d, KeyCode::Key4);
    let text = d.get_current_screen_text();
    assert_eq!(text[0], "Select supersampling rate (keys 1-9)");
    assert_eq!(text[2], "1 : 1x1 (fast but rough)");
    assert_eq!(text[3], "2 : 2x2 ");
    assert_eq!(text[10], "9 : 256x256 (slow but smooth)");
}

#[test]
fn screenshot_text_shows_progress_and_estimate() {
    let mut d = live(64, 48);
    press(&mut d, KeyCode::KeyF2);
    press(&mut d, KeyCode::Key1);
    press(&mut d, KeyCode::Key2);
    d.tick(0);
    d.set_screenshot_file_name(reflax::text::screenshot_file_name(0xABC));
    let text = d.get_current_screen_text();
    assert_eq!(text[0], "Saving screenshot:");
    assert_eq!(text[1], "screenshot_00000ABC.bmp");
    assert_eq!(text[2], "Resolution: 800x600");
    assert_eq!(text[3], "SSAA: 2x2");
    assert_eq!(text[5], "Progress: 0.00 %");
    assert_eq!(text[6], "Press ESC to cancel");
    for _ in 0..15 {
        d.next_chunk();
        d.chunk_done(0);
    }
    assert_eq!(d.scan.completed_pixels(), 32767);
    d.tick(3_000_000_000);
    let text = d.get_current_screen_text();
    assert_eq!(text[5], "Progress: 6.82 %");
    assert_eq!(text[6], "Estimated time left: 0 h 00 m 40 s");
    assert_eq!(text[7], "");
    press(&mut d, KeyCode::KeyEscape);
    let text = d.get_current_screen_text();
    assert_eq!(text[8], "Do you want to cancel ? ( Y / N ) ");
}
