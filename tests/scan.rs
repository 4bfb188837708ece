use reflax::{PixelTask, RenderScan};

fn scan_of(width: u32, height: u32) -> RenderScan {
    let mut scan = RenderScan::new();
    scan.resize_image(width, height);
    scan
}

#[test]
fn progress_is_monotonic_and_ends_exactly_once() {
    let mut scan = scan_of(7, 5);
    scan.begin_render(4, 1, false);
    let mut last = scan.completed_pixels();
    let mut ends = 0;
    let mut calls = 0;
    while scan.in_progress {
        let (tasks, going) = scan.render(3);
        calls += 1;
        let now = scan.completed_pixels();
        assert!(now >= last);
        assert_eq!(tasks.len() as u64, now - last);
        if !going {
            ends += 1;
            assert_eq!(now, 35);
        }
        last = now;
    }
    assert_eq!(ends, 1);
    assert_eq!(calls, 12);
}

#[test]
fn supersampled_pass_visits_every_pixel_in_raster_order() {
    let mut scan = scan_of(3, 2);
    scan.begin_render(2, 2, false);
    let (tasks, going) = scan.render(100);
    assert!(!going);
    let order: Vec<(u32, u32)> = tasks.iter().map(|t| (t.x, t.y)).collect();
    assert_eq!(order, vec![(0, 0), (1, 0), (2, 0), (0, 1), (1, 1), (2, 1)]);
    assert!(tasks.iter().all(|t| t.end_x == t.x + 1 && t.end_y == t.y + 1 && !t.accumulate));
}

#[test]
fn downsampled_pass_traces_grid_pixels_for_clipped_blocks() {
    let mut scan = scan_of(5, 3);
    scan.begin_render(4, -2, false);
    let (tasks, going) = scan.render(15);
    assert!(!going);
    assert_eq!(
        tasks,
        vec![
            PixelTask { x: 0, y: 0, end_x: 2, end_y: 2, accumulate: false },
            PixelTask { x: 2, y: 0, end_x: 4, end_y: 2, accumulate: false },
            PixelTask { x: 4, y: 0, end_x: 5, end_y: 2, accumulate: false },
            PixelTask { x: 0, y: 2, end_x: 2, end_y: 3, accumulate: false },
            PixelTask { x: 2, y: 2, end_x: 4, end_y: 3, accumulate: false },
            PixelTask { x: 4, y: 2, end_x: 5, end_y: 3, accumulate: false },
        ]
    );
}

#[test]
fn additive_passes_count_and_accumulate_from_the_second() {
    let mut scan = scan_of(2, 2);
    scan.begin_render(15, 1, true);
    assert_eq!(scan.additive_counter, 1);
    assert_eq!(scan.average_divisor(), 1);
    let (tasks, _) = scan.render(4);
    assert!(tasks.iter().all(|t| !t.accumulate));
    scan.begin_render(15, 1, true);
    assert_eq!(scan.additive_counter, 2);
    assert_eq!(scan.average_divisor(), 2);
    let (tasks, _) = scan.render(4);
    assert!(tasks.iter().all(|t| t.accumulate));
    scan.begin_render(15, 1, false);
    assert_eq!(scan.additive_counter, 0);
}

#[test]
fn resize_grows_framebuffer_only_and_resets() {
    let mut scan = scan_of(4, 4);
    assert_eq!(scan.framebuffer_len, 16);
    scan.begin_render(1, 1, true);
    scan.resize_image(2, 3);
    assert_eq!(scan.framebuffer_len, 16);
    assert_eq!((scan.image_width, scan.image_height), (2, 3));
    assert!(!scan.in_progress);
    assert_eq!(scan.additive_counter, 0);
    scan.resize_image(5, 5);
    assert_eq!(scan.framebuffer_len, 25);
    assert_eq!(scan.pixel_index(3, 2), 13);
    assert_eq!(scan.total_pixels(), 25);
}

#[test]
fn progress_of_a_partial_pass() {
    let mut scan = scan_of(10, 10);
    scan.begin_render(1, 1, false);
    let (_, going) = scan.render(25);
    assert!(going);
    assert_eq!(scan.completed_pixels(), 25);
    assert_eq!((scan.cur_x, scan.cur_y), (5, 2));
}
