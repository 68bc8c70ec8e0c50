use sway_scratchpad::config::Args;
use sway_scratchpad::geometry::{
    DisplayRect, OutputInfo, Size, WindowSize, center_offset, find_focused_output,
    resolve_percent, resolve_pixel,
};

fn args(width: u64, height: u64, width_px: u64, height_px: u64) -> Args {
    Args {
        sock: String::new(),
        command: vec!["foot".to_string()],
        width,
        height,
        width_px,
        height_px,
        mark: "term".to_string(),
    }
}

#[test]
fn percent_of_display_dimension() {
    assert_eq!(resolve_percent(95, 1920), 1824);
    assert_eq!(resolve_percent(90, 1080), 972);
    assert_eq!(resolve_percent(33, 100), 33);
    assert_eq!(resolve_percent(50, 7), 3);
}

#[test]
fn percent_zero_cases() {
    assert_eq!(resolve_percent(0, 1920), 0);
    assert_eq!(resolve_percent(95, 0), 0);
    assert_eq!(resolve_percent(0, 0), 0);
}

#[test]
fn percent_of_huge_display() {
    assert_eq!(resolve_percent(100, u64::MAX), u64::MAX);
    assert_eq!(resolve_percent(50, u64::MAX), u64::MAX / 2);
}

#[test]
fn pixel_resolves_to_itself() {
    assert_eq!(resolve_pixel(0), 0);
    assert_eq!(resolve_pixel(640), 640);
    assert_eq!(resolve_pixel(u64::MAX), u64::MAX);
}

#[test]
fn centering_offset() {
    assert_eq!(center_offset(1920, 1824), 48);
    assert_eq!(center_offset(100, 100), 0);
    assert_eq!(center_offset(101, 0), 50);
}

#[test]
fn new_prefers_pixels_when_nonzero() {
    let s = WindowSize::new(args(95, 90, 0, 0));
    assert_eq!(s.width, Size::Percent(95));
    assert_eq!(s.height, Size::Percent(90));

    let s = WindowSize::new(args(95, 90, 640, 480));
    assert_eq!(s.width, Size::Pixel(640));
    assert_eq!(s.height, Size::Pixel(480));

    let s = WindowSize::new(args(95, 90, 640, 0));
    assert_eq!(s.width, Size::Pixel(640));
    assert_eq!(s.height, Size::Percent(90));
}

#[test]
fn get_value_selects_axis() {
    let s = WindowSize::new(args(95, 90, 640, 0));
    assert_eq!(s.get_value("width"), Size::Pixel(640));
    assert_eq!(s.get_value("height"), Size::Percent(90));
}

#[test]
fn pixel_sizes_need_no_display() {
    let s = WindowSize::new(args(95, 90, 640, 480));
    assert!(!s.needs_display());
    assert_eq!(s.get_sizes(None), Some((640, 480)));
    assert_eq!(s.get_sizes(Some(DisplayRect { width: 1920, height: 1080 })), Some((640, 480)));
}

#[test]
fn percent_sizes_need_the_display() {
    let s = WindowSize::new(args(95, 90, 0, 0));
    assert!(s.needs_display());
    assert_eq!(s.get_sizes(None), None);
    assert_eq!(s.get_sizes(Some(DisplayRect { width: 1920, height: 1080 })), Some((1824, 972)));
}

#[test]
fn mixed_axes_fetch_once_resolve_separately() {
    let s = WindowSize::new(args(95, 90, 0, 480));
    assert!(s.needs_display());
    assert_eq!(s.get_sizes(Some(DisplayRect { width: 1920, height: 1080 })), Some((1824, 480)));
}

#[test]
fn first_focused_output_wins() {
    let outs = vec![
        OutputInfo { focused: false, rect: DisplayRect { width: 800, height: 600 } },
        OutputInfo { focused: true, rect: DisplayRect { width: 1920, height: 1080 } },
        OutputInfo { focused: true, rect: DisplayRect { width: 2560, height: 1440 } },
    ];
    assert_eq!(find_focused_output(&outs), Some(1));
}

#[test]
fn no_focused_output() {
    let outs = vec![OutputInfo { focused: false, rect: DisplayRect { width: 800, height: 600 } }];
    assert_eq!(find_focused_output(&outs), None);
    assert_eq!(find_focused_output(&Vec::new()), None);
}
