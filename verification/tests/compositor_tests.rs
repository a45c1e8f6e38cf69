use opencap::capture::{composite, crop_monitor, crop_region, MonitorInfo, ScreenLayout};
use opencap::errors::{CompositionError, RegionError};
use opencap::image_data::Image;

fn uniform(width: u32, height: u32, value: u8) -> Image {
    Image { width, height, data: vec![value; (width as usize) * (height as usize) * 4] }
}

fn copy_image(img: &Image) -> Image {
    Image { width: img.width, height: img.height, data: img.data.clone() }
}

fn numbered(width: u32, height: u32) -> Image {
    let n = (width as usize) * (height as usize) * 4;
    let mut data = Vec::with_capacity(n);
    for i in 0..n {
        data.push((i % 251) as u8);
    }
    Image { width, height, data }
}

fn layout_of(monitors: Vec<MonitorInfo>, ox: i32, oy: i32, vw: u32, vh: u32) -> ScreenLayout {
    ScreenLayout {
        monitors,
        origin_x: ox,
        origin_y: oy,
        virtual_width: vw,
        virtual_height: vh,
    }
}

#[test]
fn canvas_is_bounding_box_of_disjoint_rects() {
    let m0 = MonitorInfo { x: 0, y: 0, width: 2, height: 1 };
    let m1 = MonitorInfo { x: 2, y: 0, width: 1, height: 1 };
    let f0 = uniform(2, 1, 10);
    let f1 = uniform(1, 1, 20);
    let cc = composite(vec![(m0, copy_image(&f0)), (m1, copy_image(&f1))]).unwrap();
    assert_eq!(cc.origin_x, 0);
    assert_eq!(cc.origin_y, 0);
    assert_eq!(cc.virtual_width, 3);
    assert_eq!(cc.virtual_height, 1);
    let layout = layout_of(cc.monitors.clone(), cc.origin_x, cc.origin_y, cc.virtual_width, cc.virtual_height);
    let r0 = crop_monitor(&cc.image, &layout, 0).unwrap();
    assert_eq!(r0.width, 2);
    assert_eq!(r0.height, 1);
    assert_eq!(r0.data, f0.data);
    let r1 = crop_monitor(&cc.image, &layout, 1).unwrap();
    assert_eq!(r1.width, 1);
    assert_eq!(r1.height, 1);
    assert_eq!(r1.data, f1.data);
}

#[test]
fn crop_region_exact_subrectangle() {
    let img = numbered(4, 3);
    let out = crop_region(&img, 1, 1, 2, 2).unwrap();
    assert_eq!(out.width, 2);
    assert_eq!(out.height, 2);
    let mut expected = Vec::new();
    for iy in 0..2usize {
        for ix in 0..2usize {
            for c in 0..4usize {
                expected.push(img.data[4 * ((iy + 1) * 4 + (ix + 1)) + c]);
            }
        }
    }
    assert_eq!(out.data, expected);
}

#[test]
fn crop_region_boundary_success_and_failure() {
    let img = numbered(6, 5);
    // x + w == width and y + h == height must succeed
    let ok = crop_region(&img, 2, 1, 4, 4);
    assert!(ok.is_ok());
    let full = crop_region(&img, 0, 0, 6, 5);
    assert!(full.is_ok());
    // one pixel beyond either edge must fail
    assert_eq!(crop_region(&img, 3, 1, 4, 4).unwrap_err(), RegionError::OutOfBounds);
    assert_eq!(crop_region(&img, 2, 2, 4, 4).unwrap_err(), RegionError::OutOfBounds);
    assert_eq!(crop_region(&img, 0, 0, 7, 5).unwrap_err(), RegionError::OutOfBounds);
    assert_eq!(crop_region(&img, 0, 0, 6, 6).unwrap_err(), RegionError::OutOfBounds);
    // zero-size rectangles fail as empty, inside or beyond the canvas
    assert_eq!(crop_region(&img, 1, 1, 0, 2).unwrap_err(), RegionError::EmptyRegion);
    assert_eq!(crop_region(&img, 1, 1, 2, 0).unwrap_err(), RegionError::EmptyRegion);
    assert_eq!(crop_region(&img, 7, 0, 0, 2).unwrap_err(), RegionError::EmptyRegion);
}

#[test]
fn scaled_display_composites_at_logical_size() {
    // scale factor 2: physical frame is twice the logical size in each axis
    let m = MonitorInfo { x: 0, y: 0, width: 2, height: 2 };
    let physical = uniform(4, 4, 100);
    let cc = composite(vec![(m, physical)]).unwrap();
    assert_eq!(cc.virtual_width, 2);
    assert_eq!(cc.virtual_height, 2);
    assert_eq!(cc.image.width, 2);
    assert_eq!(cc.image.height, 2);
    assert_eq!(cc.image.data.len(), 2 * 2 * 4);
    let layout = layout_of(cc.monitors.clone(), cc.origin_x, cc.origin_y, cc.virtual_width, cc.virtual_height);
    let r = crop_monitor(&cc.image, &layout, 0).unwrap();
    assert_eq!(r.width, 2);
    assert_eq!(r.height, 2);
}

#[test]
fn scenario_two_displays_side_by_side() {
    let m0 = MonitorInfo { x: 0, y: 0, width: 1920, height: 1080 };
    let m1 = MonitorInfo { x: 1920, y: 0, width: 1280, height: 1024 };
    let f0 = uniform(1920, 1080, 40);
    let f1 = uniform(1280, 1024, 200);
    let expected1 = f1.data.clone();
    let cc = composite(vec![(m0, f0), (m1, f1)]).unwrap();
    assert_eq!(cc.origin_x, 0);
    assert_eq!(cc.origin_y, 0);
    assert_eq!(cc.virtual_width, 3200);
    assert_eq!(cc.virtual_height, 1080);
    let layout = layout_of(cc.monitors.clone(), cc.origin_x, cc.origin_y, cc.virtual_width, cc.virtual_height);
    let r1 = crop_monitor(&cc.image, &layout, 1).unwrap();
    assert_eq!(r1.width, 1280);
    assert_eq!(r1.height, 1024);
    assert_eq!(r1.data, expected1);
}

#[test]
fn scenario_negative_origin_display() {
    // a single monitor left of the origin: the canvas is zero-based anyway
    let m = MonitorInfo { x: -800, y: 0, width: 800, height: 600 };
    let f = uniform(800, 600, 77);
    let expected = f.data.clone();
    let cc = composite(vec![(m, f)]).unwrap();
    assert_eq!(cc.origin_x, -800);
    assert_eq!(cc.origin_y, 0);
    assert_eq!(cc.virtual_width, 800);
    assert_eq!(cc.virtual_height, 600);
    let layout = layout_of(cc.monitors.clone(), cc.origin_x, cc.origin_y, cc.virtual_width, cc.virtual_height);
    // maps to local (0, 0, 800, 600), not (-800, 0, 800, 600)
    let r = crop_monitor(&cc.image, &layout, 0).unwrap();
    assert_eq!(r.width, 800);
    assert_eq!(r.height, 600);
    assert_eq!(r.data, expected);
    assert_eq!(crop_monitor(&cc.image, &layout, 1).unwrap_err(), RegionError::InvalidMonitorIndex);
}

#[test]
fn empty_region_selection_fails() {
    // empty regardless of canvas size, even when the position lies outside
    let tiny = uniform(10, 10, 1);
    assert_eq!(crop_region(&tiny, 100, 100, 0, 50).unwrap_err(), RegionError::EmptyRegion);
    let small = uniform(640, 480, 1);
    assert_eq!(crop_region(&small, 100, 100, 0, 50).unwrap_err(), RegionError::EmptyRegion);
    let wide = uniform(3200, 1080, 1);
    assert_eq!(crop_region(&wide, 100, 100, 0, 50).unwrap_err(), RegionError::EmptyRegion);
}

#[test]
fn composite_of_nothing_fails() {
    let r = composite(Vec::new());
    assert_eq!(r.unwrap_err(), CompositionError::EmptyInput);
}

#[test]
fn overlapping_rects_later_capture_wins() {
    let m0 = MonitorInfo { x: 0, y: 0, width: 1, height: 1 };
    let m1 = MonitorInfo { x: 0, y: 0, width: 1, height: 1 };
    let f0 = uniform(1, 1, 11);
    let f1 = uniform(1, 1, 22);
    let cc = composite(vec![(m0, f0), (m1, f1)]).unwrap();
    assert_eq!(cc.virtual_width, 1);
    assert_eq!(cc.virtual_height, 1);
    assert_eq!(cc.image.data, vec![22u8; 4]);
}
