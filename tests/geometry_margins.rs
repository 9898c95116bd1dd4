use rlogout::geometry::{
    resolve_margins, validate, GeometryError, GridGeometry, MarginBox, MarginPolicy,
    MonitorDescriptor,
};

fn monitor(w: i32, h: i32) -> MonitorDescriptor {
    MonitorDescriptor { width_px: w, height_px: h, stable_id: String::from("DP-1") }
}

fn auto(cols: u32, w: Option<u32>, h: Option<u32>) -> GridGeometry {
    GridGeometry {
        columns_per_row: cols,
        row_spacing: 10,
        column_spacing: 20,
        inner_margin: 5,
        button_width: w,
        button_height: h,
        margins: MarginPolicy::Auto,
    }
}

#[test]
fn centred_vertical_margin_on_full_hd() {
    let g = auto(3, Some(200), Some(100));
    let m = resolve_margins(&g, &monitor(1920, 1080), 2).unwrap();
    // 2 * 100 + 2 * 2 * 5 + 1 * 10 = 230
    assert_eq!(m.top, 425);
    assert_eq!(m.bottom, 425);
    // 3 * 200 + 3 * 2 * 5 + 2 * 20 = 670
    assert_eq!(m.left, 625);
    assert_eq!(m.right, 625);
}

#[test]
fn centred_margins_are_symmetric_and_repeatable() {
    let g = auto(4, Some(123), Some(77));
    for (w, h, rows) in [(1920, 1080, 3u64), (800, 600, 1), (3841, 2161, 5)] {
        let a = resolve_margins(&g, &monitor(w, h), rows).unwrap();
        let b = resolve_margins(&g, &monitor(w, h), rows).unwrap();
        assert_eq!(a, b);
        assert_eq!(a.top, a.bottom);
        assert_eq!(a.left, a.right);
    }
}

#[test]
fn content_larger_than_monitor_gives_negative_margins() {
    let g = auto(3, Some(1000), Some(1000));
    let m = resolve_margins(&g, &monitor(1920, 1080), 2).unwrap();
    // height: 2000 + 20 + 10 = 2030; (1080 - 2030) / 2 = -475
    assert_eq!(m.top, -475);
    // width: 3000 + 30 + 40 = 3070; (1920 - 3070) / 2 = -575
    assert_eq!(m.left, -575);
    // odd difference rounds toward zero: (1081 - 2030) / 2 = -474
    let m = resolve_margins(&g, &monitor(1920, 1081), 2).unwrap();
    assert_eq!(m.top, -474);
}

#[test]
fn fixed_margins_pass_through() {
    let g = GridGeometry {
        columns_per_row: 3,
        row_spacing: 0,
        column_spacing: 0,
        inner_margin: 0,
        button_width: None,
        button_height: None,
        margins: MarginPolicy::Fixed { top: 1, bottom: 2, left: 3, right: 4 },
    };
    let m = resolve_margins(&g, &monitor(1920, 1080), 7).unwrap();
    assert_eq!(m, MarginBox { top: 1, bottom: 2, left: 3, right: 4 });
    assert_eq!(validate(&g), Ok(()));
}

#[test]
fn centring_without_sizes_is_refused() {
    let g = auto(3, Some(200), None);
    assert_eq!(resolve_margins(&g, &monitor(1920, 1080), 2), Err(GeometryError::MissingButtonSize));
    assert_eq!(validate(&g), Err(GeometryError::MissingButtonSize));
    assert_eq!(validate(&auto(3, None, Some(100))), Err(GeometryError::MissingButtonSize));
}

#[test]
fn zero_columns_is_refused() {
    assert_eq!(validate(&auto(0, Some(1), Some(1))), Err(GeometryError::ZeroColumns));
}

#[test]
fn no_rows_adds_no_spacing() {
    let g = auto(1, Some(100), Some(100));
    let m = resolve_margins(&g, &monitor(1000, 1000), 0).unwrap();
    assert_eq!(m.top, 500);
    assert_eq!(m.left, (1000 - 110) / 2);
}
