use rlogout::geometry::MonitorDescriptor;
use rlogout::surface::{
    choose_mode, clamp_primary, secondary_windows, surface_settings, KeyboardCapture,
    PresentationMode, SecondaryWindow, WindowRole,
};

fn mon(id: &str) -> MonitorDescriptor {
    MonitorDescriptor { width_px: 1920, height_px: 1080, stable_id: String::from(id) }
}

#[test]
fn overlay_needs_support_and_choice() {
    assert_eq!(choose_mode(true, "layer-shell"), PresentationMode::Overlay);
    assert_eq!(choose_mode(false, "layer-shell"), PresentationMode::Fullscreen);
    assert_eq!(choose_mode(true, "xdg"), PresentationMode::Fullscreen);
    assert_eq!(choose_mode(true, "Layer-shell"), PresentationMode::Fullscreen);
}

#[test]
fn primary_index_is_clamped() {
    assert_eq!(clamp_primary(None, 3), None);
    assert_eq!(clamp_primary(Some(1), 3), Some(1));
    assert_eq!(clamp_primary(Some(7), 3), Some(2));
    assert_eq!(clamp_primary(Some(0), 0), None);
}

#[test]
fn settings_by_role() {
    let p = surface_settings(WindowRole::Primary);
    assert!(p.anchor_left && p.anchor_top && p.anchor_right && p.anchor_bottom);
    assert_eq!(p.keyboard, KeyboardCapture::Exclusive);
    assert_eq!(p.exclusive_zone, -1);
    assert_eq!(p.namespace, "rlogout_dialog");
    let s = surface_settings(WindowRole::Secondary);
    assert_eq!(s.keyboard, KeyboardCapture::OnDemand);
    assert_eq!(s.exclusive_zone, -1);
}

#[test]
fn replicates_on_other_monitors() {
    let all = vec![mon("A"), mon("B"), mon("C")];
    let r = secondary_windows(PresentationMode::Overlay, true, false, &all[1], &all);
    assert_eq!(
        r,
        vec![
            SecondaryWindow { monitor: 0, with_buttons: false },
            SecondaryWindow { monitor: 2, with_buttons: false }
        ]
    );
    let r = secondary_windows(PresentationMode::Overlay, true, true, &all[0], &all);
    assert_eq!(
        r,
        vec![
            SecondaryWindow { monitor: 1, with_buttons: true },
            SecondaryWindow { monitor: 2, with_buttons: true }
        ]
    );
}

#[test]
fn no_replication_without_overlay_or_span() {
    let all = vec![mon("A"), mon("B")];
    assert!(secondary_windows(PresentationMode::Fullscreen, true, true, &all[0], &all).is_empty());
    assert!(secondary_windows(PresentationMode::Overlay, false, true, &all[0], &all).is_empty());
    let one = vec![mon("A")];
    assert!(secondary_windows(PresentationMode::Overlay, true, true, &one[0], &one).is_empty());
}
