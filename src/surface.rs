//! Presentation policy: which mode the windows use, which monitor the primary
//! window goes to, how each window is anchored, and which secondary windows
//! are created once the primary one has been placed.

use crate::geometry::MonitorDescriptor;
use vstd::prelude::*;

verus! {

/// How the windows are shown.
#[derive(Clone, Copy, Debug, PartialEq, Eq, Structural)]
pub enum PresentationMode {
    /// Anchored to all edges of a monitor, above other persistent surfaces.
    Overlay,
    /// An ordinary window asked to go full screen.
    Fullscreen,
}

/// Whether a window is the one that takes input first.
#[derive(Clone, Copy, Debug, PartialEq, Eq, Structural)]
pub enum WindowRole {
    Primary,
    Secondary,
}

/// How an overlay window takes the keyboard.
#[derive(Clone, Copy, Debug, PartialEq, Eq, Structural)]
pub enum KeyboardCapture {
    Exclusive,
    OnDemand,
}

/// The overlay settings of one window.
#[derive(Clone, Debug)]
pub struct SurfaceSettings {
    pub anchor_left: bool,
    pub anchor_top: bool,
    pub anchor_right: bool,
    pub anchor_bottom: bool,
    pub keyboard: KeyboardCapture,
    /// Negative: other surfaces' reserved zones are ignored and the window
    /// is drawn over them.
    pub exclusive_zone: i32,
    pub namespace: String,
}

/// A secondary window to create on the monitor at `monitor` of the display list.
#[derive(Clone, Copy, Debug, PartialEq, Eq, Structural)]
pub struct SecondaryWindow {
    pub monitor: usize,
    /// The window holds its own copy of the buttons; otherwise it is an empty backdrop.
    pub with_buttons: bool,
}

/// Name of the overlay protocol that selects overlay mode.
pub open spec fn overlay_protocol() -> Seq<char> {
    "layer-shell"@
}

/// Name under which overlay surfaces are registered.
pub open spec fn surface_namespace() -> Seq<char> {
    "rlogout_dialog"@
}

/// Overlay mode is used when the overlay protocol is supported and chosen.
pub fn choose_mode(overlay_supported: bool, protocol: &str) -> (r: PresentationMode)
    ensures
        r == (if overlay_supported && protocol@ == overlay_protocol() {
            PresentationMode::Overlay
        } else {
            PresentationMode::Fullscreen
        }),
{
    let chosen = protocol.to_owned();
    let overlay = "layer-shell".to_owned();
    proof {
        reveal_strlit("layer-shell");
    }
    if overlay_supported && chosen == overlay {
        PresentationMode::Overlay
    } else {
        PresentationMode::Fullscreen
    }
}

/// The monitor index for the primary window: the requested index clamped to
/// the last monitor, or none (the display's default) when nothing was
/// requested or no monitor is listed.
pub fn clamp_primary(requested: Option<u32>, monitor_count: u32) -> (r: Option<u32>)
    ensures
        r == (match requested {
            None => None,
            Some(i) => if monitor_count == 0 {
                None
            } else if i >= monitor_count {
                Some((monitor_count - 1) as u32)
            } else {
                Some(i)
            },
        }),
{
    match requested {
        None => None,
        Some(i) => {
            if monitor_count == 0 {
                None
            } else if i >= monitor_count {
                Some(monitor_count - 1)
            } else {
                Some(i)
            }
        },
    }
}

/// Overlay settings for a window of the given role: anchored to all four
/// edges, over reserved zones, with the keyboard held exclusively by the
/// primary window and on demand by the others.
pub fn surface_settings(role: WindowRole) -> (r: SurfaceSettings)
    ensures
        r.anchor_left && r.anchor_top && r.anchor_right && r.anchor_bottom,
        r.keyboard == (match role {
            WindowRole::Primary => KeyboardCapture::Exclusive,
            WindowRole::Secondary => KeyboardCapture::OnDemand,
        }),
        r.exclusive_zone == -1,
        r.namespace@ == surface_namespace(),
{
    proof {
        reveal_strlit("rlogout_dialog");
    }
    SurfaceSettings {
        anchor_left: true,
        anchor_top: true,
        anchor_right: true,
        anchor_bottom: true,
        keyboard: match role {
            WindowRole::Primary => KeyboardCapture::Exclusive,
            WindowRole::Secondary => KeyboardCapture::OnDemand,
        },
        exclusive_zone: -1,
        namespace: "rlogout_dialog".to_owned(),
    }
}

/// The secondary windows for the first `n` monitors of `monitors`: one for
/// each whose stable identity differs from the primary's, in display order.
pub open spec fn secondary_upto(
    monitors: Seq<MonitorDescriptor>,
    primary_id: Seq<char>,
    with_buttons: bool,
    n: int,
) -> Seq<SecondaryWindow>
    decreases n,
{
    if n <= 0 {
        Seq::empty()
    } else {
        let prev = secondary_upto(monitors, primary_id, with_buttons, n - 1);
        if monitors[n - 1].stable_id@ != primary_id {
            prev.push(SecondaryWindow { monitor: (n - 1) as usize, with_buttons })
        } else {
            prev
        }
    }
}

/// The windows to add once the primary window is known to sit on `primary`.
pub open spec fn secondary_plan(
    mode: PresentationMode,
    span: bool,
    mirror: bool,
    primary: MonitorDescriptor,
    monitors: Seq<MonitorDescriptor>,
) -> Seq<SecondaryWindow> {
    if mode == PresentationMode::Overlay && span {
        secondary_upto(monitors, primary.stable_id@, mirror, monitors.len() as int)
    } else {
        Seq::empty()
    }
}

/// Replication across monitors, run once the display server has confirmed
/// the monitor of the primary window. Only overlay mode with spanning
/// enabled replicates; each other monitor gets a window, with buttons only
/// when mirroring is on.
pub fn secondary_windows(
    mode: PresentationMode,
    span: bool,
    mirror: bool,
    primary: &MonitorDescriptor,
    monitors: &Vec<MonitorDescriptor>,
) -> (r: Vec<SecondaryWindow>)
    ensures
        r@ == secondary_plan(mode, span, mirror, *primary, monitors@),
{
    let mut r: Vec<SecondaryWindow> = Vec::new();
    if !(matches!(mode, PresentationMode::Overlay) && span) {
        return r;
    }
    let mut i: usize = 0;
    while i < monitors.len()
        invariant
            i <= monitors@.len(),
            r@ == secondary_upto(monitors@, primary.stable_id@, mirror, i as int),
        decreases monitors@.len() - i,
    {
        if monitors[i].stable_id != primary.stable_id {
            r.push(SecondaryWindow { monitor: i, with_buttons: mirror });
        }
        i = i + 1;
    }
    r
}

} // verus!
