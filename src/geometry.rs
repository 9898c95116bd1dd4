//! Per-monitor margins around the button grid: fixed, or centred from the
//! monitor's size and the buttons' size.

use vstd::prelude::*;

verus! {

/// A snapshot of one display as the windowing layer reports it.
#[derive(Clone, Debug)]
pub struct MonitorDescriptor {
    pub width_px: i32,
    pub height_px: i32,
    /// A descriptive key that stays the same when the display set is listed again.
    pub stable_id: String,
}

/// How the margins around the grid are chosen.
#[derive(Clone, Copy, Debug, PartialEq, Eq, Structural)]
pub enum MarginPolicy {
    /// Margins given by the caller, whatever the monitor.
    Fixed { top: u32, bottom: u32, left: u32, right: u32 },
    /// Margins that centre the grid on the monitor.
    Auto,
}

/// The sizing parameters of the button grid.
#[derive(Clone, Copy, Debug, PartialEq, Eq, Structural)]
pub struct GridGeometry {
    pub columns_per_row: u32,
    pub row_spacing: u32,
    pub column_spacing: u32,
    /// Margin around each button, on all four sides.
    pub inner_margin: u32,
    pub button_width: Option<u32>,
    pub button_height: Option<u32>,
    pub margins: MarginPolicy,
}

/// Margins of the grid inside its window, in device pixels. A negative value
/// means that the content is larger than the monitor.
#[derive(Clone, Copy, Debug, PartialEq, Eq, Structural)]
pub struct MarginBox {
    pub top: i128,
    pub bottom: i128,
    pub left: i128,
    pub right: i128,
}

#[derive(Clone, Copy, Debug, PartialEq, Eq, Structural)]
pub enum GeometryError {
    /// The grid was asked for zero columns per row.
    ZeroColumns,
    /// Centring was asked for without a button width and height.
    MissingButtonSize,
}

/// Number of gaps between `n` consecutive rows or columns.
pub open spec fn gaps(n: int) -> int {
    if n <= 0 {
        0
    } else {
        n - 1
    }
}

/// Extent taken by `n` buttons of size `size` side by side, each with
/// `inner` on both sides, and `spacing` between neighbours.
pub open spec fn content_extent(n: int, size: int, inner: int, spacing: int) -> int {
    n * size + n * 2 * inner + gaps(n) * spacing
}

/// Half of `d`, rounded toward zero.
pub open spec fn half_toward_zero(d: int) -> int {
    if d >= 0 {
        d / 2
    } else {
        -((-d) / 2)
    }
}

/// Margin on each side of an axis that centres `content` in `extent`.
pub open spec fn centred_margin(extent: int, content: int) -> int {
    half_toward_zero(extent - content)
}

/// Centring is possible: either margins are fixed, or both button sizes are known.
pub open spec fn sizes_known(g: GridGeometry) -> bool {
    g.margins is Auto ==> (g.button_width is Some && g.button_height is Some)
}

/// The margins for a grid of `rows` rows on a monitor of `width` by `height`.
pub open spec fn margins_for(g: GridGeometry, width: int, height: int, rows: int) -> MarginBox
    recommends
        sizes_known(g),
{
    match g.margins {
        MarginPolicy::Fixed { top, bottom, left, right } => MarginBox {
            top: top as i128,
            bottom: bottom as i128,
            left: left as i128,
            right: right as i128,
        },
        MarginPolicy::Auto => {
            let v = centred_margin(
                height,
                content_extent(
                    rows,
                    g.button_height.unwrap() as int,
                    g.inner_margin as int,
                    g.row_spacing as int,
                ),
            );
            let h = centred_margin(
                width,
                content_extent(
                    g.columns_per_row as int,
                    g.button_width.unwrap() as int,
                    g.inner_margin as int,
                    g.column_spacing as int,
                ),
            );
            MarginBox { top: v as i128, bottom: v as i128, left: h as i128, right: h as i128 }
        },
    }
}

/// The startup check of the grid parameters: zero columns are refused first,
/// then centring without both button sizes.
pub fn validate(g: &GridGeometry) -> (r: Result<(), GeometryError>)
    ensures
        g.columns_per_row == 0 ==> r == Err::<(), GeometryError>(GeometryError::ZeroColumns),
        g.columns_per_row >= 1 && !sizes_known(*g) ==> r == Err::<(), GeometryError>(
            GeometryError::MissingButtonSize,
        ),
        g.columns_per_row >= 1 && sizes_known(*g) ==> r == Ok::<(), GeometryError>(()),
{
    if g.columns_per_row == 0 {
        Err(GeometryError::ZeroColumns)
    } else if matches!(g.margins, MarginPolicy::Auto) && (g.button_width.is_none()
        || g.button_height.is_none()) {
        Err(GeometryError::MissingButtonSize)
    } else {
        Ok(())
    }
}

fn content_extent_exec(n: u64, size: u32, inner: u32, spacing: u32) -> (r: i128)
    ensures
        r == content_extent(n as int, size as int, inner as int, spacing as int),
        0 <= r < 0x1_0000_0000_0000_0000_0000_0000_0000,
{
    let ni = n as i128;
    let gaps_n: i128 = if n == 0 {
        0
    } else {
        ni - 1
    };
    proof {
        let nn = n as int;
        let s = size as int;
        let m = inner as int;
        let p = spacing as int;
        assert(0 <= nn * s <= 0x1_0000_0000_0000_0000 * 0x1_0000_0000) by (nonlinear_arith)
            requires 0 <= nn < 0x1_0000_0000_0000_0000, 0 <= s < 0x1_0000_0000;
        assert(0 <= nn * 2 * m <= 0x1_0000_0000_0000_0000 * 0x2_0000_0000) by (nonlinear_arith)
            requires 0 <= nn < 0x1_0000_0000_0000_0000, 0 <= m < 0x1_0000_0000;
        assert(0 <= gaps_n * p <= 0x1_0000_0000_0000_0000 * 0x1_0000_0000) by (nonlinear_arith)
            requires 0 <= gaps_n < 0x1_0000_0000_0000_0000, 0 <= p < 0x1_0000_0000;
    }
    ni * (size as i128) + ni * 2 * (inner as i128) + gaps_n * (spacing as i128)
}

fn half_toward_zero_exec(d: i128) -> (r: i128)
    requires
        -0x100_0000_0000_0000_0000_0000_0000_0000 < d < 0x100_0000_0000_0000_0000_0000_0000_0000,
    ensures
        r == half_toward_zero(d as int),
{
    if d >= 0 {
        d / 2
    } else {
        -((-d) / 2)
    }
}

/// The margins of the grid on one monitor. Fixed margins are passed through;
/// centring splits what the monitor leaves around the content evenly between
/// the two edges of each axis, negative where the content is larger.
pub fn resolve_margins(g: &GridGeometry, monitor: &MonitorDescriptor, rows: u64) -> (r: Result<
    MarginBox,
    GeometryError,
>)
    ensures
        sizes_known(*g) ==> r == Ok::<MarginBox, GeometryError>(
            margins_for(*g, monitor.width_px as int, monitor.height_px as int, rows as int),
        ),
        !sizes_known(*g) ==> r == Err::<MarginBox, GeometryError>(
            GeometryError::MissingButtonSize,
        ),
{
    match g.margins {
        MarginPolicy::Fixed { top, bottom, left, right } => Ok(
            MarginBox { top: top as i128, bottom: bottom as i128, left: left as i128, right: right as i128 },
        ),
        MarginPolicy::Auto => {
            match (g.button_width, g.button_height) {
                (Some(w), Some(h)) => {
                    let total_h = content_extent_exec(rows, h, g.inner_margin, g.row_spacing);
                    let v = half_toward_zero_exec(monitor.height_px as i128 - total_h);
                    let total_w = content_extent_exec(
                        g.columns_per_row as u64,
                        w,
                        g.inner_margin,
                        g.column_spacing,
                    );
                    let s = half_toward_zero_exec(monitor.width_px as i128 - total_w);
                    Ok(MarginBox { top: v, bottom: v, left: s, right: s })
                },
                _ => Err(GeometryError::MissingButtonSize),
            }
        },
    }
}

/// Centred margins are the same on both edges of each axis.
pub proof fn lemma_centred_margins_symmetric(
    g: GridGeometry,
    width: int,
    height: int,
    rows: int,
)
    requires
        g.margins is Auto,
        sizes_known(g),
    ensures
        margins_for(g, width, height, rows).top == margins_for(g, width, height, rows).bottom,
        margins_for(g, width, height, rows).left == margins_for(g, width, height, rows).right,
{
}

} // verus!
