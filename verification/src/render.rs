//! The render step: a full redraw of the surface as a list of drawing
//! commands — clear the whole surface to the background color, then draw
//! the entity as a filled circle in the foreground color.
//!
//! The commands carry fixed-point sub-unit coordinates; the hosting layer
//! scales them back to logical units when it drives the real drawing API.
//! A small pixel model (`pixel_after`) gives the commands a meaning that
//! the idempotence law is proved against.

use vstd::prelude::*;
use crate::entity::Entity;

verus! {

/// An sRGB color.
#[derive(Clone, Copy, Debug, PartialEq, Eq, Structural)]
pub struct Rgb {
    pub r: u8,
    pub g: u8,
    pub b: u8,
}

/// The background the surface is cleared to every frame.
pub open spec fn background() -> Rgb {
    Rgb { r: 0x0b, g: 0x0b, b: 0x0f }
}

/// The color the entity is drawn in.
pub open spec fn foreground() -> Rgb {
    Rgb { r: 0xff, g: 0xd1, b: 0x66 }
}

/// One drawing primitive, in sub-unit coordinates.
#[derive(Clone, Copy, Debug, PartialEq, Eq, Structural)]
pub enum DrawCmd {
    /// Fill the axis-aligned rectangle with corner `(x, y)` and the given
    /// width and height.
    FillRect { x: i64, y: i64, w: i64, h: i64, color: Rgb },
    /// Fill the disc of the given radius centered at `(cx, cy)`.
    FillCircle { cx: i64, cy: i64, radius: i64, color: Rgb },
}

/// Whether command `c` paints the point `(px, py)`.
pub open spec fn covers(c: DrawCmd, px: int, py: int) -> bool {
    match c {
        DrawCmd::FillRect { x, y, w, h, .. } => x <= px < x + w && y <= py < y + h,
        DrawCmd::FillCircle { cx, cy, radius, .. } => (px - cx) * (px - cx) + (py - cy) * (py
            - cy) <= radius * radius,
    }
}

/// The color command `c` paints with.
pub open spec fn cmd_color(c: DrawCmd) -> Rgb {
    match c {
        DrawCmd::FillRect { color, .. } => color,
        DrawCmd::FillCircle { color, .. } => color,
    }
}

/// The color of the point `(px, py)` after the commands `cmds` are drawn,
/// in order, over a surface on which the point had color `prev`.
pub open spec fn pixel_after(cmds: Seq<DrawCmd>, prev: Rgb, px: int, py: int) -> Rgb
    decreases cmds.len(),
{
    if cmds.len() == 0 {
        prev
    } else {
        pixel_after(
            cmds.drop_first(),
            if covers(cmds[0], px, py) {
                cmd_color(cmds[0])
            } else {
                prev
            },
            px,
            py,
        )
    }
}

/// The entity's radius: half its diameter, in sub-units.
pub open spec fn spec_radius(e: Entity) -> i64 {
    (e.size / 2) as i64
}

/// The full redraw of entity `e` on a `w` by `h` surface: clear the whole
/// surface to the background, then the entity as a foreground disc.
pub open spec fn render_seq(e: Entity, w: i64, h: i64) -> Seq<DrawCmd> {
    seq![
        DrawCmd::FillRect { x: 0, y: 0, w, h, color: background() },
        DrawCmd::FillCircle { cx: e.x, cy: e.y, radius: spec_radius(e), color: foreground() },
    ]
}

/// Builds the frame's drawing commands for entity `e` on a `w` by `h`
/// surface.
pub fn render_commands(e: &Entity, w: i64, h: i64) -> (cmds: Vec<DrawCmd>)
    requires
        0 <= e.size,
    ensures
        cmds@ == render_seq(*e, w, h),
{
    let mut cmds: Vec<DrawCmd> = Vec::new();
    cmds.push(DrawCmd::FillRect { x: 0, y: 0, w, h, color: Rgb { r: 0x0b, g: 0x0b, b: 0x0f } });
    cmds.push(
        DrawCmd::FillCircle {
            cx: e.x,
            cy: e.y,
            radius: e.size / 2,
            color: Rgb { r: 0xff, g: 0xd1, b: 0x66 },
        },
    );
    proof {
        assert(cmds@ =~= render_seq(*e, w, h));
    }
    cmds
}

/// Law: a frame's drawing commands paint every point of the surface the
/// same color whatever was there before — the redraw begins by clearing
/// the whole surface, so no drawing accumulates across frames.
pub proof fn lemma_render_covers_history(e: Entity, w: i64, h: i64, p1: Rgb, p2: Rgb, px: int, py: int)
    requires
        0 <= px < w,
        0 <= py < h,
    ensures
        pixel_after(render_seq(e, w, h), p1, px, py) == pixel_after(render_seq(e, w, h), p2, px, py),
{
    let cmds = render_seq(e, w, h);
    assert(covers(cmds[0], px, py));
    assert(pixel_after(cmds, p1, px, py) == pixel_after(
        cmds.drop_first(),
        background(),
        px,
        py,
    ));
    assert(pixel_after(cmds, p2, px, py) == pixel_after(
        cmds.drop_first(),
        background(),
        px,
        py,
    ));
}

/// Law: rendering is idempotent. Drawing one frame's commands a second
/// time, with the entity unchanged, leaves every point of the surface
/// exactly as the first drawing left it.
pub proof fn lemma_render_idempotent(e: Entity, w: i64, h: i64, prev: Rgb, px: int, py: int)
    requires
        0 <= px < w,
        0 <= py < h,
    ensures
        pixel_after(
            render_seq(e, w, h),
            pixel_after(render_seq(e, w, h), prev, px, py),
            px,
            py,
        ) == pixel_after(render_seq(e, w, h), prev, px, py),
{
    lemma_render_covers_history(
        e,
        w,
        h,
        pixel_after(render_seq(e, w, h), prev, px, py),
        prev,
        px,
        py,
    );
}

} // verus!
