//! The camera that tracks the ball across a map larger than the viewport:
//! it can center hard on a focus point, follow it softly within margins,
//! pan, and is clamped so that it never leaves the map's bounds.
//! Coordinates are counted in thousandths of a world unit; the stored
//! position is the viewport's top-left corner.

use vstd::prelude::*;
use crate::util::{clamp_fold, clamp_fold_spec, round_mult, round_mult_spec};
use crate::vec2::Vec2;

verus! {

/// Horizontal margin for soft focus (120 units).
pub const MARGIN_W: i64 = 120_000;

/// Vertical margin for soft focus (80 units).
pub const MARGIN_H: i64 = 80_000;

/// Window within which every camera coordinate stays representable
/// through one focus or pan operation.
pub open spec fn cam_coord_ok(c: int) -> bool {
    -0x2000_0000_0000_0000 <= c <= 0x2000_0000_0000_0000
}

/// The camera: top-left position, viewport dimensions, and their halves.
#[derive(Debug, Clone, Copy, PartialEq, Eq, Structural)]
pub struct Camera {
    pub pos: Vec2,
    pub width: i64,
    pub height: i64,
    pub half_width: i64,
    pub half_height: i64,
}

/// The camera position that centers the viewport on `focus`, clamped so
/// the viewport does not cross the map's bounds.
pub open spec fn focus_point_spec(cam: Camera, focus: Vec2, dim: Vec2) -> Vec2 {
    Vec2 {
        x: clamp_fold_spec(
            focus.x as int,
            cam.half_width as int,
            dim.x - cam.half_width,
        ) as i64,
        y: clamp_fold_spec(
            focus.y as int,
            cam.half_height as int,
            dim.y - cam.half_height,
        ) as i64,
    }
}

/// The camera position after clamping to the map bounds.
pub open spec fn clamp_to_bounds_spec(cam: Camera, dim: Vec2) -> Vec2 {
    Vec2 {
        x: clamp_fold_spec(cam.pos.x as int, 0, dim.x - cam.half_width) as i64,
        y: clamp_fold_spec(cam.pos.y as int, 0, dim.y - cam.half_height) as i64,
    }
}

/// The camera position after softly following `focus`: each axis moves
/// just enough to keep the focus within the margins of the viewport, then
/// the position is clamped to the map bounds.
pub open spec fn soft_focus_spec(cam: Camera, focus: Vec2, dim: Vec2) -> Vec2 {
    let x0 = cam.pos.x as int;
    let x1 = if focus.x - x0 - MARGIN_W < 0 {
        x0 + (focus.x - x0 - MARGIN_W)
    } else {
        x0
    };
    let x2 = if focus.x - (x1 + cam.width - MARGIN_W) > 0 {
        x1 + (focus.x - (x1 + cam.width - MARGIN_W))
    } else {
        x1
    };
    let y0 = cam.pos.y as int;
    let y1 = if focus.y - y0 - MARGIN_H < 0 {
        y0 + (focus.y - y0 - MARGIN_H)
    } else {
        y0
    };
    let y2 = if focus.y - (y1 + cam.height - MARGIN_H) > 0 {
        y1 + (focus.y - (y1 + cam.height - MARGIN_H))
    } else {
        y1
    };
    Vec2 {
        x: clamp_fold_spec(x2, 0, dim.x - cam.half_width) as i64,
        y: clamp_fold_spec(y2, 0, dim.y - cam.half_height) as i64,
    }
}

/// Overflow window for one camera operation: the camera's own fields, the
/// focus point and the map dimensions within the camera window.
pub open spec fn cam_op_req(cam: Camera, focus: Vec2, dim: Vec2) -> bool {
    &&& cam_coord_ok(cam.pos.x as int)
    &&& cam_coord_ok(cam.pos.y as int)
    &&& 0 < cam.width <= 2_000_000_000
    &&& 0 < cam.height <= 2_000_000_000
    &&& cam.half_width == cam.width as int / 2
    &&& cam.half_height == cam.height as int / 2
    &&& cam_coord_ok(focus.x as int)
    &&& cam_coord_ok(focus.y as int)
    &&& 0 <= dim.x <= 2_000_000_000_000
    &&& 0 <= dim.y <= 2_000_000_000_000
}

impl Camera {
    /// A camera with the given top-left position and viewport dimensions.
    pub fn new(pos: Vec2, width: i64, height: i64) -> (r: Camera)
        requires
            0 < width,
            0 < height,
        ensures
            r == (Camera {
                pos: pos,
                width: width,
                height: height,
                half_width: (width as int / 2) as i64,
                half_height: (height as int / 2) as i64,
            }),
    {
        Camera { pos, width, height, half_width: width / 2, half_height: height / 2 }
    }

    /// The camera's top-left position.
    pub fn position(&self) -> (r: Vec2)
        ensures
            r == self.pos,
    {
        self.pos
    }

    /// Rounds the position to whole units, halves away from zero, so the
    /// viewport sits on a pixel boundary.
    pub fn round_position(&mut self)
        requires
            -0x1000_0000_0000_0000 <= old(self).pos.x <= 0x1000_0000_0000_0000,
            -0x1000_0000_0000_0000 <= old(self).pos.y <= 0x1000_0000_0000_0000,
        ensures
            *final(self) == (Camera {
                pos: Vec2 {
                    x: round_mult_spec(old(self).pos.x as int, 1000) as i64,
                    y: round_mult_spec(old(self).pos.y as int, 1000) as i64,
                },
                ..*old(self)
            }),
    {
        let x = round_mult(self.pos.x, 1000);
        let y = round_mult(self.pos.y, 1000);
        self.pos = Vec2 { x, y };
    }

    /// Moves the camera so that the focus point lies at the center,
    /// except where that would push the viewport past the map's bounds.
    pub fn focus_on(&mut self, focus: Vec2, map_dim: Vec2)
        requires
            cam_op_req(*old(self), focus, map_dim),
        ensures
            *final(self) == (Camera {
                pos: Vec2 {
                    x: (focus_point_spec(*old(self), focus, map_dim).x - old(self).half_width) as i64,
                    y: (focus_point_spec(*old(self), focus, map_dim).y - old(self).half_height) as i64,
                },
                ..*old(self)
            }),
    {
        let px = clamp_fold(focus.x, self.half_width, map_dim.x - self.half_width);
        let py = clamp_fold(focus.y, self.half_height, map_dim.y - self.half_height);
        self.pos = Vec2 { x: px - self.half_width, y: py - self.half_height };
    }

    /// Moves the camera just enough to keep the focus point within the
    /// viewport's margins, without crossing the map's bounds.
    pub fn soft_focus_on(&mut self, focus: Vec2, map_dim: Vec2)
        requires
            cam_op_req(*old(self), focus, map_dim),
        ensures
            *final(self) == (Camera {
                pos: soft_focus_spec(*old(self), focus, map_dim),
                ..*old(self)
            }),
    {
        let rx = focus.x - self.pos.x - MARGIN_W;
        if rx < 0 {
            self.pos = Vec2 { x: self.pos.x + rx, y: self.pos.y };
        }
        let rx = focus.x - (self.pos.x + self.width - MARGIN_W);
        if rx > 0 {
            self.pos = Vec2 { x: self.pos.x + rx, y: self.pos.y };
        }
        let ry = focus.y - self.pos.y - MARGIN_H;
        if ry < 0 {
            self.pos = Vec2 { x: self.pos.x, y: self.pos.y + ry };
        }
        let ry = focus.y - (self.pos.y + self.height - MARGIN_H);
        if ry > 0 {
            self.pos = Vec2 { x: self.pos.x, y: self.pos.y + ry };
        }
        self.clamp_to_bounds(map_dim);
    }

    /// Pans the camera by `v`.
    pub fn pan(&mut self, v: Vec2)
        requires
            i64::MIN <= old(self).pos.x + v.x <= i64::MAX,
            i64::MIN <= old(self).pos.y + v.y <= i64::MAX,
        ensures
            *final(self) == (Camera {
                pos: Vec2 {
                    x: (old(self).pos.x + v.x) as i64,
                    y: (old(self).pos.y + v.y) as i64,
                },
                ..*old(self)
            }),
    {
        self.pos = self.pos.add(v);
    }

    /// Clamps the camera's position so the viewport stays on the map.
    pub fn clamp_to_bounds(&mut self, map_dim: Vec2)
        requires
            0 <= old(self).half_width <= 2_000_000_000,
            0 <= old(self).half_height <= 2_000_000_000,
            -2_000_000_000_000 <= map_dim.x <= 2_000_000_000_000,
            -2_000_000_000_000 <= map_dim.y <= 2_000_000_000_000,
        ensures
            *final(self) == (Camera {
                pos: clamp_to_bounds_spec(*old(self), map_dim),
                ..*old(self)
            }),
    {
        let x = clamp_fold(self.pos.x, 0, map_dim.x - self.half_width);
        let y = clamp_fold(self.pos.y, 0, map_dim.y - self.half_height);
        self.pos = Vec2 { x, y };
    }
}

impl Default for Camera {
    /// A camera at the origin sized to the logical viewport.
    fn default() -> (r: Camera)
        ensures
            r == (Camera {
                pos: Vec2 { x: 0, y: 0 },
                width: 320_000i64,
                height: 200_000i64,
                half_width: 160_000i64,
                half_height: 100_000i64,
            }),
    {
        Camera::new(Vec2 { x: 0, y: 0 }, 320_000, 200_000)
    }
}

} // verus!
