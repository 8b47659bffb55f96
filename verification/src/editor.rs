//! The level editor's data operations: the placeholder for the object
//! being placed, placing an object into a level at a cursor position, and
//! removing the object found under a position. Input handling and drawing
//! live outside the library; these functions carry the rules — grid
//! snapping for walls, map growth, and the gem count kept in the finish
//! flag.

use vstd::prelude::*;
use crate::level::{FinishInfo, GameLevel, GemInfo, MineInfo, PumpInfo, WallInfo, to_units_spec};
use crate::util::{round_mult, round_mult_spec};
use crate::vec2::Vec2;

verus! {

/// The object a placement press would create. Wall dimensions are counted
/// in whole units, as the level schema stores them.
#[derive(Debug, Clone, Copy, PartialEq, Eq, Structural)]
pub enum ObjectPlaceholder {
    Wall { dim: Vec2, texture_id: u32 },
    Mine,
    Pump,
    Gem,
    Ball,
    Finish,
}

impl ObjectPlaceholder {
    /// The next placeholder in the selection cycle.
    pub fn next(&self) -> (r: ObjectPlaceholder)
        ensures
            r == match *self {
                ObjectPlaceholder::Wall { .. } => ObjectPlaceholder::Mine,
                ObjectPlaceholder::Mine => ObjectPlaceholder::Pump,
                ObjectPlaceholder::Pump => ObjectPlaceholder::Gem,
                ObjectPlaceholder::Gem => ObjectPlaceholder::Ball,
                ObjectPlaceholder::Ball => ObjectPlaceholder::Finish,
                ObjectPlaceholder::Finish => ObjectPlaceholder::Wall {
                    dim: Vec2 { x: 48, y: 48 },
                    texture_id: 0u32,
                },
            },
    {
        match *self {
            ObjectPlaceholder::Wall { .. } => ObjectPlaceholder::default_mine(),
            ObjectPlaceholder::Mine => ObjectPlaceholder::default_pump(),
            ObjectPlaceholder::Pump => ObjectPlaceholder::default_gem(),
            ObjectPlaceholder::Gem => ObjectPlaceholder::default_ball(),
            ObjectPlaceholder::Ball => ObjectPlaceholder::default_finish(),
            ObjectPlaceholder::Finish => ObjectPlaceholder::default_wall(),
        }
    }

    /// The previous placeholder in the selection cycle.
    pub fn previous(&self) -> (r: ObjectPlaceholder)
        ensures
            r == match *self {
                ObjectPlaceholder::Wall { .. } => ObjectPlaceholder::Finish,
                ObjectPlaceholder::Mine => ObjectPlaceholder::Wall {
                    dim: Vec2 { x: 48, y: 48 },
                    texture_id: 0u32,
                },
                ObjectPlaceholder::Pump => ObjectPlaceholder::Mine,
                ObjectPlaceholder::Gem => ObjectPlaceholder::Pump,
                ObjectPlaceholder::Ball => ObjectPlaceholder::Gem,
                ObjectPlaceholder::Finish => ObjectPlaceholder::Ball,
            },
    {
        match *self {
            ObjectPlaceholder::Wall { .. } => ObjectPlaceholder::default_finish(),
            ObjectPlaceholder::Mine => ObjectPlaceholder::default_wall(),
            ObjectPlaceholder::Pump => ObjectPlaceholder::default_mine(),
            ObjectPlaceholder::Gem => ObjectPlaceholder::default_pump(),
            ObjectPlaceholder::Ball => ObjectPlaceholder::default_gem(),
            ObjectPlaceholder::Finish => ObjectPlaceholder::default_ball(),
        }
    }

    /// The ball-spawn placeholder.
    pub fn default_ball() -> (r: ObjectPlaceholder)
        ensures
            r == ObjectPlaceholder::Ball,
    {
        ObjectPlaceholder::Ball
    }

    /// The wall placeholder with its default 48-unit square footprint.
    pub fn default_wall() -> (r: ObjectPlaceholder)
        ensures
            r == (ObjectPlaceholder::Wall { dim: Vec2 { x: 48, y: 48 }, texture_id: 0u32 }),
    {
        ObjectPlaceholder::Wall { dim: Vec2 { x: 48, y: 48 }, texture_id: 0 }
    }

    /// The mine placeholder.
    pub fn default_mine() -> (r: ObjectPlaceholder)
        ensures
            r == ObjectPlaceholder::Mine,
    {
        ObjectPlaceholder::Mine
    }

    /// The pump placeholder.
    pub fn default_pump() -> (r: ObjectPlaceholder)
        ensures
            r == ObjectPlaceholder::Pump,
    {
        ObjectPlaceholder::Pump
    }

    /// The gem placeholder.
    pub fn default_gem() -> (r: ObjectPlaceholder)
        ensures
            r == ObjectPlaceholder::Gem,
    {
        ObjectPlaceholder::Gem
    }

    /// The finish-flag placeholder.
    pub fn default_finish() -> (r: ObjectPlaceholder)
        ensures
            r == ObjectPlaceholder::Finish,
    {
        ObjectPlaceholder::Finish
    }
}

/// A cursor position in thousandths of a unit, snapped to the 4-unit
/// placement grid and expressed in whole units.
pub open spec fn snap_to_grid_spec(c: int) -> int {
    round_mult_spec(c, 4000) / 1000
}

/// A cursor position in thousandths of a unit truncated to whole units,
/// as entity placement stores it.
pub open spec fn cursor_units_spec(c: int) -> int {
    to_units_spec(c)
}

/// Overflow window for one placement: the cursor within the editable
/// window and the counters below their ceilings.
pub open spec fn place_req(level: GameLevel, placeholder: ObjectPlaceholder, pos: Vec2) -> bool {
    &&& -1_000_000_000 <= pos.x <= 1_000_000_000
    &&& -1_000_000_000 <= pos.y <= 1_000_000_000
    &&& match placeholder {
        ObjectPlaceholder::Wall { dim, .. } => 0 <= dim.x <= 1_000_000 && 0 <= dim.y <= 1_000_000,
        ObjectPlaceholder::Gem => match level.finish {
            Some(fi) => fi.gems_required < u32::MAX,
            None => true,
        },
        ObjectPlaceholder::Finish => level.gems@.len() <= u32::MAX,
        _ => true,
    }
}

/// Places the object that `placeholder` stands for into `level` at the
/// cursor position `pos` (in thousandths of a unit): walls snap to the
/// 4-unit grid and grow the map to fit; placing a gem raises the finish
/// flag's requirement; placing the ball or the flag moves them instead of
/// adding a second one.
pub fn place_object(level: &mut GameLevel, placeholder: &ObjectPlaceholder, pos: Vec2)
    requires
        place_req(*old(level), *placeholder, pos),
    ensures
        match *placeholder {
            ObjectPlaceholder::Wall { dim, texture_id } => {
                let px = Vec2 {
                    x: snap_to_grid_spec(pos.x as int) as i64,
                    y: snap_to_grid_spec(pos.y as int) as i64,
                };
                let info = WallInfo { pos: px, dim: dim, texture_id: texture_id };
                &&& final(level).walls@ == old(level).walls@.push(info)
                &&& final(level).map.width == if px.x + dim.x > 0 && px.x + dim.x > old(
                    level,
                ).map.width {
                    (px.x + dim.x) as u32
                } else {
                    old(level).map.width
                }
                &&& final(level).map.height == if px.y + dim.y > 0 && px.y + dim.y > old(
                    level,
                ).map.height {
                    (px.y + dim.y) as u32
                } else {
                    old(level).map.height
                }
                &&& *final(level) == (GameLevel {
                    walls: final(level).walls,
                    map: final(level).map,
                    ..*old(level)
                })
            },
            ObjectPlaceholder::Mine => {
                let info = MineInfo {
                    pos: Vec2 {
                        x: cursor_units_spec(pos.x as int) as i64,
                        y: cursor_units_spec(pos.y as int) as i64,
                    },
                };
                &&& final(level).mines@ == old(level).mines@.push(info)
                &&& *final(level) == (GameLevel { mines: final(level).mines, ..*old(level) })
            },
            ObjectPlaceholder::Pump => {
                let info = PumpInfo {
                    pos: Vec2 {
                        x: cursor_units_spec(pos.x as int) as i64,
                        y: cursor_units_spec(pos.y as int) as i64,
                    },
                };
                &&& final(level).pumps@ == old(level).pumps@.push(info)
                &&& *final(level) == (GameLevel { pumps: final(level).pumps, ..*old(level) })
            },
            ObjectPlaceholder::Gem => {
                let info = GemInfo {
                    pos: Vec2 {
                        x: cursor_units_spec(pos.x as int) as i64,
                        y: cursor_units_spec(pos.y as int) as i64,
                    },
                };
                &&& final(level).gems@ == old(level).gems@.push(info)
                &&& final(level).finish == match old(level).finish {
                    Some(fi) => Some(
                        FinishInfo {
                            pos: fi.pos,
                            gems_required: (fi.gems_required + 1) as u32,
                        },
                    ),
                    None => None,
                }
                &&& *final(level) == (GameLevel {
                    gems: final(level).gems,
                    finish: final(level).finish,
                    ..*old(level)
                })
            },
            ObjectPlaceholder::Ball => {
                &&& final(level).ball_pos.x == to_units_spec(pos.x as int)
                &&& final(level).ball_pos.y == to_units_spec(pos.y as int)
                &&& *final(level) == (GameLevel { ball_pos: final(level).ball_pos, ..*old(level) })
            },
            ObjectPlaceholder::Finish => {
                let px = Vec2 {
                    x: cursor_units_spec(pos.x as int) as i64,
                    y: cursor_units_spec(pos.y as int) as i64,
                };
                &&& final(level).finish == match old(level).finish {
                    Some(fi) => Some(FinishInfo { pos: px, gems_required: fi.gems_required }),
                    None => Some(
                        FinishInfo { pos: px, gems_required: old(level).gems@.len() as u32 },
                    ),
                }
                &&& *final(level) == (GameLevel { finish: final(level).finish, ..*old(level) })
            },
        },
{
    match *placeholder {
        ObjectPlaceholder::Wall { dim, texture_id } => {
            let mx = round_mult(pos.x, 4000);
            let my = round_mult(pos.y, 4000);
            proof {
                lemma_snap_facts(pos.x as int);
                lemma_snap_facts(pos.y as int);
                lemma_exact_thousand(mx as int);
                lemma_exact_thousand(my as int);
            }
            let sx = if mx >= 0 {
                mx / 1000
            } else {
                -((-mx) / 1000)
            };
            let sy = if my >= 0 {
                my / 1000
            } else {
                -((-my) / 1000)
            };
            let px = Vec2 { x: sx, y: sy };
            let info = WallInfo { pos: px, dim, texture_id };
            level.map.expand_to_fit(Vec2 { x: px.x + dim.x, y: px.y + dim.y });
            level.walls.push(info);
        },
        ObjectPlaceholder::Mine => {
            let info = MineInfo { pos: cursor_units(pos) };
            level.mines.push(info);
        },
        ObjectPlaceholder::Pump => {
            let info = PumpInfo { pos: cursor_units(pos) };
            level.pumps.push(info);
        },
        ObjectPlaceholder::Gem => {
            let info = GemInfo { pos: cursor_units(pos) };
            level.gems.push(info);
            match &mut level.finish {
                Some(fi) => {
                    fi.gems_required = fi.gems_required + 1;
                },
                None => {},
            }
        },
        ObjectPlaceholder::Ball => {
            level.set_ball_position(pos);
        },
        ObjectPlaceholder::Finish => {
            let px = cursor_units(pos);
            match &mut level.finish {
                Some(fi) => {
                    fi.pos = px;
                },
                None => {
                    let gems_required = level.gems.len() as u32;
                    level.finish = Some(FinishInfo { pos: px, gems_required });
                },
            }
        },
    }
}

/// Whether a cursor position (in thousandths of a unit) lies on a wall
/// descriptor's rectangle, borders included.
pub open spec fn wall_point_hit(info: WallInfo, pos: Vec2) -> bool {
    &&& 1000 * info.pos.x <= pos.x <= 1000 * (info.pos.x + info.dim.x)
    &&& 1000 * info.pos.y <= pos.y <= 1000 * (info.pos.y + info.dim.y)
}

/// Whether a cursor position lies within distance `d` (in thousandths)
/// of a descriptor position in whole units.
pub open spec fn point_hit(center: Vec2, pos: Vec2, d: int) -> bool {
    crate::entities::circle_touch_spec(
        Vec2 { x: (1000 * center.x) as i64, y: (1000 * center.y) as i64 },
        pos,
        d,
    )
}

/// Removes the first object found under the cursor position `pos` (in
/// thousandths of a unit), trying walls, then mines, pumps, gems and the
/// finish flag, exactly as a point-sized probe collides with each;
/// removing a gem lowers the finish flag's requirement (stopping at
/// zero). Returns whether anything was removed.
pub fn remove_at(level: &mut GameLevel, pos: Vec2) -> (r: bool)
    requires
        old(level).wf(),
        pos.in_bounds(),
    ensures
        ({
            let l0 = *old(level);
            if exists|i: int|
                0 <= i < l0.walls@.len() && wall_point_hit(#[trigger] l0.walls@[i], pos) {
                &&& r == true
                &&& exists|i: int|
                    {
                        &&& 0 <= i < l0.walls@.len()
                        &&& wall_point_hit(#[trigger] l0.walls@[i], pos)
                        &&& forall|j: int|
                            0 <= j < i ==> !wall_point_hit(#[trigger] l0.walls@[j], pos)
                        &&& final(level).walls@ == l0.walls@.remove(i)
                        &&& *final(level) == (GameLevel { walls: final(level).walls, ..l0 })
                    }
            } else if exists|i: int|
                0 <= i < l0.mines@.len() && point_hit((#[trigger] l0.mines@[i]).pos, pos, 4_010) {
                &&& r == true
                &&& exists|i: int|
                    {
                        &&& 0 <= i < l0.mines@.len()
                        &&& point_hit((#[trigger] l0.mines@[i]).pos, pos, 4_010)
                        &&& forall|j: int|
                            0 <= j < i ==> !point_hit((#[trigger] l0.mines@[j]).pos, pos, 4_010)
                        &&& final(level).mines@ == l0.mines@.remove(i)
                        &&& *final(level) == (GameLevel { mines: final(level).mines, ..l0 })
                    }
            } else if exists|i: int|
                0 <= i < l0.pumps@.len() && point_hit((#[trigger] l0.pumps@[i]).pos, pos, 15_010) {
                &&& r == true
                &&& exists|i: int|
                    {
                        &&& 0 <= i < l0.pumps@.len()
                        &&& point_hit((#[trigger] l0.pumps@[i]).pos, pos, 15_010)
                        &&& forall|j: int|
                            0 <= j < i ==> !point_hit((#[trigger] l0.pumps@[j]).pos, pos, 15_010)
                        &&& final(level).pumps@ == l0.pumps@.remove(i)
                        &&& *final(level) == (GameLevel { pumps: final(level).pumps, ..l0 })
                    }
            } else if exists|i: int|
                0 <= i < l0.gems@.len() && point_hit((#[trigger] l0.gems@[i]).pos, pos, 13_010) {
                &&& r == true
                &&& exists|i: int|
                    {
                        &&& 0 <= i < l0.gems@.len()
                        &&& point_hit((#[trigger] l0.gems@[i]).pos, pos, 13_010)
                        &&& forall|j: int|
                            0 <= j < i ==> !point_hit((#[trigger] l0.gems@[j]).pos, pos, 13_010)
                        &&& final(level).gems@ == l0.gems@.remove(i)
                        &&& final(level).finish == match l0.finish {
                            Some(fi) => Some(
                                FinishInfo {
                                    pos: fi.pos,
                                    gems_required: if fi.gems_required > 0 {
                                        (fi.gems_required - 1) as u32
                                    } else {
                                        0u32
                                    },
                                },
                            ),
                            None => None,
                        }
                        &&& *final(level) == (GameLevel {
                            gems: final(level).gems,
                            finish: final(level).finish,
                            ..l0
                        })
                    }
            } else if (match l0.finish {
                Some(fi) => point_hit(fi.pos, pos, 13_010),
                None => false,
            }) {
                &&& r == true
                &&& final(level).finish is None
                &&& *final(level) == (GameLevel { finish: None, ..l0 })
            } else {
                &&& r == false
                &&& *final(level) == l0
            }
        }),
{
    let ghost l0 = *level;
    let nw = level.walls.len();
    let mut i: usize = 0;
    while i < nw
        invariant
            0 <= i <= nw,
            nw == level.walls@.len(),
            *level == l0,
            l0 == *old(level),
            l0.wf(),
            pos.in_bounds(),
            forall|j: int| 0 <= j < i ==> !wall_point_hit(#[trigger] l0.walls@[j], pos),
        decreases nw - i,
    {
        let w = level.walls[i];
        if pos.x >= 1000 * w.pos.x && pos.x <= 1000 * (w.pos.x + w.dim.x) && pos.y >= 1000
            * w.pos.y && pos.y <= 1000 * (w.pos.y + w.dim.y) {
            level.walls.remove(i);
            proof {
                assert(0 <= i < l0.walls@.len() && wall_point_hit(l0.walls@[i as int], pos) && (
                forall|j: int|
                    0 <= j < i ==> !wall_point_hit(#[trigger] l0.walls@[j], pos))
                    && level.walls@ == l0.walls@.remove(i as int) && *level == (GameLevel {
                    walls: level.walls,
                    ..l0
                }));
            }
            return true;
        }
        i = i + 1;
    }
    let nm = level.mines.len();
    let mut i: usize = 0;
    while i < nm
        invariant
            0 <= i <= nm,
            nm == level.mines@.len(),
            *level == l0,
            l0 == *old(level),
            l0.wf(),
            pos.in_bounds(),
            forall|j: int| 0 <= j < nw ==> !wall_point_hit(#[trigger] l0.walls@[j], pos),
            nw == l0.walls@.len(),
            forall|j: int| 0 <= j < i ==> !point_hit((#[trigger] l0.mines@[j]).pos, pos, 4_010),
        decreases nm - i,
    {
        let m = level.mines[i];
        if point_probe(m.pos, pos, 4_010) {
            level.mines.remove(i);
            proof {
                assert(0 <= i < l0.mines@.len() && point_hit(l0.mines@[i as int].pos, pos, 4_010)
                    && (forall|j: int|
                    0 <= j < i ==> !point_hit((#[trigger] l0.mines@[j]).pos, pos, 4_010))
                    && level.mines@ == l0.mines@.remove(i as int) && *level == (GameLevel {
                    mines: level.mines,
                    ..l0
                }));
            }
            return true;
        }
        i = i + 1;
    }
    let npu = level.pumps.len();
    let mut i: usize = 0;
    while i < npu
        invariant
            0 <= i <= npu,
            npu == level.pumps@.len(),
            *level == l0,
            l0 == *old(level),
            l0.wf(),
            pos.in_bounds(),
            forall|j: int| 0 <= j < nw ==> !wall_point_hit(#[trigger] l0.walls@[j], pos),
            nw == l0.walls@.len(),
            forall|j: int|
                0 <= j < l0.mines@.len() ==> !point_hit((#[trigger] l0.mines@[j]).pos, pos, 4_010),
            forall|j: int| 0 <= j < i ==> !point_hit((#[trigger] l0.pumps@[j]).pos, pos, 15_010),
        decreases npu - i,
    {
        let p = level.pumps[i];
        if point_probe(p.pos, pos, 15_010) {
            level.pumps.remove(i);
            proof {
                assert(0 <= i < l0.pumps@.len() && point_hit(l0.pumps@[i as int].pos, pos, 15_010)
                    && (forall|j: int|
                    0 <= j < i ==> !point_hit((#[trigger] l0.pumps@[j]).pos, pos, 15_010))
                    && level.pumps@ == l0.pumps@.remove(i as int) && *level == (GameLevel {
                    pumps: level.pumps,
                    ..l0
                }));
            }
            return true;
        }
        i = i + 1;
    }
    let ng = level.gems.len();
    let mut i: usize = 0;
    while i < ng
        invariant
            0 <= i <= ng,
            ng == level.gems@.len(),
            *level == l0,
            l0 == *old(level),
            l0.wf(),
            pos.in_bounds(),
            forall|j: int| 0 <= j < nw ==> !wall_point_hit(#[trigger] l0.walls@[j], pos),
            nw == l0.walls@.len(),
            forall|j: int|
                0 <= j < l0.mines@.len() ==> !point_hit((#[trigger] l0.mines@[j]).pos, pos, 4_010),
            forall|j: int|
                0 <= j < l0.pumps@.len() ==> !point_hit(
                    (#[trigger] l0.pumps@[j]).pos,
                    pos,
                    15_010,
                ),
            forall|j: int| 0 <= j < i ==> !point_hit((#[trigger] l0.gems@[j]).pos, pos, 13_010),
        decreases ng - i,
    {
        let g = level.gems[i];
        if point_probe(g.pos, pos, 13_010) {
            level.gems.remove(i);
            match &mut level.finish {
                Some(fi) => {
                    if fi.gems_required > 0 {
                        fi.gems_required = fi.gems_required - 1;
                    }
                },
                None => {},
            }
            proof {
                assert(0 <= i < l0.gems@.len() && point_hit(l0.gems@[i as int].pos, pos, 13_010)
                    && (forall|j: int|
                    0 <= j < i ==> !point_hit((#[trigger] l0.gems@[j]).pos, pos, 13_010))
                    && level.gems@ == l0.gems@.remove(i as int) && level.finish == (match l0.finish {
                    Some(fi) => Some(
                        FinishInfo {
                            pos: fi.pos,
                            gems_required: if fi.gems_required > 0 {
                                (fi.gems_required - 1) as u32
                            } else {
                                0u32
                            },
                        },
                    ),
                    None => None,
                }) && *level == (GameLevel { gems: level.gems, finish: level.finish, ..l0 }));
            }
            return true;
        }
        i = i + 1;
    }
    let hit_finish = match &level.finish {
        Some(fi) => point_probe(fi.pos, pos, 13_010),
        None => false,
    };
    if hit_finish {
        level.clear_finish_flag();
        return true;
    }
    false
}

/// Tests whether the cursor position `pos` (in thousandths) lies within
/// `d` thousandths of a descriptor position in whole units.
fn point_probe(center: Vec2, pos: Vec2, d: i64) -> (r: bool)
    requires
        -1_000_000 <= center.x <= 1_000_000,
        -1_000_000 <= center.y <= 1_000_000,
        pos.in_bounds(),
        0 <= d <= 2_000_000_000,
    ensures
        r == point_hit(center, pos, d as int),
{
    let c = Vec2 { x: 1000 * center.x, y: 1000 * center.y };
    let dx = c.x - pos.x;
    let dy = c.y - pos.y;
    proof {
        assert(0 <= dx * dx <= 4_000_000_000_000_000_000 && 0 <= dy * dy
            <= 4_000_000_000_000_000_000 && 0 <= (d as int) * (d as int)
            <= 4_000_000_000_000_000_000) by (nonlinear_arith)
            requires
                -2_000_000_000 <= dx <= 2_000_000_000,
                -2_000_000_000 <= dy <= 2_000_000_000,
                0 <= d <= 2_000_000_000,
        ;
    }
    dx * dx + dy * dy <= d * d
}

/// Truncates a cursor position in thousandths of a unit to whole units.
fn cursor_units(pos: Vec2) -> (r: Vec2)
    requires
        pos.x > i64::MIN,
        pos.y > i64::MIN,
    ensures
        r.x == to_units_spec(pos.x as int),
        r.y == to_units_spec(pos.y as int),
{
    let x = if pos.x >= 0 {
        pos.x / 1000
    } else {
        -((-pos.x) / 1000)
    };
    let y = if pos.y >= 0 {
        pos.y / 1000
    } else {
        -((-pos.y) / 1000)
    };
    Vec2 { x, y }
}

/// A snapped coordinate is a bounded multiple of a thousand, so dividing
/// it back to whole units is exact and bounded.
proof fn lemma_snap_facts(c: int)
    requires
        -1_000_000_000 <= c <= 1_000_000_000,
    ensures
        ({
            let m = round_mult_spec(c, 4000);
            &&& -1_100_000_000 <= m <= 1_100_000_000
            &&& m % 1000 == 0
            &&& -1_100_000 <= m / 1000 <= 1_100_000
        }),
{
    let m = round_mult_spec(c, 4000);
    if c >= 0 {
        let q = (c + 2000) / 4000;
        crate::util::lemma_div_mul_le(c + 2000, 4000);
        assert(q * 4000 == (4 * q) * 1000) by (nonlinear_arith);
        vstd::arithmetic::div_mod::lemma_mod_multiples_basic(4 * q, 1000);
    } else {
        let q = (-c + 2000) / 4000;
        crate::util::lemma_div_mul_le(-c + 2000, 4000);
        assert(-(q * 4000) == (-(4 * q)) * 1000) by (nonlinear_arith);
        vstd::arithmetic::div_mod::lemma_mod_multiples_basic(-(4 * q), 1000);
    }
    vstd::arithmetic::div_mod::lemma_fundamental_div_mod(m, 1000);
    vstd::arithmetic::div_mod::lemma_div_is_ordered(m, 1_100_000_000, 1000);
    vstd::arithmetic::div_mod::lemma_div_is_ordered(-1_100_000_000, m, 1000);
    assert((1_100_000int * 1000) / 1000 == 1_100_000 && ((-1_100_000int) * 1000) / 1000
        == -1_100_000) by {
        vstd::arithmetic::div_mod::lemma_div_multiples_vanish(1_100_000, 1000);
        vstd::arithmetic::div_mod::lemma_div_multiples_vanish(-1_100_000, 1000);
        assert(1_100_000int * 1000 == 1000 * 1_100_000) by (nonlinear_arith);
        assert((-1_100_000int) * 1000 == 1000 * -1_100_000) by (nonlinear_arith);
    };
}

/// For a multiple of a thousand, flooring after negation agrees with
/// negating the floor, so the truncating division of the executable code
/// meets the flooring division of the specification.
proof fn lemma_exact_thousand(m: int)
    requires
        m % 1000 == 0,
        -2_000_000_000 <= m <= 2_000_000_000,
    ensures
        -((-m) / 1000) == m / 1000,
{
    let k = m / 1000;
    vstd::arithmetic::div_mod::lemma_fundamental_div_mod(m, 1000);
    assert(-m == 1000 * (-k) + 0) by (nonlinear_arith)
        requires
            m == 1000 * k + 0,
    ;
    vstd::arithmetic::div_mod::lemma_fundamental_div_mod_converse(-m, 1000, -k, 0);
}

} // verus!
