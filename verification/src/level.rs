//! The level data model: entity descriptors as they appear in the level
//! file schema, the map bounds, the version header, and the level record
//! that the game and the editor work on.
//!
//! Descriptor positions and dimensions are counted in whole world units,
//! as the file schema stores them; the physics entities built from them
//! scale to thousandths on construction.

use vstd::prelude::*;
use crate::physics::{DownBorder, LeftBorder, RightBorder, UpBorder};
use crate::vec2::Vec2;

verus! {

/// Version string of the current level schema.
pub const CURRENT_VERSION: &'static str = "1.0";

/// Descriptor of a gem.
#[derive(Debug, Clone, Copy, PartialEq, Eq, Structural)]
pub struct GemInfo {
    pub pos: Vec2,
}

/// Descriptor of a pump.
#[derive(Debug, Clone, Copy, PartialEq, Eq, Structural)]
pub struct PumpInfo {
    pub pos: Vec2,
}

/// Descriptor of a mine.
#[derive(Debug, Clone, Copy, PartialEq, Eq, Structural)]
pub struct MineInfo {
    pub pos: Vec2,
}

/// Descriptor of a wall: top-left corner, dimensions, and the index of its
/// texture.
#[derive(Debug, Clone, Copy, PartialEq, Eq, Structural)]
pub struct WallInfo {
    pub pos: Vec2,
    pub dim: Vec2,
    pub texture_id: u32,
}

/// Descriptor of the finish flag.
#[derive(Debug, Clone, Copy, PartialEq, Eq, Structural)]
pub struct FinishInfo {
    pub pos: Vec2,
    pub gems_required: u32,
}

/// The game map: level bounds in whole world units. (The type would
/// naturally be called a plain map, but that word belongs to the
/// verifier's vocabulary.)
#[derive(Debug, Clone, Copy, PartialEq, Eq, Structural)]
pub struct GameMap {
    pub width: u32,
    pub height: u32,
}

impl Default for GameMap {
    /// The default map is 320 by 200 units.
    fn default() -> (r: GameMap)
        ensures
            r == (GameMap { width: 320u32, height: 200u32 }),
    {
        GameMap { width: 320, height: 200 }
    }
}

impl GameMap {
    /// A map with the given positive bounds.
    pub fn new(width: u32, height: u32) -> (r: GameMap)
        requires
            width > 0,
            height > 0,
        ensures
            r == (GameMap { width, height }),
    {
        GameMap { width, height }
    }

    /// The map bounds scaled to thousandths of a unit.
    pub fn dimensions(&self) -> (r: Vec2)
        requires
            self.width <= 1_000_000,
            self.height <= 1_000_000,
        ensures
            r == (Vec2 { x: (1000 * self.width as i64) as i64, y: (1000 * self.height as i64) as i64 }),
    {
        Vec2 { x: 1000 * (self.width as i64), y: 1000 * (self.height as i64) }
    }

    /// Grows the map just enough to contain the point `dim` (in whole
    /// units); the map never shrinks.
    pub fn expand_to_fit(&mut self, dim: Vec2)
        requires
            dim.x <= u32::MAX,
            dim.y <= u32::MAX,
        ensures
            *final(self) == (GameMap {
                width: if dim.x > 0 && dim.x as u32 > old(self).width {
                    dim.x as u32
                } else {
                    old(self).width
                },
                height: if dim.y > 0 && dim.y as u32 > old(self).height {
                    dim.y as u32
                } else {
                    old(self).height
                },
            }),
    {
        if dim.x > 0 {
            let w = dim.x as u32;
            if w > self.width {
                self.width = w;
            }
        }
        if dim.y > 0 {
            let h = dim.y as u32;
            if h > self.height {
                self.height = h;
            }
        }
    }

    /// The top edge of the map as a collidable border.
    pub fn up_border(&self) -> (r: UpBorder)
        ensures
            r == UpBorder(0i64),
    {
        UpBorder(0)
    }

    /// The bottom edge of the map as a collidable border.
    pub fn down_border(&self) -> (r: DownBorder)
        requires
            self.height <= 1_000_000,
        ensures
            r == DownBorder((1000 * self.height as i64) as i64),
    {
        DownBorder(1000 * (self.height as i64))
    }

    /// The left edge of the map as a collidable border.
    pub fn left_border(&self) -> (r: LeftBorder)
        ensures
            r == LeftBorder(0i64),
    {
        LeftBorder(0)
    }

    /// The right edge of the map as a collidable border.
    pub fn right_border(&self) -> (r: RightBorder)
        requires
            self.width <= 1_000_000,
        ensures
            r == RightBorder((1000 * self.width as i64) as i64),
    {
        RightBorder(1000 * (self.width as i64))
    }
}

/// The bare minimum shared by every level schema version: a name and the
/// schema version string, used to decide how the rest of a file should be
/// read.
#[derive(Debug, Clone)]
pub struct GameLevelHeader {
    pub name: String,
    pub version: String,
}

impl Default for GameLevelHeader {
    /// An unnamed header carrying the current schema version.
    fn default() -> (r: GameLevelHeader)
        ensures
            r.name@ == "No Name"@,
            r.version@ == "1.0"@,
    {
        GameLevelHeader {
            name: String::from_str("No Name"),
            version: String::from_str("1.0"),
        }
    }
}

impl GameLevelHeader {
    /// The version assumed for files whose header does not carry one:
    /// such files predate the versioned schema.
    pub fn default_version() -> (r: String)
        ensures
            r@ == "0.1"@,
    {
        String::from_str("0.1")
    }

    /// The level's name.
    pub fn name(&self) -> (r: &str)
        ensures
            r@ == self.name@,
    {
        self.name.as_str()
    }

    /// The schema version the level was stored with.
    pub fn version(&self) -> (r: &str)
        ensures
            r@ == self.version@,
    {
        self.version.as_str()
    }

    /// Replaces the stored schema version.
    pub fn set_version(&mut self, v: String)
        ensures
            final(self).version@ == v@,
            final(self).name == old(self).name,
    {
        self.version = v;
    }
}

/// A game level: identification, map bounds, the ball's spawn point (in
/// whole units), and the entity descriptor collections.
#[derive(Debug, Clone)]
pub struct GameLevel {
    pub name: String,
    pub version: String,
    pub map: GameMap,
    pub ball_pos: Vec2,
    pub walls: Vec<WallInfo>,
    pub pumps: Vec<PumpInfo>,
    pub mines: Vec<MineInfo>,
    pub gems: Vec<GemInfo>,
    pub finish: Option<FinishInfo>,
}

impl Default for GameLevel {
    /// An empty level: default map, spawn at (36, 36), no entities.
    fn default() -> (r: GameLevel)
        ensures
            r.name@ == "No Name"@,
            r.version@ == "1.0"@,
            r.map == (GameMap { width: 320u32, height: 200u32 }),
            r.ball_pos == (Vec2 { x: 36, y: 36 }),
            r.walls@ == Seq::<WallInfo>::empty(),
            r.pumps@ == Seq::<PumpInfo>::empty(),
            r.mines@ == Seq::<MineInfo>::empty(),
            r.gems@ == Seq::<GemInfo>::empty(),
            r.finish is None,
    {
        GameLevel {
            name: String::from_str("No Name"),
            version: String::from_str("1.0"),
            map: GameMap::default(),
            ball_pos: Vec2 { x: 36, y: 36 },
            walls: Vec::new(),
            pumps: Vec::new(),
            mines: Vec::new(),
            gems: Vec::new(),
            finish: None,
        }
    }
}

/// Truncating division of a thousandths coordinate back to whole units,
/// rounding towards zero as the stored schema does.
pub open spec fn to_units_spec(x: int) -> int {
    if x >= 0 {
        x / 1000
    } else {
        -((-x) / 1000)
    }
}

impl GameLevel {
    /// The windows within which a level's data can be handed to the
    /// physics: positive map bounds small enough for the borders, and
    /// every descriptor within the whole-unit coordinate window (walls
    /// within a tighter window, with nonnegative dimensions, so that
    /// their overlap vectors stay small).
    pub open spec fn wf(self) -> bool {
        &&& 0 < self.map.width <= 500_000
        &&& 0 < self.map.height <= 500_000
        &&& -1_000_000 <= self.ball_pos.x <= 1_000_000
        &&& -1_000_000 <= self.ball_pos.y <= 1_000_000
        &&& forall|i: int|
            0 <= i < self.walls@.len() ==> {
                let w = #[trigger] self.walls@[i];
                &&& -30_000 <= w.pos.x <= 30_000
                &&& -30_000 <= w.pos.y <= 30_000
                &&& 0 <= w.dim.x <= 30_000
                &&& 0 <= w.dim.y <= 30_000
                &&& -30_000 <= w.pos.x + w.dim.x <= 30_000
                &&& -30_000 <= w.pos.y + w.dim.y <= 30_000
            }
        &&& forall|i: int|
            0 <= i < self.pumps@.len() ==> -1_000_000 <= (#[trigger] self.pumps@[i]).pos.x
                <= 1_000_000 && -1_000_000 <= self.pumps@[i].pos.y <= 1_000_000
        &&& forall|i: int|
            0 <= i < self.mines@.len() ==> -1_000_000 <= (#[trigger] self.mines@[i]).pos.x
                <= 1_000_000 && -1_000_000 <= self.mines@[i].pos.y <= 1_000_000
        &&& forall|i: int|
            0 <= i < self.gems@.len() ==> -1_000_000 <= (#[trigger] self.gems@[i]).pos.x
                <= 1_000_000 && -1_000_000 <= self.gems@[i].pos.y <= 1_000_000
        &&& match self.finish {
            Some(f) => -1_000_000 <= f.pos.x <= 1_000_000 && -1_000_000 <= f.pos.y <= 1_000_000,
            None => true,
        }
    }

    /// Runtime check for [`Self::wf`], for callers that take levels from
    /// outside (a file, an editor session) and must refuse malformed ones
    /// before handing them to the physics.
    pub fn is_wf(&self) -> (r: bool)
        ensures
            r == self.wf(),
    {
        if !(self.map.width > 0 && self.map.width <= 500_000 && self.map.height > 0
            && self.map.height <= 500_000 && self.ball_pos.x >= -1_000_000 && self.ball_pos.x
            <= 1_000_000 && self.ball_pos.y >= -1_000_000 && self.ball_pos.y <= 1_000_000) {
            return false;
        }
        let nw = self.walls.len();
        let mut i: usize = 0;
        while i < nw
            invariant
                0 <= i <= nw,
                nw == self.walls@.len(),
                forall|j: int|
                    0 <= j < i ==> {
                        let w = #[trigger] self.walls@[j];
                        &&& -30_000 <= w.pos.x <= 30_000
                        &&& -30_000 <= w.pos.y <= 30_000
                        &&& 0 <= w.dim.x <= 30_000
                        &&& 0 <= w.dim.y <= 30_000
                        &&& -30_000 <= w.pos.x + w.dim.x <= 30_000
                        &&& -30_000 <= w.pos.y + w.dim.y <= 30_000
                    },
            decreases nw - i,
        {
            let w = self.walls[i];
            if !(w.pos.x >= -30_000 && w.pos.x <= 30_000 && w.pos.y >= -30_000 && w.pos.y
                <= 30_000 && w.dim.x >= 0 && w.dim.x <= 30_000 && w.dim.y >= 0 && w.dim.y
                <= 30_000 && w.pos.x + w.dim.x >= -30_000 && w.pos.x + w.dim.x <= 30_000 && w.pos.y
                + w.dim.y >= -30_000 && w.pos.y + w.dim.y <= 30_000) {
                return false;
            }
            i = i + 1;
        }
        let np = self.pumps.len();
        let mut i: usize = 0;
        while i < np
            invariant
                0 <= i <= np,
                np == self.pumps@.len(),
                forall|j: int|
                    0 <= j < i ==> -1_000_000 <= (#[trigger] self.pumps@[j]).pos.x <= 1_000_000
                        && -1_000_000 <= self.pumps@[j].pos.y <= 1_000_000,
            decreases np - i,
        {
            let p = self.pumps[i];
            if !(p.pos.x >= -1_000_000 && p.pos.x <= 1_000_000 && p.pos.y >= -1_000_000 && p.pos.y
                <= 1_000_000) {
                return false;
            }
            i = i + 1;
        }
        let nm = self.mines.len();
        let mut i: usize = 0;
        while i < nm
            invariant
                0 <= i <= nm,
                nm == self.mines@.len(),
                forall|j: int|
                    0 <= j < i ==> -1_000_000 <= (#[trigger] self.mines@[j]).pos.x <= 1_000_000
                        && -1_000_000 <= self.mines@[j].pos.y <= 1_000_000,
            decreases nm - i,
        {
            let m = self.mines[i];
            if !(m.pos.x >= -1_000_000 && m.pos.x <= 1_000_000 && m.pos.y >= -1_000_000 && m.pos.y
                <= 1_000_000) {
                return false;
            }
            i = i + 1;
        }
        let ng = self.gems.len();
        let mut i: usize = 0;
        while i < ng
            invariant
                0 <= i <= ng,
                ng == self.gems@.len(),
                forall|j: int|
                    0 <= j < i ==> -1_000_000 <= (#[trigger] self.gems@[j]).pos.x <= 1_000_000
                        && -1_000_000 <= self.gems@[j].pos.y <= 1_000_000,
            decreases ng - i,
        {
            let g = self.gems[i];
            if !(g.pos.x >= -1_000_000 && g.pos.x <= 1_000_000 && g.pos.y >= -1_000_000 && g.pos.y
                <= 1_000_000) {
                return false;
            }
            i = i + 1;
        }
        match &self.finish {
            Some(f) => {
                if !(f.pos.x >= -1_000_000 && f.pos.x <= 1_000_000 && f.pos.y >= -1_000_000
                    && f.pos.y <= 1_000_000) {
                    return false;
                }
            },
            None => {},
        }
        true
    }

    /// The level's name.
    pub fn name(&self) -> (r: &str)
        ensures
            r@ == self.name@,
    {
        self.name.as_str()
    }

    /// Renames the level.
    pub fn set_name(&mut self, name: String)
        ensures
            final(self).name@ == name@,
            *final(self) == (GameLevel { name: final(self).name, ..*old(self) }),
    {
        self.name = name;
    }

    /// The schema version the level was stored with.
    pub fn version(&self) -> (r: &str)
        ensures
            r@ == self.version@,
    {
        self.version.as_str()
    }

    /// Replaces the stored schema version.
    pub fn set_version(&mut self, v: String)
        ensures
            final(self).version@ == v@,
            *final(self) == (GameLevel { version: final(self).version, ..*old(self) }),
    {
        self.version = v;
    }

    /// The map bounds.
    pub fn map(&self) -> (r: &GameMap)
        ensures
            r == self.map,
    {
        &self.map
    }

    /// The ball's spawn point, scaled to thousandths of a unit.
    pub fn ball_position(&self) -> (r: Vec2)
        requires
            -1_000_000 <= self.ball_pos.x <= 1_000_000,
            -1_000_000 <= self.ball_pos.y <= 1_000_000,
        ensures
            r == (Vec2 { x: (1000 * self.ball_pos.x) as i64, y: (1000 * self.ball_pos.y) as i64 }),
    {
        Vec2 { x: 1000 * self.ball_pos.x, y: 1000 * self.ball_pos.y }
    }

    /// Stores a position in thousandths of a unit as the spawn point,
    /// truncating to whole units.
    pub fn set_ball_position(&mut self, pos: Vec2)
        requires
            pos.x > i64::MIN,
            pos.y > i64::MIN,
        ensures
            final(self).ball_pos.x == to_units_spec(pos.x as int),
            final(self).ball_pos.y == to_units_spec(pos.y as int),
            *final(self) == (GameLevel { ball_pos: final(self).ball_pos, ..*old(self) }),
    {
        let px = if pos.x >= 0 {
            pos.x / 1000
        } else {
            -((-pos.x) / 1000)
        };
        let py = if pos.y >= 0 {
            pos.y / 1000
        } else {
            -((-pos.y) / 1000)
        };
        self.ball_pos = Vec2 { x: px, y: py };
    }

    /// The wall descriptors.
    pub fn walls(&self) -> (r: &Vec<WallInfo>)
        ensures
            r == self.walls,
    {
        &self.walls
    }

    /// The pump descriptors.
    pub fn pumps(&self) -> (r: &Vec<PumpInfo>)
        ensures
            r == self.pumps,
    {
        &self.pumps
    }

    /// The mine descriptors.
    pub fn mines(&self) -> (r: &Vec<MineInfo>)
        ensures
            r == self.mines,
    {
        &self.mines
    }

    /// The gem descriptors.
    pub fn gems(&self) -> (r: &Vec<GemInfo>)
        ensures
            r == self.gems,
    {
        &self.gems
    }

    /// The finish flag descriptor, if the level has one.
    pub fn finish_flag(&self) -> (r: Option<&FinishInfo>)
        ensures
            match r {
                Some(f) => self.finish == Some(*f),
                None => self.finish is None,
            },
    {
        self.finish.as_ref()
    }

    /// Places or replaces the finish flag descriptor.
    pub fn set_finish_flag(&mut self, f: FinishInfo)
        ensures
            *final(self) == (GameLevel { finish: Some(f), ..*old(self) }),
    {
        self.finish = Some(f);
    }

    /// Removes the finish flag descriptor.
    pub fn clear_finish_flag(&mut self)
        ensures
            *final(self) == (GameLevel { finish: None, ..*old(self) }),
    {
        self.finish = None;
    }
}

} // verus!
