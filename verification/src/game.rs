//! The game-level controller: it owns the level data, the ball
//! controller, the camera and the entity scenes, and drives one physics
//! tick per logical update — border contacts, wall contacts into the
//! accumulator, simple-entity contacts, the ball's own tick, and the
//! camera's soft focus, in that order.

use vstd::prelude::*;
use crate::ball::{ball_radius_spec, BallController, Ball};
use crate::camera::{soft_focus_spec, cam_coord_ok, focus_point_spec, Camera};
use crate::entities::{
    pump_from_info_spec, pump_tick_spec, mine_from_info_spec, gem_from_info_spec,
    finish_from_info_spec, Finish, Gem, Mine, Pump, TWO_PI_URAD,
};
use crate::level::GameLevel;
use crate::physics::{
    Collidable, CollisionInfo, DownBorder, LeftBorder, RightBorder, SimpleCollidable, UpBorder,
};
use crate::resource::ResourceError;
use crate::scene::Scene;
use crate::vec2::Vec2;
use crate::wall::{lemma_wall_overlap_bounded, wall_from_info_spec, Wall};

verus! {

/// One collision pass of the ball against an overlap-reporting object:
/// the contact effect runs exactly on a hit.
pub open spec fn collide_step<T: Collidable>(obj: T, c: BallController) -> (T, BallController) {
    match obj.collide_spec(c.ball.pos, ball_radius_spec(c)) {
        CollisionInfo::Yes(o) => obj.on_collision_spec(c, o),
        CollisionInfo::No => (obj, c),
    }
}

/// One contact pass of the ball against a simple object: the direct
/// effect runs exactly on contact.
pub open spec fn simple_step<T: SimpleCollidable>(obj: T, c: BallController) -> (
    T,
    BallController,
) {
    if obj.simple_collide_spec(c.ball.pos, ball_radius_spec(c)) {
        obj.on_simple_spec(c)
    } else {
        (obj, c)
    }
}

/// The ball controller after colliding with the first `k` walls in
/// order; walls themselves never change on contact.
pub open spec fn walls_phase(c: BallController, walls: Seq<Wall>, k: int) -> BallController
    decreases k,
{
    if k <= 0 {
        c
    } else {
        collide_step(walls[k - 1], walls_phase(c, walls, k - 1)).1
    }
}

/// The pumps and the ball controller after contact with the first `k`
/// pumps in order.
pub open spec fn pumps_phase(c: BallController, pumps: Seq<Pump>, k: int) -> (
    Seq<Pump>,
    BallController,
)
    decreases k,
{
    if k <= 0 {
        (pumps, c)
    } else {
        let (ps, c1) = pumps_phase(c, pumps, k - 1);
        let (p2, c2) = simple_step(ps[k - 1], c1);
        (ps.update(k - 1, p2), c2)
    }
}

/// The ball controller after contact with the first `k` mines in order;
/// mines themselves never change on contact.
pub open spec fn mines_phase(c: BallController, mines: Seq<Mine>, k: int) -> BallController
    decreases k,
{
    if k <= 0 {
        c
    } else {
        simple_step(mines[k - 1], mines_phase(c, mines, k - 1)).1
    }
}

/// The gems and the ball controller after contact with the first `k`
/// gems in order.
pub open spec fn gems_phase(c: BallController, gems: Seq<Gem>, k: int) -> (
    Seq<Gem>,
    BallController,
)
    decreases k,
{
    if k <= 0 {
        (gems, c)
    } else {
        let (gs, c1) = gems_phase(c, gems, k - 1);
        let (g2, c2) = simple_step(gs[k - 1], c1);
        (gs.update(k - 1, g2), c2)
    }
}

/// The game-level controller.
#[derive(Debug)]
pub struct GameController {
    pub level: GameLevel,
    pub ball: BallController,
    pub camera: Camera,
    pub walls: Scene<Wall>,
    pub pumps: Vec<Pump>,
    pub mines: Scene<Mine>,
    pub gems: Scene<Gem>,
    pub finish: Option<Finish>,
}

impl GameController {
    /// The state window within which one tick is free of overflow: the
    /// contact accumulator empty at the start of the tick, the ball
    /// within the play window, and the entity collections within their
    /// counting windows.
    pub open spec fn tick_req(self) -> bool {
        &&& self.level.wf()
        &&& self.ball.ball.pos.in_bounds()
        &&& -40_000_000 <= self.ball.ball.vel.x <= 40_000_000
        &&& -40_000_000 <= self.ball.ball.vel.y <= 40_000_000
        &&& 0 <= self.ball.ball.size <= 10_000_000
        &&& self.ball.num_overlaps == 0
        &&& self.ball.acc_overlaps == (Vec2 { x: 0, y: 0 })
        &&& self.walls.props@.len() <= 1_000_000
        &&& forall|i: int|
            0 <= i < self.walls.props@.len() ==> (#[trigger] self.walls.props@[i]).in_play_window()
        &&& self.pumps@.len() <= 100_000
        &&& forall|i: int|
            0 <= i < self.pumps@.len() ==> {
                let p = #[trigger] self.pumps@[i];
                p.pos.in_bounds() && 0 <= p.rot <= TWO_PI_URAD && -1_000_000_000 <= p.time_to_pump
                    <= 1_000_000_000
            }
        &&& forall|i: int|
            0 <= i < self.mines.props@.len() ==> (#[trigger] self.mines.props@[i]).pos.in_bounds()
        &&& self.gems.props@.len() <= 1_000_000
        &&& forall|i: int|
            0 <= i < self.gems.props@.len() ==> (#[trigger] self.gems.props@[i]).pos.in_bounds()
        &&& self.ball.num_gems + self.gems.props@.len() <= u32::MAX
        &&& match self.finish {
            Some(f) => f.pos.in_bounds(),
            None => true,
        }
        &&& cam_coord_ok(self.camera.pos.x as int)
        &&& cam_coord_ok(self.camera.pos.y as int)
        &&& 0 < self.camera.width <= 2_000_000_000
        &&& 0 < self.camera.height <= 2_000_000_000
        &&& self.camera.half_width == self.camera.width as int / 2
        &&& self.camera.half_height == self.camera.height as int / 2
    }

    /// Runtime check for [`Self::tick_req`] without its quantified
    /// clauses: whether the ball alone is within the window a tick needs.
    pub fn ball_within_tick_window(&self) -> (r: bool)
        ensures
            r == (self.ball.ball.pos.in_bounds() && -40_000_000 <= self.ball.ball.vel.x
                <= 40_000_000 && -40_000_000 <= self.ball.ball.vel.y <= 40_000_000 && 0
                <= self.ball.ball.size <= 10_000_000 && self.ball.num_overlaps == 0
                && self.ball.acc_overlaps == (Vec2 { x: 0, y: 0 })),
    {
        self.ball.ball.pos.x >= -crate::vec2::MAX_COORD && self.ball.ball.pos.x
            <= crate::vec2::MAX_COORD && self.ball.ball.pos.y >= -crate::vec2::MAX_COORD
            && self.ball.ball.pos.y <= crate::vec2::MAX_COORD && self.ball.ball.vel.x
            >= -40_000_000 && self.ball.ball.vel.x <= 40_000_000 && self.ball.ball.vel.y
            >= -40_000_000 && self.ball.ball.vel.y <= 40_000_000 && self.ball.ball.size >= 0
            && self.ball.ball.size <= 10_000_000 && self.ball.num_overlaps == 0
            && self.ball.acc_overlaps.x == 0 && self.ball.acc_overlaps.y == 0
    }

    /// Runtime check for the whole of [`Self::tick_req`], for drivers
    /// that take their state from outside (a level file) and must refuse
    /// it before driving a tick: the library cannot check its callers'
    /// ghost preconditions at run time, so this function does.
    pub fn within_tick_req(&self) -> (r: bool)
        ensures
            r == self.tick_req(),
    {
        if !self.level.is_wf() {
            return false;
        }
        if !self.ball_within_tick_window() {
            return false;
        }
        let nw = self.walls.len();
        if !(nw <= 1_000_000) {
            return false;
        }
        let mut i: usize = 0;
        while i < nw
            invariant
                0 <= i <= nw,
                nw == self.walls.props@.len(),
                forall|j: int|
                    0 <= j < i ==> (#[trigger] self.walls.props@[j]).in_play_window(),
            decreases nw - i,
        {
            let w = self.walls.get(i);
            if !(w.pos.x >= -30_000_000 && w.pos.x <= 30_000_000 && w.pos.y >= -30_000_000
                && w.pos.y <= 30_000_000 && w.dim.x >= 0 && w.dim.y >= 0 && w.dim.x <= 60_000_000
                && w.dim.y <= 60_000_000 && w.pos.x + w.dim.x <= 30_000_000 && w.pos.y + w.dim.y
                <= 30_000_000) {
                return false;
            }
            i = i + 1;
        }
        let np = self.pumps.len();
        if !(np <= 100_000) {
            return false;
        }
        let mut i: usize = 0;
        while i < np
            invariant
                0 <= i <= np,
                np == self.pumps@.len(),
                forall|j: int|
                    0 <= j < i ==> {
                        let p = #[trigger] self.pumps@[j];
                        p.pos.in_bounds() && 0 <= p.rot <= TWO_PI_URAD && -1_000_000_000
                            <= p.time_to_pump <= 1_000_000_000
                    },
            decreases np - i,
        {
            let p = self.pumps[i];
            if !(p.pos.x >= -crate::vec2::MAX_COORD && p.pos.x <= crate::vec2::MAX_COORD
                && p.pos.y >= -crate::vec2::MAX_COORD && p.pos.y <= crate::vec2::MAX_COORD
                && p.rot >= 0 && p.rot <= TWO_PI_URAD && p.time_to_pump >= -1_000_000_000
                && p.time_to_pump <= 1_000_000_000) {
                return false;
            }
            i = i + 1;
        }
        let nm = self.mines.len();
        let mut i: usize = 0;
        while i < nm
            invariant
                0 <= i <= nm,
                nm == self.mines.props@.len(),
                forall|j: int|
                    0 <= j < i ==> (#[trigger] self.mines.props@[j]).pos.in_bounds(),
            decreases nm - i,
        {
            let m = self.mines.get(i);
            if !(m.pos.x >= -crate::vec2::MAX_COORD && m.pos.x <= crate::vec2::MAX_COORD
                && m.pos.y >= -crate::vec2::MAX_COORD && m.pos.y <= crate::vec2::MAX_COORD) {
                return false;
            }
            i = i + 1;
        }
        let ng = self.gems.len();
        if !(ng <= 1_000_000) {
            return false;
        }
        let mut i: usize = 0;
        while i < ng
            invariant
                0 <= i <= ng,
                ng == self.gems.props@.len(),
                forall|j: int|
                    0 <= j < i ==> (#[trigger] self.gems.props@[j]).pos.in_bounds(),
            decreases ng - i,
        {
            let g = self.gems.get(i);
            if !(g.pos.x >= -crate::vec2::MAX_COORD && g.pos.x <= crate::vec2::MAX_COORD
                && g.pos.y >= -crate::vec2::MAX_COORD && g.pos.y <= crate::vec2::MAX_COORD) {
                return false;
            }
            i = i + 1;
        }
        if !((self.ball.num_gems as u64) + (ng as u64) <= (u32::MAX as u64)) {
            return false;
        }
        match &self.finish {
            Some(f) => {
                if !(f.pos.x >= -crate::vec2::MAX_COORD && f.pos.x <= crate::vec2::MAX_COORD
                    && f.pos.y >= -crate::vec2::MAX_COORD && f.pos.y <= crate::vec2::MAX_COORD) {
                    return false;
                }
            },
            None => {},
        }
        self.camera.pos.x >= -0x2000_0000_0000_0000 && self.camera.pos.x <= 0x2000_0000_0000_0000
            && self.camera.pos.y >= -0x2000_0000_0000_0000 && self.camera.pos.y
            <= 0x2000_0000_0000_0000 && self.camera.width > 0 && self.camera.width
            <= 2_000_000_000 && self.camera.height > 0 && self.camera.height <= 2_000_000_000
            && self.camera.half_width == self.camera.width / 2 && self.camera.half_height
            == self.camera.height / 2
    }

    /// Builds a game controller for `level`: the ball at the level's
    /// spawn point with the default size, the camera centered on it, and
    /// one physics entity per descriptor. Nothing visual is acquired
    /// here, so construction always succeeds.
    pub fn new(level: GameLevel) -> (r: Result<GameController, ResourceError>)
        requires
            level.wf(),
        ensures
            r matches Ok(c) && {
                let bp = Vec2 {
                    x: (1000 * level.ball_pos.x) as i64,
                    y: (1000 * level.ball_pos.y) as i64,
                };
                let dims = Vec2 {
                    x: (1000 * level.map.width as i64) as i64,
                    y: (1000 * level.map.height as i64) as i64,
                };
                let cam0 = Camera {
                    pos: Vec2 { x: 0, y: 0 },
                    width: 320_000i64,
                    height: 200_000i64,
                    half_width: 160_000i64,
                    half_height: 100_000i64,
                };
                &&& c.level == level
                &&& c.ball.ball == (Ball {
                    pos: bp,
                    vel: Vec2 { x: 0, y: 0 },
                    size: crate::ball::BALL_DEFAULT_SIZE,
                })
                &&& c.ball.thrust_right == false && c.ball.thrust_left == false
                    && c.ball.thrust_up == false && c.ball.thrust_down == false
                &&& c.ball.acc_overlaps == (Vec2 { x: 0, y: 0 }) && c.ball.num_overlaps == 0
                    && c.ball.num_gems == 0
                &&& c.camera == (Camera {
                    pos: Vec2 {
                        x: (focus_point_spec(cam0, bp, dims).x - 160_000) as i64,
                        y: (focus_point_spec(cam0, bp, dims).y - 100_000) as i64,
                    },
                    ..cam0
                })
                &&& c.walls.props@.len() == level.walls@.len()
                &&& forall|j: int|
                    0 <= j < level.walls@.len() ==> c.walls.props@[j] == wall_from_info_spec(
                        #[trigger] level.walls@[j],
                    )
                &&& c.pumps@.len() == level.pumps@.len()
                &&& forall|j: int|
                    0 <= j < level.pumps@.len() ==> c.pumps@[j] == pump_from_info_spec(
                        #[trigger] level.pumps@[j],
                    )
                &&& c.mines.props@.len() == level.mines@.len()
                &&& forall|j: int|
                    0 <= j < level.mines@.len() ==> c.mines.props@[j] == mine_from_info_spec(
                        #[trigger] level.mines@[j],
                    )
                &&& c.gems.props@.len() == level.gems@.len()
                &&& forall|j: int|
                    0 <= j < level.gems@.len() ==> c.gems.props@[j] == gem_from_info_spec(
                        #[trigger] level.gems@[j],
                    )
                &&& c.finish == match level.finish {
                    Some(info) => Some(finish_from_info_spec(info)),
                    None => None::<Finish>,
                }
            },
    {
        let ball_pos = level.ball_position();
        let ball = Ball::with_default_size(ball_pos);
        let ball = match BallController::new(ball) {
            Ok(b) => b,
            Err(e) => {
                return Err(e);
            },
        };
        let mut camera = Camera::default();
        camera.focus_on(ball_pos, level.map().dimensions());

        let mut walls: Vec<Wall> = Vec::new();
        let mut i: usize = 0;
        let nw = level.walls().len();
        while i < nw
            invariant
                0 <= i <= nw,
                nw == level.walls@.len(),
                level.wf(),
                walls@.len() == i,
                forall|j: int|
                    0 <= j < i ==> walls@[j] == wall_from_info_spec(#[trigger] level.walls@[j]),
            decreases nw - i,
        {
            walls.push(crate::wall::Wall::new(level.walls[i]));
            i = i + 1;
        }

        let mut pumps: Vec<Pump> = Vec::new();
        let mut i: usize = 0;
        let np = level.pumps().len();
        while i < np
            invariant
                0 <= i <= np,
                np == level.pumps@.len(),
                level.wf(),
                pumps@.len() == i,
                forall|j: int|
                    0 <= j < i ==> pumps@[j] == pump_from_info_spec(#[trigger] level.pumps@[j]),
            decreases np - i,
        {
            pumps.push(Pump::new(level.pumps[i]));
            i = i + 1;
        }

        let mut mines: Vec<Mine> = Vec::new();
        let mut i: usize = 0;
        let nm = level.mines().len();
        while i < nm
            invariant
                0 <= i <= nm,
                nm == level.mines@.len(),
                level.wf(),
                mines@.len() == i,
                forall|j: int|
                    0 <= j < i ==> mines@[j] == mine_from_info_spec(#[trigger] level.mines@[j]),
            decreases nm - i,
        {
            mines.push(Mine::new(level.mines[i]));
            i = i + 1;
        }

        let mut gems: Vec<Gem> = Vec::new();
        let mut i: usize = 0;
        let ng = level.gems().len();
        while i < ng
            invariant
                0 <= i <= ng,
                ng == level.gems@.len(),
                level.wf(),
                gems@.len() == i,
                forall|j: int|
                    0 <= j < i ==> gems@[j] == gem_from_info_spec(#[trigger] level.gems@[j]),
            decreases ng - i,
        {
            gems.push(Gem::new(level.gems[i]));
            i = i + 1;
        }

        let finish = match level.finish_flag() {
            Some(info) => Some(Finish::new(*info)),
            None => None,
        };

        Ok(
            GameController {
                level,
                ball,
                camera,
                walls: Scene::from_objects(walls),
                pumps,
                mines: Scene::from_objects(mines),
                gems: Scene::from_objects(gems),
                finish,
            },
        )
    }

    /// Drives one simulation tick over `factor` thousandths of the
    /// baseline tick: pumps run their cooldowns, the four map borders
    /// bounce the ball directly, walls register overlaps with the
    /// accumulator, pumps, mines, gems and the finish flag run their
    /// contact effects, the ball controller resolves and integrates, and
    /// the camera softly follows.
    #[verifier::rlimit(100)]
    pub fn update(&mut self, factor: i64)
        requires
            0 <= factor <= 100_000,
            old(self).tick_req(),
        ensures
            ({
                let f = factor as int;
                let s0 = *old(self);
                let pumps1 = Seq::new(
                    s0.pumps@.len(),
                    |i: int| pump_tick_spec(s0.pumps@[i], f),
                );
                let c1 = collide_step(LeftBorder(0i64), s0.ball).1;
                let c2 = collide_step(
                    RightBorder((1000 * s0.level.map.width as i64) as i64),
                    c1,
                ).1;
                let c3 = collide_step(UpBorder(0i64), c2).1;
                let c4 = collide_step(
                    DownBorder((1000 * s0.level.map.height as i64) as i64),
                    c3,
                ).1;
                let c5 = walls_phase(c4, s0.walls.props@, s0.walls.props@.len() as int);
                let pr = pumps_phase(c5, pumps1, pumps1.len() as int);
                let c7 = mines_phase(pr.1, s0.mines.props@, s0.mines.props@.len() as int);
                let gr = gems_phase(c7, s0.gems.props@, s0.gems.props@.len() as int);
                let fr = match s0.finish {
                    Some(f0) => {
                        let st = simple_step(f0, gr.1);
                        (Some(st.0), st.1)
                    },
                    None => (None::<Finish>, gr.1),
                };
                let c10 = fr.1.update_spec(f);
                &&& final(self).ball == c10
                &&& final(self).pumps@ == pr.0
                &&& final(self).gems.props@ == gr.0
                &&& final(self).finish == fr.0
                &&& final(self).mines.props@ == s0.mines.props@
                &&& final(self).walls.props@ == s0.walls.props@
                &&& final(self).level == s0.level
                &&& final(self).camera == (Camera {
                    pos: soft_focus_spec(
                        s0.camera,
                        c10.ball.pos,
                        Vec2 {
                            x: (1000 * s0.level.map.width as i64) as i64,
                            y: (1000 * s0.level.map.height as i64) as i64,
                        },
                    ),
                    ..s0.camera
                })
            }),
    {
        let ghost s0 = *self;
        let ghost f = factor as int;

        // Pump cooldowns and rotation phases.
        let np = self.pumps.len();
        let mut pi: usize = 0;
        while pi < np
            invariant
                0 <= pi <= np,
                np == s0.pumps@.len(),
                0 <= factor <= 100_000,
                s0.tick_req(),
                f == factor as int,
                self.level == s0.level,
                self.ball == s0.ball,
                self.camera == s0.camera,
                self.walls.props@ == s0.walls.props@,
                self.mines.props@ == s0.mines.props@,
                self.gems.props@ == s0.gems.props@,
                self.finish == s0.finish,
                self.pumps@.len() == np,
                forall|j: int|
                    0 <= j < pi ==> self.pumps@[j] == pump_tick_spec(
                        #[trigger] s0.pumps@[j],
                        f,
                    ),
                forall|j: int| pi <= j < np ==> self.pumps@[j] == #[trigger] s0.pumps@[j],
            decreases np - pi,
        {
            proof {
                assert(self.pumps@[pi as int] == s0.pumps@[pi as int]);
                assert(0 <= s0.pumps@[pi as int].rot <= TWO_PI_URAD && -1_000_000_000
                    <= s0.pumps@[pi as int].time_to_pump <= 1_000_000_000);
            }
            let p = vstd::std_specs::vec::vec_index_mut(&mut self.pumps, pi);
            p.update(factor);
            pi = pi + 1;
        }
        let ghost pumps1 = self.pumps@;
        proof {
            assert(pumps1 =~= Seq::new(s0.pumps@.len(), |i: int| pump_tick_spec(s0.pumps@[i], f)));
        }

        // Map borders bounce the ball directly.
        let mut lb = self.level.map().left_border();
        self.ball.handle_collision_with(&mut lb);
        proof {
            assert(self.ball.ball.pos.in_bounds());
        }
        let mut rb = self.level.map().right_border();
        self.ball.handle_collision_with(&mut rb);
        proof {
            assert(self.ball.ball.pos.in_bounds());
        }
        let mut ub = self.level.map().up_border();
        self.ball.handle_collision_with(&mut ub);
        proof {
            assert(self.ball.ball.pos.in_bounds());
        }
        let mut db = self.level.map().down_border();
        self.ball.handle_collision_with(&mut db);
        proof {
            assert(self.ball.ball.pos.in_bounds());
            assert(-40_000_000 <= self.ball.ball.vel.x <= 40_000_000);
            assert(-40_000_000 <= self.ball.ball.vel.y <= 40_000_000);
            assert(self.ball.ball.size == s0.ball.ball.size);
            assert(self.ball.acc_overlaps == s0.ball.acc_overlaps);
            assert(self.ball.num_overlaps == s0.ball.num_overlaps);
            assert(self.ball.num_gems == s0.ball.num_gems);
        }
        let ghost c4 = self.ball;

        // Wall contacts: each hit joins the accumulator.
        let wall_query = self.ball.position();
        let idxs = self.walls.at(wall_query);
        let nwq = idxs.len();
        let mut k: usize = 0;
        while k < nwq
            invariant
                0 <= k <= nwq,
                nwq == self.walls.props@.len(),
                idxs@.len() == nwq,
                forall|j: int| 0 <= j < nwq ==> #[trigger] idxs@[j] == j,
                0 <= factor <= 100_000,
                s0.tick_req(),
                f == factor as int,
                self.level == s0.level,
                self.camera == s0.camera,
                self.walls.props@ == s0.walls.props@,
                self.pumps@ == pumps1,
                self.mines.props@ == s0.mines.props@,
                self.gems.props@ == s0.gems.props@,
                self.finish == s0.finish,
                self.ball == walls_phase(c4, s0.walls.props@, k as int),
                self.ball.ball == c4.ball,
                c4.ball.pos.in_bounds(),
                -40_000_000 <= c4.ball.vel.x <= 40_000_000,
                -40_000_000 <= c4.ball.vel.y <= 40_000_000,
                0 <= c4.ball.size <= 10_000_000,
                c4.num_overlaps == 0,
                c4.acc_overlaps == (Vec2 { x: 0, y: 0 }),
                c4.num_gems == s0.ball.num_gems,
                self.ball.num_gems == c4.num_gems,
                self.ball.num_overlaps <= k,
                -40_000_000 * (self.ball.num_overlaps as int) <= self.ball.acc_overlaps.x
                    <= 40_000_000 * (self.ball.num_overlaps as int),
                -40_000_000 * (self.ball.num_overlaps as int) <= self.ball.acc_overlaps.y
                    <= 40_000_000 * (self.ball.num_overlaps as int),
            decreases nwq - k,
        {
            let i = idxs[k];
            proof {
                assert(self.walls.props@[i as int].in_play_window());
                lemma_wall_overlap_bounded(
                    self.walls.props@[i as int],
                    self.ball.ball.pos,
                    ball_radius_spec(self.ball),
                );
            }
            let ghost pre = self.ball;
            let w = self.walls.get_mut(i);
            self.ball.handle_collision_with(w);
            proof {
                assert(self.walls.props@ =~= s0.walls.props@);
                assert(self.ball == collide_step(s0.walls.props@[k as int], pre).1);
                assert(self.ball == walls_phase(c4, s0.walls.props@, (k + 1) as int));
            }
            k = k + 1;
        }
        let ghost c5 = self.ball;

        // Pump contacts heal the ball off cooldown.
        let mut pi: usize = 0;
        while pi < np
            invariant
                0 <= pi <= np,
                np == pumps1.len(),
                0 <= factor <= 100_000,
                s0.tick_req(),
                f == factor as int,
                self.level == s0.level,
                self.camera == s0.camera,
                self.walls.props@ == s0.walls.props@,
                self.mines.props@ == s0.mines.props@,
                self.gems.props@ == s0.gems.props@,
                self.finish == s0.finish,
                pumps1.len() == s0.pumps@.len(),
                forall|j: int|
                    0 <= j < pumps1.len() ==> #[trigger] pumps1[j] == pump_tick_spec(
                        s0.pumps@[j],
                        f,
                    ),
                self.pumps@.len() == np,
                (self.pumps@, self.ball) == pumps_phase(c5, pumps1, pi as int),
                forall|j: int| pi <= j < np ==> self.pumps@[j] == #[trigger] pumps1[j],
                self.ball.ball.pos == c5.ball.pos,
                self.ball.ball.vel == c5.ball.vel,
                self.ball.acc_overlaps == c5.acc_overlaps,
                self.ball.num_overlaps == c5.num_overlaps,
                self.ball.num_gems == c5.num_gems,
                c5.ball.pos.in_bounds(),
                0 <= c5.ball.size <= 10_000_000,
                0 <= self.ball.ball.size <= 10_000_000 + 1_000 * (pi as int),
            decreases np - pi,
        {
            proof {
                assert(self.pumps@[pi as int] == pumps1[pi as int]);
                assert(pumps1[pi as int].pos == s0.pumps@[pi as int].pos);
            }
            let p = vstd::std_specs::vec::vec_index_mut(&mut self.pumps, pi);
            self.ball.handle_simple_collision_with(p);
            proof {
                assert((self.pumps@, self.ball) == pumps_phase(c5, pumps1, (pi + 1) as int));
            }
            pi = pi + 1;
        }
        let ghost c6 = self.ball;
        let ghost pumps2 = self.pumps@;

        // Mine contacts damage the ball.
        let mine_query = self.ball.position();
        let midxs = self.mines.at(mine_query);
        let nm = midxs.len();
        let mut k: usize = 0;
        while k < nm
            invariant
                0 <= k <= nm,
                nm == self.mines.props@.len(),
                midxs@.len() == nm,
                forall|j: int| 0 <= j < nm ==> #[trigger] midxs@[j] == j,
                0 <= factor <= 100_000,
                s0.tick_req(),
                f == factor as int,
                self.level == s0.level,
                self.camera == s0.camera,
                self.walls.props@ == s0.walls.props@,
                self.pumps@ == pumps2,
                self.mines.props@ == s0.mines.props@,
                self.gems.props@ == s0.gems.props@,
                self.finish == s0.finish,
                self.ball == mines_phase(c6, s0.mines.props@, k as int),
                self.ball.ball.pos == c6.ball.pos,
                self.ball.ball.vel == c6.ball.vel,
                self.ball.acc_overlaps == c6.acc_overlaps,
                self.ball.num_overlaps == c6.num_overlaps,
                self.ball.num_gems == c6.num_gems,
                c6.ball.pos.in_bounds(),
                0 <= c6.ball.size <= 1_000_000_000,
                0 <= self.ball.ball.size <= c6.ball.size,
            decreases nm - k,
        {
            let i = midxs[k];
            let m = self.mines.get_mut(i);
            self.ball.handle_simple_collision_with(m);
            proof {
                assert(self.mines.props@ =~= s0.mines.props@);
                assert(self.ball == mines_phase(c6, s0.mines.props@, (k + 1) as int));
            }
            k = k + 1;
        }
        let ghost c7 = self.ball;

        // Gem contacts: first touch hands the gem over.
        let gem_query = self.ball.position();
        let gidxs = self.gems.at(gem_query);
        let ng = gidxs.len();
        let mut k: usize = 0;
        while k < ng
            invariant
                0 <= k <= ng,
                ng == self.gems.props@.len(),
                ng == s0.gems.props@.len(),
                gidxs@.len() == ng,
                forall|j: int| 0 <= j < ng ==> #[trigger] gidxs@[j] == j,
                0 <= factor <= 100_000,
                s0.tick_req(),
                f == factor as int,
                self.level == s0.level,
                self.camera == s0.camera,
                self.walls.props@ == s0.walls.props@,
                self.pumps@ == pumps2,
                self.mines.props@ == s0.mines.props@,
                self.finish == s0.finish,
                (self.gems.props@, self.ball) == gems_phase(c7, s0.gems.props@, k as int),
                forall|j: int| k <= j < ng ==> self.gems.props@[j] == #[trigger] s0.gems.props@[j],
                self.ball.ball.pos == c7.ball.pos,
                self.ball.ball.vel == c7.ball.vel,
                self.ball.ball.size == c7.ball.size,
                self.ball.acc_overlaps == c7.acc_overlaps,
                self.ball.num_overlaps == c7.num_overlaps,
                c7.ball.pos.in_bounds(),
                0 <= c7.ball.size <= 1_000_000_000,
                c7.num_gems == c6.num_gems,
                c6.num_gems == s0.ball.num_gems,
                self.ball.num_gems <= c7.num_gems + k,
            decreases ng - k,
        {
            let i = gidxs[k];
            proof {
                assert(self.gems.props@[i as int].pos == s0.gems.props@[i as int].pos);
            }
            let g = self.gems.get_mut(i);
            self.ball.handle_simple_collision_with(g);
            proof {
                assert((self.gems.props@, self.ball) == gems_phase(
                    c7,
                    s0.gems.props@,
                    (k + 1) as int,
                ));
            }
            k = k + 1;
        }
        let ghost c8 = self.ball;
        let ghost gems2 = self.gems.props@;

        // Finish flag contact.
        match &mut self.finish {
            Some(fl) => {
                self.ball.handle_simple_collision_with(fl);
            },
            None => {},
        }
        let ghost c9 = self.ball;

        // The ball's own tick: resolve, thrust, damp, integrate, decay.
        self.ball.update(factor);
        let ghost c10 = self.ball;

        // The camera softly follows the ball.
        let dims = self.level.map().dimensions();
        let ball_pos = self.ball.position();
        self.camera.soft_focus_on(ball_pos, dims);
    }
}

} // verus!
