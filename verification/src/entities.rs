//! Simple collidable entities: pumps heal the ball on a cooldown, mines
//! damage it on every tick of contact, gems are one-shot pickups, and the
//! finish flag completes the level once enough gems have been collected.
//! None of them needs overlap geometry: a boolean contact test and a
//! direct effect suffice.

use vstd::prelude::*;
use crate::ball::BallController;
use crate::level::{FinishInfo, GemInfo, MineInfo, PumpInfo};
use crate::physics::SimpleCollidable;
use crate::scene::Positioned;
use crate::vec2::Vec2;

verus! {

/// Diameter of a pump (34 units).
pub const PUMP_SIZE: i64 = 34_000;

/// Diameter of a mine (6 units).
pub const MINE_SIZE: i64 = 6_000;

/// Diameter of a gem (24 units).
pub const GEM_SIZE: i64 = 24_000;

/// Diameter of the finish flag (24 units).
pub const FINISH_SIZE: i64 = 24_000;

/// One full turn, in millionths of a radian, for the pump's cosmetic
/// rotation phase.
pub const TWO_PI_URAD: i64 = 6_283_185;

/// Kinds of collectible items.
#[derive(Debug, Clone, Copy, PartialEq, Eq, Hash, PartialOrd, Ord)]
pub enum Item {
    Gem,
    PowerGem,
    HealingGem,
    Key(usize),
}

/// Whether two points lie within distance `d` of each other.
pub open spec fn circle_touch_spec(center: Vec2, p: Vec2, d: int) -> bool {
    let dx = center.x - p.x;
    let dy = center.y - p.y;
    dx * dx + dy * dy <= d * d
}

/// Overflow window shared by the entity contact tests.
pub open spec fn touch_req(center: Vec2, p: Vec2, radius: i64) -> bool {
    &&& center.in_bounds()
    &&& p.in_bounds()
    &&& 0 <= radius <= 1_000_000_000
}

/// Tests whether two points lie within distance `d` of each other.
fn circle_touch(center: Vec2, p: Vec2, d: i64) -> (r: bool)
    requires
        center.in_bounds(),
        p.in_bounds(),
        0 <= d <= 2_000_000_000,
    ensures
        r == circle_touch_spec(center, p, d as int),
{
    let dx = center.x - p.x;
    let dy = center.y - p.y;
    proof {
        assert(0 <= dx * dx <= 4_000_000_000_000_000_000 && 0 <= dy * dy
            <= 4_000_000_000_000_000_000 && 0 <= (d as int) * (d as int)
            <= 4_000_000_000_000_000_000) by (nonlinear_arith)
            requires
                -2_000_000_000 <= dx <= 2_000_000_000,
                -2_000_000_000 <= dy <= 2_000_000_000,
                0 <= d <= 2_000_000_000,
        ;
    }
    dx * dx + dy * dy <= d * d
}

/// The pump that a descriptor in whole units denotes.
pub open spec fn pump_from_info_spec(info: PumpInfo) -> Pump {
    Pump {
        pos: Vec2 { x: (1000 * info.pos.x) as i64, y: (1000 * info.pos.y) as i64 },
        time_to_pump: 0i64,
        rot: 0i64,
    }
}

/// The mine that a descriptor in whole units denotes.
pub open spec fn mine_from_info_spec(info: MineInfo) -> Mine {
    Mine { pos: Vec2 { x: (1000 * info.pos.x) as i64, y: (1000 * info.pos.y) as i64 } }
}

/// The gem that a descriptor in whole units denotes.
pub open spec fn gem_from_info_spec(info: GemInfo) -> Gem {
    Gem {
        pos: Vec2 { x: (1000 * info.pos.x) as i64, y: (1000 * info.pos.y) as i64 },
        picked_up: false,
    }
}

/// The finish flag that a descriptor in whole units denotes.
pub open spec fn finish_from_info_spec(info: FinishInfo) -> Finish {
    Finish {
        pos: Vec2 { x: (1000 * info.pos.x) as i64, y: (1000 * info.pos.y) as i64 },
        picked_up: false,
        gems_required: info.gems_required,
    }
}

/// A pump after one tick over `f` thousandths of a baseline tick: the
/// rotation phase advances (wrapping at a full turn) and the cooldown
/// runs down while armed.
pub open spec fn pump_tick_spec(p: Pump, f: int) -> Pump {
    Pump {
        pos: p.pos,
        time_to_pump: if p.time_to_pump > 0 {
            (p.time_to_pump - f) as i64
        } else {
            p.time_to_pump
        },
        rot: if p.rot + 25 * f > TWO_PI_URAD {
            (p.rot + 25 * f - TWO_PI_URAD) as i64
        } else {
            (p.rot + 25 * f) as i64
        },
    }
}

/// A healing station: on contact it inflates the ball by one unit, then
/// goes on a cooldown of 22 ticks. The rotation phase is cosmetic.
#[derive(Debug, Clone, Copy, PartialEq, Eq, Structural)]
pub struct Pump {
    pub pos: Vec2,
    pub time_to_pump: i64,
    pub rot: i64,
}

impl Pump {
    /// Builds the pump described by `info`, whose position is counted in
    /// whole units.
    pub fn new(info: PumpInfo) -> (r: Pump)
        requires
            -1_000_000 <= info.pos.x <= 1_000_000,
            -1_000_000 <= info.pos.y <= 1_000_000,
        ensures
            r == pump_from_info_spec(info),
    {
        Pump { pos: Vec2 { x: 1000 * info.pos.x, y: 1000 * info.pos.y }, time_to_pump: 0, rot: 0 }
    }

    /// Advances the rotation phase (wrapping at a full turn) and runs down
    /// the pump cooldown over `factor` thousandths of a tick.
    pub fn update(&mut self, factor: i64)
        requires
            0 <= factor <= 100_000,
            0 <= old(self).rot <= TWO_PI_URAD,
            -1_000_000_000 <= old(self).time_to_pump <= 1_000_000_000,
        ensures
            *final(self) == pump_tick_spec(*old(self), factor as int),
            0 <= final(self).rot <= TWO_PI_URAD,
    {
        self.rot = self.rot + 25 * factor;
        if self.rot > TWO_PI_URAD {
            self.rot = self.rot - TWO_PI_URAD;
        }
        if self.time_to_pump > 0 {
            self.time_to_pump = self.time_to_pump - factor;
        }
    }
}

impl SimpleCollidable for Pump {
    open spec fn simple_collide_req(&self, position: Vec2, radius: i64) -> bool {
        touch_req(self.pos, position, radius)
    }

    /// Contact within the pump's radius plus the ball's, tightened by two
    /// units.
    open spec fn simple_collide_spec(&self, position: Vec2, radius: i64) -> bool {
        circle_touch_spec(self.pos, position, PUMP_SIZE / 2 + radius - 2_000)
    }

    open spec fn on_simple_req(&self, ball: BallController) -> bool {
        ball.ball.size <= i64::MAX - 1_000
    }

    /// Off cooldown the pump heals the ball by one unit and resets the
    /// cooldown to 22 ticks; on cooldown contact has no effect.
    open spec fn on_simple_spec(&self, ball: BallController) -> (Self, BallController) {
        if self.time_to_pump <= 0 {
            (
                Pump { pos: self.pos, time_to_pump: 22_000i64, rot: self.rot },
                crate::ball::ctrl_with_ball(
                    ball,
                    crate::ball::ball_with_size(
                        ball.ball,
                        if ball.ball.size + 1_000 >= 0 {
                            (ball.ball.size + 1_000) as i64
                        } else {
                            0
                        },
                    ),
                ),
            )
        } else {
            (*self, ball)
        }
    }

    fn test_circle_collision_simple(&self, position: Vec2, radius: i64) -> (r: bool) {
        circle_touch(self.pos, position, PUMP_SIZE / 2 + radius - 2_000)
    }

    fn on_collision_simple(&mut self, ball: &mut BallController) {
        if self.time_to_pump <= 0 {
            ball.heal(1_000);
            self.time_to_pump = 22_000;
        }
    }
}

/// A hazard: contact damages the ball by two and a half units, on every
/// tick of continued contact, with no cooldown.
#[derive(Debug, Clone, Copy, PartialEq, Eq, Structural)]
pub struct Mine {
    pub pos: Vec2,
}

impl Mine {
    /// Builds the mine described by `info`, whose position is counted in
    /// whole units.
    pub fn new(info: MineInfo) -> (r: Mine)
        requires
            -1_000_000 <= info.pos.x <= 1_000_000,
            -1_000_000 <= info.pos.y <= 1_000_000,
        ensures
            r == mine_from_info_spec(info),
    {
        Mine { pos: Vec2 { x: 1000 * info.pos.x, y: 1000 * info.pos.y } }
    }
}

impl SimpleCollidable for Mine {
    open spec fn simple_collide_req(&self, position: Vec2, radius: i64) -> bool {
        touch_req(self.pos, position, radius)
    }

    /// Contact within the mine's radius plus the ball's, widened by one
    /// unit.
    open spec fn simple_collide_spec(&self, position: Vec2, radius: i64) -> bool {
        circle_touch_spec(self.pos, position, MINE_SIZE / 2 + radius + 1_000)
    }

    open spec fn on_simple_req(&self, ball: BallController) -> bool {
        ball.ball.size >= i64::MIN + 2_500
    }

    /// Every contact shrinks the ball by two and a half units.
    open spec fn on_simple_spec(&self, ball: BallController) -> (Self, BallController) {
        (
            *self,
            crate::ball::ctrl_with_ball(
                ball,
                crate::ball::ball_with_size(
                    ball.ball,
                    if ball.ball.size - 2_500 >= 0 {
                        (ball.ball.size - 2_500) as i64
                    } else {
                        0
                    },
                ),
            ),
        )
    }

    fn test_circle_collision_simple(&self, position: Vec2, radius: i64) -> (r: bool) {
        circle_touch(self.pos, position, MINE_SIZE / 2 + radius + 1_000)
    }

    fn on_collision_simple(&mut self, ball: &mut BallController) {
        ball.damage(2_500);
    }
}

/// A collectible gem: picked up once, then inert.
#[derive(Debug, Clone, Copy, PartialEq, Eq, Structural)]
pub struct Gem {
    pub pos: Vec2,
    pub picked_up: bool,
}

impl Gem {
    /// Builds the gem described by `info`, whose position is counted in
    /// whole units.
    pub fn new(info: GemInfo) -> (r: Gem)
        requires
            -1_000_000 <= info.pos.x <= 1_000_000,
            -1_000_000 <= info.pos.y <= 1_000_000,
        ensures
            r == gem_from_info_spec(info),
    {
        Gem { pos: Vec2 { x: 1000 * info.pos.x, y: 1000 * info.pos.y }, picked_up: false }
    }
}

impl SimpleCollidable for Gem {
    open spec fn simple_collide_req(&self, position: Vec2, radius: i64) -> bool {
        touch_req(self.pos, position, radius)
    }

    /// A picked-up gem reports no contact; otherwise contact within the
    /// gem's radius plus the ball's, widened by one unit.
    open spec fn simple_collide_spec(&self, position: Vec2, radius: i64) -> bool {
        !self.picked_up && circle_touch_spec(self.pos, position, GEM_SIZE / 2 + radius + 1_000)
    }

    open spec fn on_simple_req(&self, ball: BallController) -> bool {
        !self.picked_up ==> ball.num_gems < u32::MAX
    }

    /// The first contact hands the gem to the ball; any further contact
    /// changes nothing.
    open spec fn on_simple_spec(&self, ball: BallController) -> (Self, BallController) {
        if self.picked_up {
            (*self, ball)
        } else {
            (
                Gem { pos: self.pos, picked_up: true },
                BallController { num_gems: (ball.num_gems + 1) as u32, ..ball },
            )
        }
    }

    fn test_circle_collision_simple(&self, position: Vec2, radius: i64) -> (r: bool) {
        if self.picked_up {
            return false;
        }
        circle_touch(self.pos, position, GEM_SIZE / 2 + radius + 1_000)
    }

    fn on_collision_simple(&mut self, ball: &mut BallController) {
        if self.picked_up {
            return ;
        }
        let item = ();
        ball.pick_up(item);
        self.picked_up = true;
    }
}

/// The finish flag: it completes (`picked_up`) only on a contact at which
/// the ball's item count equals exactly the required gem count.
#[derive(Debug, Clone, Copy, PartialEq, Eq, Structural)]
pub struct Finish {
    pub pos: Vec2,
    pub picked_up: bool,
    pub gems_required: u32,
}

impl Finish {
    /// Builds the finish flag described by `info`, whose position is
    /// counted in whole units.
    pub fn new(info: FinishInfo) -> (r: Finish)
        requires
            -1_000_000 <= info.pos.x <= 1_000_000,
            -1_000_000 <= info.pos.y <= 1_000_000,
        ensures
            r == finish_from_info_spec(info),
    {
        Finish {
            pos: Vec2 { x: 1000 * info.pos.x, y: 1000 * info.pos.y },
            picked_up: false,
            gems_required: info.gems_required,
        }
    }

    /// Whether the flag has been reached with the required gems.
    pub fn is_picked_up(&self) -> (r: bool)
        ensures
            r == self.picked_up,
    {
        self.picked_up
    }
}

impl SimpleCollidable for Finish {
    open spec fn simple_collide_req(&self, position: Vec2, radius: i64) -> bool {
        touch_req(self.pos, position, radius)
    }

    /// A completed flag reports no contact; otherwise contact within the
    /// flag's radius plus the ball's, widened by one unit.
    open spec fn simple_collide_spec(&self, position: Vec2, radius: i64) -> bool {
        !self.picked_up && circle_touch_spec(self.pos, position, FINISH_SIZE / 2 + radius + 1_000)
    }

    open spec fn on_simple_req(&self, ball: BallController) -> bool {
        true
    }

    /// The flag completes exactly on a contact at which the ball carries
    /// as many gems as required; it never reverts, and the ball is left
    /// untouched.
    open spec fn on_simple_spec(&self, ball: BallController) -> (Self, BallController) {
        if !self.picked_up && ball.num_gems == self.gems_required {
            (
                Finish { pos: self.pos, picked_up: true, gems_required: self.gems_required },
                ball,
            )
        } else {
            (*self, ball)
        }
    }

    fn test_circle_collision_simple(&self, position: Vec2, radius: i64) -> (r: bool) {
        if self.picked_up {
            return false;
        }
        circle_touch(self.pos, position, FINISH_SIZE / 2 + radius + 1_000)
    }

    fn on_collision_simple(&mut self, ball: &mut BallController) {
        if !self.picked_up && ball.items() == self.gems_required {
            self.picked_up = true;
        }
    }
}

impl Positioned for Pump {
    open spec fn pos_spec(&self) -> Vec2 {
        self.pos
    }

    fn position(&self) -> (r: Vec2) {
        self.pos
    }
}

impl Positioned for Mine {
    open spec fn pos_spec(&self) -> Vec2 {
        self.pos
    }

    fn position(&self) -> (r: Vec2) {
        self.pos
    }
}

impl Positioned for Gem {
    open spec fn pos_spec(&self) -> Vec2 {
        self.pos
    }

    fn position(&self) -> (r: Vec2) {
        self.pos
    }
}

impl Positioned for Finish {
    open spec fn pos_spec(&self) -> Vec2 {
        self.pos
    }

    fn position(&self) -> (r: Vec2) {
        self.pos
    }
}

/// A second contact with a gem changes nothing: whatever the starting
/// state, running the contact effect after itself leaves both the gem and
/// the ball exactly as the first run left them — in particular an
/// already-picked-up gem is never handed out twice.
pub proof fn lemma_gem_contact_idempotent(g: Gem, b: BallController)
    ensures
        ({
            let (g1, b1) = g.on_simple_spec(b);
            g1.on_simple_spec(b1) == (g1, b1)
        }),
{
}

/// A second contact with the finish flag changes nothing while the ball's
/// gem count stands still: a completed flag stays completed and never
/// re-runs its effect, and an unmet requirement keeps the flag untouched.
pub proof fn lemma_finish_contact_idempotent(f: Finish, b: BallController)
    ensures
        ({
            let (f1, b1) = f.on_simple_spec(b);
            f1.on_simple_spec(b1) == (f1, b1)
        }),
{
}

} // verus!
