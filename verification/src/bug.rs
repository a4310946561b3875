//! The bug: ambient prey that wanders at random and turns away from obstacles.
use crate::boid::{in_bounds, prev_count, wrap_position, wrapped};
use crate::fixed::{Fixed, FULL_TURN};
use crate::rng::Rng;
use crate::vector::Vec2;
use vstd::prelude::*;

verus! {

/// A wandering insect.
#[derive(Clone, Copy, Debug)]
pub struct Bug {
    /// Where the bug is.
    pub position: Vec2,
    /// How far it moves in a tick.
    pub velocity: Vec2,
    /// Its energy; a boid that eats it takes it all.
    pub energy: Fixed,
    /// Its size, for the host.
    pub size: Fixed,
    /// Its colour, for the host.
    pub hue: Fixed,
    /// The ticks it has left.
    pub lifetime: u32,
}

/// The life span of a bug born with the draw `r`: 500 ticks and up to 500 more.
pub open spec fn bug_life_span_for(r: Fixed) -> u32 {
    let extra = r.mul(Fixed::from_raw(500_000_000)).trunc_u32();
    if extra > u32::MAX - 500 {
        u32::MAX
    } else {
        (500 + extra) as u32
    }
}

/// Whether the obstacle is in the way of a bug about to be at `next`: less than
/// 18 units from there.
pub open spec fn blocks(next: Vec2, obstacle: (Fixed, Fixed)) -> bool {
    let dx = next.x.sub(obstacle.0);
    let dy = next.y.sub(obstacle.1);
    dx.mul(dx).add(dy.mul(dy)).raw < 324_000_000
}

/// The index of the first obstacle from `from` on that is in the way.
pub open spec fn first_block(obstacles: Seq<(Fixed, Fixed)>, next: Vec2, from: nat) -> Option<nat>
    decreases obstacles.len() - from,
{
    if from >= obstacles.len() {
        None
    } else if blocks(next, obstacles[from as int]) {
        Some(from)
    } else {
        first_block(obstacles, next, from + 1)
    }
}

/// The velocity of a bug at `pos` that turns away from the obstacle: speed 2
/// straight away from it; the old velocity for a bug that sits on it.
pub open spec fn turned_away(pos: Vec2, obstacle: (Fixed, Fixed), velocity: Vec2) -> Vec2 {
    let dx = pos.x.sub(obstacle.0);
    let dy = pos.y.sub(obstacle.1);
    let m = dx.mul(dx).add(dy.mul(dy)).sqrt();
    if m.raw > 0 {
        Vec2::new(
            dx.div(m).mul(Fixed::from_raw(2_000_000)),
            dy.div(m).mul(Fixed::from_raw(2_000_000)),
        )
    } else {
        velocity
    }
}

impl Bug {
    /// The bug that `new` makes at `(x, y)` from the generator `rng`, and the
    /// generator after the five draws: heading, speed, size, hue, life span.
    pub open spec fn spawned(x: Fixed, y: Fixed, rng: Rng) -> (Bug, Rng) {
        let r1 = rng.advanced();
        let r2 = r1.advanced();
        let r3 = r2.advanced();
        let r4 = r3.advanced();
        (
            Bug {
                position: Vec2::new(x, y),
                velocity: Vec2::from_angle(
                    rng.peek().mul(Fixed::from_raw(FULL_TURN)),
                    Fixed::one().add(r1.peek()),
                ),
                energy: Fixed::from_raw(20_000_000),
                size: Fixed::from_raw(2_000_000).add(r2.peek().mul(Fixed::from_raw(2_000_000))),
                hue: if r3.peek().raw > 500_000 {
                    Fixed::from_raw(60_000_000)
                } else {
                    Fixed::from_raw(120_000_000)
                },
                lifetime: bug_life_span_for(r4.peek()),
            },
            r4.advanced(),
        )
    }

    /// A bug at `(x, y)` with energy 20; its heading, its speed between 1 and 2,
    /// its size between 2 and 4, its hue of 60 or 120 and its life span are
    /// drawn from `rng`.
    pub fn new(x: Fixed, y: Fixed, rng: &mut Rng) -> (bug: Bug)
        ensures
            (bug, *final(rng)) == Bug::spawned(x, y, *old(rng)),
    {
        let angle = rng.next_unit().mul(Fixed::from_raw(FULL_TURN));
        let speed = Fixed::one().add(rng.next_unit());
        let size = Fixed::from_raw(2_000_000).add(rng.next_unit().mul(Fixed::from_raw(2_000_000)));
        let hue = if rng.next_unit().raw > 500_000 {
            Fixed::from_raw(60_000_000)
        } else {
            Fixed::from_raw(120_000_000)
        };
        let extra: u32 = rng.next_unit().mul(Fixed::from_raw(500_000_000)).trunc_u32();
        let lifetime: u32 = if extra > u32::MAX - 500 {
            u32::MAX
        } else {
            500 + extra
        };
        Bug {
            position: Vec2::new(x, y),
            velocity: Vec2::from_angle(angle, speed),
            energy: Fixed::from_raw(20_000_000),
            size,
            hue,
            lifetime,
        }
    }

    /// Whether the bug is at its end once its remaining life is `lifetime`: out
    /// of time or out of energy.
    pub open spec fn spent(&self) -> bool {
        prev_count(self.lifetime) == 0 || self.energy.raw <= 0
    }

    /// The velocity after the random nudge of a tick: a push of 0.15 in the
    /// direction drawn, the result limited to speed 2.
    pub open spec fn nudged(&self, draw: Fixed) -> Vec2 {
        self.velocity.add(
            Vec2::from_angle(draw.mul(Fixed::from_raw(FULL_TURN)), Fixed::from_raw(150_000)),
        ).limit(Fixed::from_raw(2_000_000))
    }

    /// The bug after a tick, whether it lives on, and the generator after it.
    /// Its remaining life drops by one; out of time or energy it dies as it is.
    /// Otherwise it is nudged at random, turns away from the first obstacle in
    /// its way, and moves on the torus.
    pub open spec fn updated(
        &self,
        width: Fixed,
        height: Fixed,
        obstacles: Seq<(Fixed, Fixed)>,
        rng: Rng,
    ) -> (Bug, bool, Rng) {
        let older = Bug { lifetime: prev_count(self.lifetime), ..*self };
        if self.spent() {
            (older, false, rng)
        } else {
            let nudged = self.nudged(rng.peek());
            let velocity = match first_block(obstacles, self.position.add(nudged), 0) {
                Some(k) => turned_away(self.position, obstacles[k as int], nudged),
                None => nudged,
            };
            (
                Bug {
                    velocity,
                    position: wrap_position(self.position.add(velocity), width, height),
                    ..older
                },
                true,
                rng.advanced(),
            )
        }
    }

    /// Advances the bug by one tick on a torus of the given size and says
    /// whether it lives on.
    pub fn update(
        &mut self,
        width: Fixed,
        height: Fixed,
        obstacle_positions: &[(Fixed, Fixed)],
        rng: &mut Rng,
    ) -> (alive: bool)
        ensures
            (*final(self), alive, *final(rng)) == old(self).updated(
                width,
                height,
                obstacle_positions@,
                *old(rng),
            ),
            alive && width.raw > 0 && height.raw > 0 ==> in_bounds(
                final(self).position,
                width,
                height,
            ),
    {
        if self.lifetime > 0 {
            self.lifetime = self.lifetime - 1;
        }
        if self.lifetime == 0 || self.energy.raw <= 0 {
            return false;
        }
        let angle = rng.next_unit().mul(Fixed::from_raw(FULL_TURN));
        let steer = Vec2::from_angle(angle, Fixed::from_raw(150_000));
        let nudged = self.velocity.add(steer).limit(Fixed::from_raw(2_000_000));
        let pos = self.position;
        let next = pos.add(nudged);
        let mut velocity = nudged;

        let mut i: usize = 0;
        while i < obstacle_positions.len()
            invariant_except_break
                i <= obstacle_positions.len(),
                velocity == nudged,
                first_block(obstacle_positions@, next, 0) == first_block(
                    obstacle_positions@,
                    next,
                    i as nat,
                ),
            ensures
                velocity == match first_block(obstacle_positions@, next, 0) {
                    Some(k) => turned_away(pos, obstacle_positions@[k as int], nudged),
                    None => nudged,
                },
            decreases obstacle_positions.len() - i,
        {
            let o = obstacle_positions[i];
            let dx = next.x.sub(o.0);
            let dy = next.y.sub(o.1);
            if dx.mul(dx).add(dy.mul(dy)).raw < 324_000_000 {
                let ax = pos.x.sub(o.0);
                let ay = pos.y.sub(o.1);
                let m = ax.mul(ax).add(ay.mul(ay)).sqrt();
                if m.raw > 0 {
                    velocity = Vec2::new(
                        ax.div(m).mul(Fixed::from_raw(2_000_000)),
                        ay.div(m).mul(Fixed::from_raw(2_000_000)),
                    );
                }
                break ;
            }
            i = i + 1;
        }
        let moved = pos.add(velocity);
        self.velocity = velocity;
        self.position = Vec2::new(wrapped(moved.x, width), wrapped(moved.y, height));
        true
    }
}

} // verus!
