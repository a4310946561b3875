//! The predator: it picks the most promising prey in reach, steers to where
//! the prey will be, and catches what it touches.
use crate::boid::{in_bounds, wrap_position, wrapped};
use crate::fixed::{magnitude, Fixed, FULL_TURN};
use crate::flocking::{is_sheltered, sheltered, steer, steer_toward, MAX_FORCE};
use crate::rng::Rng;
use crate::vector::{lemma_limit_bounds, Vec2};
use vstd::prelude::*;

verus! {

/// What a predator sees of a boid: `(x, y, vx, vy, energy, collapsed, tasty)`.
pub type Prey = (Fixed, Fixed, Fixed, Fixed, Fixed, bool, bool);

/// The best prey found so far: its index and its priority.
pub type Pick = Option<(usize, Fixed)>;

/// A hunter of boids.
#[derive(Clone, Copy, Debug)]
pub struct Predator {
    /// Where the predator is.
    pub position: Vec2,
    /// How far it moves in a tick.
    pub velocity: Vec2,
    /// The forces gathered since its last move.
    pub acceleration: Vec2,
    /// Its energy; it dies without.
    pub energy: Fixed,
    /// Its top speed at noon.
    pub base_speed: Fixed,
    /// Its top speed as of its last hunt.
    pub max_speed: Fixed,
    /// The limit on its steering force, before aggression.
    pub max_force: Fixed,
    /// The number of its pack.
    pub pack_id: u32,
    /// Whether it leads its pack.
    pub is_leader: bool,
    /// Its generation; later ones are faster and stronger.
    pub generation: u32,
    /// The boids it has caught and been fed for.
    pub kills: u32,
    /// The index, among the prey of its last hunt, of its target. It holds for
    /// that tick only.
    pub target_index: Option<usize>,
}

/// How keenly predators hunt: `1 + 0.5 (1 - day)`, most at night.
pub open spec fn aggression(day_phase: Fixed) -> Fixed {
    Fixed::one().add(Fixed::one().sub(day_phase).mul(Fixed::from_raw(500_000)))
}

/// The squared distance beyond which prey is out of reach: `22500 aggression^2`.
pub open spec fn reach_sq(day_phase: Fixed) -> Fixed {
    Fixed::from_raw(22_500_000_000).mul(aggression(day_phase)).mul(aggression(day_phase))
}

/// The position of a prey.
pub open spec fn prey_position(prey: Prey) -> Vec2 {
    Vec2::new(prey.0, prey.1)
}

/// The squared distance from `pos` to a prey.
pub open spec fn prey_dist_sq(pos: Vec2, prey: Prey) -> Fixed {
    let dx = pos.x.sub(prey.0);
    let dy = pos.y.sub(prey.1);
    dx.mul(dx).add(dy.mul(dy))
}

/// The priority of a prey at squared distance `dist_sq`, lower being better:
/// the squared distance, a quarter of it for tasty prey, 0.09 of it for
/// collapsed prey, times `0.5 (1 - energy / 100) + 0.5`.
pub open spec fn priority(dist_sq: Fixed, prey: Prey) -> Fixed {
    let p1 = if prey.6 {
        dist_sq.mul(Fixed::from_raw(250_000))
    } else {
        dist_sq
    };
    let p2 = if prey.5 {
        p1.mul(Fixed::from_raw(90_000))
    } else {
        p1
    };
    p2.mul(
        Fixed::one().sub(prey.4.div(Fixed::from_raw(100_000_000))).mul(Fixed::from_raw(500_000)).add(
            Fixed::from_raw(500_000),
        ),
    )
}

/// Whether a prey can be hunted from `pos`: outside every shelter and within
/// reach.
pub open spec fn huntable(
    pos: Vec2,
    prey: Prey,
    shelters: Seq<(Fixed, Fixed, Fixed)>,
    day_phase: Fixed,
) -> bool {
    !sheltered(prey_position(prey), shelters) && prey_dist_sq(pos, prey).raw < reach_sq(
        day_phase,
    ).raw
}

/// The priority of a prey seen from `pos`.
pub open spec fn priority_from(pos: Vec2, prey: Prey) -> Fixed {
    priority(prey_dist_sq(pos, prey), prey)
}

/// The best prey among the first `n`: the huntable one of least priority, the
/// first of them where several share it.
pub open spec fn pick_among(
    prey: Seq<Prey>,
    n: nat,
    pos: Vec2,
    shelters: Seq<(Fixed, Fixed, Fixed)>,
    day_phase: Fixed,
) -> Pick
    decreases n,
{
    if n == 0 {
        None
    } else {
        let best = pick_among(prey, (n - 1) as nat, pos, shelters, day_phase);
        let candidate = prey[n - 1];
        let p = priority_from(pos, candidate);
        if huntable(pos, candidate, shelters, day_phase) && (best is None || p.raw
            < best.unwrap().1.raw) {
            Some(((n - 1) as usize, p))
        } else {
            best
        }
    }
}

/// The index of the prey that a predator at `pos` goes for.
pub open spec fn target_of(
    prey: Seq<Prey>,
    pos: Vec2,
    shelters: Seq<(Fixed, Fixed, Fixed)>,
    day_phase: Fixed,
) -> Option<usize> {
    match pick_among(prey, prey.len(), pos, shelters, day_phase) {
        Some(best) => Some(best.0),
        None => None,
    }
}

/// The pick among the first `n` prey is huntable, has its own priority, which
/// no huntable prey among them undercuts, and which every huntable prey before
/// it exceeds. There is a pick as soon as some prey among them is huntable.
pub proof fn lemma_pick_is_least(
    prey: Seq<Prey>,
    n: nat,
    pos: Vec2,
    shelters: Seq<(Fixed, Fixed, Fixed)>,
    day_phase: Fixed,
)
    requires
        n <= prey.len() <= usize::MAX,
    ensures
        match pick_among(prey, n, pos, shelters, day_phase) {
            Some(best) => {
                &&& best.0 < n
                &&& huntable(pos, prey[best.0 as int], shelters, day_phase)
                &&& best.1 == priority_from(pos, prey[best.0 as int])
                &&& forall|j: int|
                    0 <= j < n && huntable(pos, #[trigger] prey[j], shelters, day_phase)
                        ==> best.1.raw <= priority_from(pos, prey[j]).raw
                &&& forall|j: int|
                    0 <= j < best.0 && huntable(pos, #[trigger] prey[j], shelters, day_phase)
                        ==> best.1.raw < priority_from(pos, prey[j]).raw
            },
            None => forall|j: int| 0 <= j < n ==> !huntable(pos, #[trigger] prey[j], shelters, day_phase),
        },
    decreases n,
{
    if n > 0 {
        lemma_pick_is_least(prey, (n - 1) as nat, pos, shelters, day_phase);
    }
}

impl Predator {
    /// The predator that `new` makes at `(x, y)` from the generator `rng`, and
    /// the generator after the one draw, of its heading.
    pub open spec fn spawned(x: Fixed, y: Fixed, pack_id: u32, generation: u32, rng: Rng) -> (
        Predator,
        Rng,
    ) {
        let g = Fixed::from_int(generation as i64);
        let speed = Fixed::from_raw(3_500_000).add(g.mul(Fixed::from_raw(300_000)));
        (
            Predator {
                position: Vec2::new(x, y),
                velocity: Vec2::from_angle(
                    rng.peek().mul(Fixed::from_raw(FULL_TURN)),
                    Fixed::from_raw(2_000_000),
                ),
                acceleration: Vec2::zero(),
                energy: Fixed::from_raw(100_000_000),
                base_speed: speed,
                max_speed: speed,
                max_force: Fixed::from_raw(100_000).add(g.mul(Fixed::from_raw(20_000))),
                pack_id,
                is_leader: false,
                generation,
                kills: 0,
                target_index: None,
            },
            rng.advanced(),
        )
    }

    /// A predator at `(x, y)` with energy 100, its heading drawn from `rng`. Each
    /// generation adds 0.3 to the base speed of 3.5 and 0.02 to the force of 0.1.
    pub fn new(x: Fixed, y: Fixed, pack_id: u32, generation: u32, rng: &mut Rng) -> (p: Predator)
        ensures
            (p, *final(rng)) == Predator::spawned(x, y, pack_id, generation, *old(rng)),
    {
        let angle = rng.next_unit().mul(Fixed::from_raw(FULL_TURN));
        let g = Fixed::from_int(generation as i64);
        let speed = Fixed::from_raw(3_500_000).add(g.mul(Fixed::from_raw(300_000)));
        Predator {
            position: Vec2::new(x, y),
            velocity: Vec2::from_angle(angle, Fixed::from_raw(2_000_000)),
            acceleration: Vec2::zero(),
            energy: Fixed::from_raw(100_000_000),
            base_speed: speed,
            max_speed: speed,
            max_force: Fixed::from_raw(100_000).add(g.mul(Fixed::from_raw(20_000))),
            pack_id,
            is_leader: false,
            generation,
            kills: 0,
            target_index: None,
        }
    }

    /// The top speed at the given time of day: the base speed and `2 (1 - day)`.
    pub open spec fn speed_at(&self, day_phase: Fixed) -> Fixed {
        self.base_speed.add(Fixed::one().sub(day_phase).mul(Fixed::from_raw(2_000_000)))
    }

    /// The steering toward where `prey` will be in 8 ticks, limited to the
    /// predator's force times the aggression.
    pub open spec fn pursuit(&self, prey: Prey, day_phase: Fixed) -> Vec2 {
        let ahead = Vec2::new(
            prey.0.add(prey.2.mul(Fixed::from_raw(8_000_000))),
            prey.1.add(prey.3.mul(Fixed::from_raw(8_000_000))),
        );
        steer(
            ahead.sub(self.position),
            self.speed_at(day_phase),
            self.velocity,
            self.max_force.mul(aggression(day_phase)),
        )
    }

    /// Whether `prey` is caught: less than 12 units from the predator, as it
    /// stands now.
    pub open spec fn catches(&self, prey: Prey) -> bool {
        prey_dist_sq(self.position, prey).sqrt().raw < 12_000_000
    }

    /// The predator after a hunt among `prey`, and the index of the prey it
    /// caught, if any. Its top speed follows the time of day; its target is the
    /// best prey in reach; it accelerates in pursuit of the target.
    pub open spec fn hunted(
        &self,
        prey: Seq<Prey>,
        shelters: Seq<(Fixed, Fixed, Fixed)>,
        day_phase: Fixed,
    ) -> (Predator, Option<usize>) {
        let target = target_of(prey, self.position, shelters, day_phase);
        let ready = Predator { max_speed: self.speed_at(day_phase), target_index: target, ..*self };
        match target {
            Some(idx) => (
                Predator {
                    acceleration: self.acceleration.add(self.pursuit(prey[idx as int], day_phase)),
                    ..ready
                },
                if self.catches(prey[idx as int]) {
                    Some(idx)
                } else {
                    None
                },
            ),
            None => (ready, None),
        }
    }

    /// Picks a target among `boid_positions`, steers after it, and returns its
    /// index if it is caught. The target is the prey that is outside every
    /// shelter and within reach with the least priority, the first such one.
    /// Only a target can be caught.
    pub fn hunt(
        &mut self,
        boid_positions: &[Prey],
        shelter_positions: &[(Fixed, Fixed, Fixed)],
        day_phase: Fixed,
    ) -> (caught: Option<usize>)
        ensures
            (*final(self), caught) == old(self).hunted(
                boid_positions@,
                shelter_positions@,
                day_phase,
            ),
            caught is Some ==> caught == final(self).target_index && caught.unwrap()
                < boid_positions@.len(),
            final(self).target_index is Some ==> final(self).target_index.unwrap()
                < boid_positions@.len(),
    {
        let agg = Fixed::one().add(Fixed::one().sub(day_phase).mul(Fixed::from_raw(500_000)));
        self.max_speed = self.base_speed.add(
            Fixed::one().sub(day_phase).mul(Fixed::from_raw(2_000_000)),
        );
        let pos = self.position;
        let max_dist_sq = Fixed::from_raw(22_500_000_000).mul(agg).mul(agg);

        let mut best: Pick = None;
        let mut i: usize = 0;
        while i < boid_positions.len()
            invariant
                i <= boid_positions.len(),
                max_dist_sq == reach_sq(day_phase),
                best == pick_among(boid_positions@, i as nat, pos, shelter_positions@, day_phase),
            decreases boid_positions.len() - i,
        {
            let candidate = boid_positions[i];
            if !is_sheltered(Vec2::new(candidate.0, candidate.1), shelter_positions) {
                let dx = pos.x.sub(candidate.0);
                let dy = pos.y.sub(candidate.1);
                let d = dx.mul(dx).add(dy.mul(dy));
                let mut p = d;
                if candidate.6 {
                    p = p.mul(Fixed::from_raw(250_000));
                }
                if candidate.5 {
                    p = p.mul(Fixed::from_raw(90_000));
                }
                p = p.mul(
                    Fixed::one().sub(candidate.4.div(Fixed::from_raw(100_000_000))).mul(
                        Fixed::from_raw(500_000),
                    ).add(Fixed::from_raw(500_000)),
                );
                if d.raw < max_dist_sq.raw {
                    let better = match best {
                        Some(b) => p.raw < b.1.raw,
                        None => true,
                    };
                    if better {
                        best = Some((i, p));
                    }
                }
            }
            i = i + 1;
        }
        proof {
            lemma_pick_is_least(
                boid_positions@,
                boid_positions@.len(),
                pos,
                shelter_positions@,
                day_phase,
            );
        }

        match best {
            Some(b) => {
                let idx = b.0;
                self.target_index = Some(idx);
                let t = boid_positions[idx];
                let ahead = Vec2::new(
                    t.0.add(t.2.mul(Fixed::from_raw(8_000_000))),
                    t.1.add(t.3.mul(Fixed::from_raw(8_000_000))),
                );
                let force = steer_toward(
                    ahead.sub(pos),
                    self.max_speed,
                    self.velocity,
                    self.max_force.mul(agg),
                );
                self.acceleration.add_mut(force);
                let dx = pos.x.sub(t.0);
                let dy = pos.y.sub(t.1);
                let actual = dx.mul(dx).add(dy.mul(dy)).sqrt();
                if actual.raw < 12_000_000 {
                    Some(idx)
                } else {
                    None
                }
            },
            None => {
                self.target_index = None;
                None
            },
        }
    }

    /// The acceleration `acc` with one obstacle taken in: an obstacle less than
    /// 30 units from `pos`, and not at `pos` itself, pushes away with three times
    /// the base force.
    pub open spec fn dodge_step(acc: Vec2, pos: Vec2, obstacle: (Fixed, Fixed)) -> Vec2 {
        let dx = pos.x.sub(obstacle.0);
        let dy = pos.y.sub(obstacle.1);
        let dsq = dx.mul(dx).add(dy.mul(dy));
        let m = dsq.sqrt();
        if dsq.raw < 900_000_000 && m.raw > 0 {
            acc.add(
                Vec2::new(
                    dx.div(m).mul(Fixed::from_raw(MAX_FORCE)).mul(Fixed::from_raw(3_000_000)),
                    dy.div(m).mul(Fixed::from_raw(MAX_FORCE)).mul(Fixed::from_raw(3_000_000)),
                ),
            )
        } else {
            acc
        }
    }

    /// The acceleration `acc` with the first `n` obstacles taken in.
    pub open spec fn dodge_fold(acc: Vec2, pos: Vec2, obstacles: Seq<(Fixed, Fixed)>, n: nat) -> Vec2
        decreases n,
    {
        if n == 0 {
            acc
        } else {
            Predator::dodge_step(
                Predator::dodge_fold(acc, pos, obstacles, (n - 1) as nat),
                pos,
                obstacles[n - 1],
            )
        }
    }

    /// The predator after a tick: energy 0.04 lower; pushed off the obstacles;
    /// the acceleration goes into the velocity, which is limited to the top
    /// speed; the velocity goes into the position, which is wrapped onto the
    /// torus; the acceleration is spent.
    pub open spec fn updated(&self, width: Fixed, height: Fixed, obstacles: Seq<(Fixed, Fixed)>) -> Predator {
        let acc = Predator::dodge_fold(self.acceleration, self.position, obstacles, obstacles.len());
        let velocity = self.velocity.add(acc).limit(self.max_speed);
        Predator {
            energy: self.energy.sub(Fixed::from_raw(40_000)),
            velocity,
            position: wrap_position(self.position.add(velocity), width, height),
            acceleration: Vec2::zero(),
            ..*self
        }
    }

    /// Advances the predator by one tick on a torus of the given size and says
    /// whether it lives on, which it does while it has energy left.
    pub fn update(&mut self, width: Fixed, height: Fixed, obstacle_positions: &[(Fixed, Fixed)]) -> (alive:
        bool)
        ensures
            *final(self) == old(self).updated(width, height, obstacle_positions@),
            alive == (final(self).energy.raw > 0),
            width.raw > 0 && height.raw > 0 ==> in_bounds(final(self).position, width, height),
    {
        self.energy = self.energy.sub(Fixed::from_raw(40_000));
        let pos = self.position;
        let mut acc = self.acceleration;
        let mut i: usize = 0;
        while i < obstacle_positions.len()
            invariant
                i <= obstacle_positions.len(),
                acc == Predator::dodge_fold(
                    old(self).acceleration,
                    pos,
                    obstacle_positions@,
                    i as nat,
                ),
            decreases obstacle_positions.len() - i,
        {
            let o = obstacle_positions[i];
            let dx = pos.x.sub(o.0);
            let dy = pos.y.sub(o.1);
            let dsq = dx.mul(dx).add(dy.mul(dy));
            if dsq.raw < 900_000_000 {
                let m = dsq.sqrt();
                if m.raw > 0 {
                    acc = acc.add(
                        Vec2::new(
                            dx.div(m).mul(Fixed::from_raw(MAX_FORCE)).mul(
                                Fixed::from_raw(3_000_000),
                            ),
                            dy.div(m).mul(Fixed::from_raw(MAX_FORCE)).mul(
                                Fixed::from_raw(3_000_000),
                            ),
                        ),
                    );
                }
            }
            i = i + 1;
        }
        let velocity = self.velocity.add(acc).limit(self.max_speed);
        let moved = self.position.add(velocity);
        self.velocity = velocity;
        self.position = Vec2::new(wrapped(moved.x, width), wrapped(moved.y, height));
        self.acceleration = Vec2::zero();
        self.energy.raw > 0
    }
}

/// A predator keeps to its top speed: after a tick, neither coordinate of its
/// velocity exceeds the top speed in magnitude.
pub proof fn lemma_predator_keeps_top_speed(
    p: Predator,
    width: Fixed,
    height: Fixed,
    obstacles: Seq<(Fixed, Fixed)>,
)
    ensures
        magnitude(p.updated(width, height, obstacles).velocity.x.raw as int) <= magnitude(
            p.max_speed.raw as int,
        ),
        magnitude(p.updated(width, height, obstacles).velocity.y.raw as int) <= magnitude(
            p.max_speed.raw as int,
        ),
{
    let acc = Predator::dodge_fold(p.acceleration, p.position, obstacles, obstacles.len());
    lemma_limit_bounds(p.velocity.add(acc), p.max_speed);
}

} // verus!
