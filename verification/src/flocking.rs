//! The steering forces on a boid: separation, alignment and cohesion from its
//! neighbours, flight from predators, avoidance of obstacles.
//!
//! Each contribution is a raw vector summed over what lies within a radius,
//! turned into a steering force: normalized, scaled to a desired velocity, less
//! the current velocity, limited in length, and weighted.
use crate::boid::{Boid, Mutations};
use crate::fixed::{
    lemma_div_not_negative, lemma_mul_fraction, lemma_sqrt_not_negative, magnitude, Fixed,
};
use crate::vector::{lemma_limit_bounds, Vec2};
use vstd::prelude::*;

verus! {

/// The speed that steering aims for, in raw units.
pub const MAX_SPEED: i64 = 4_000_000;

/// The base limit on a steering force, in raw units.
pub const MAX_FORCE: i64 = 150_000;

/// What a boid shows of itself to the others: its position, velocity, species
/// and state at the start of a tick.
#[derive(Clone, Copy, PartialEq, Eq, Structural, Debug)]
pub struct BoidCache {
    /// Its position along x.
    pub x: Fixed,
    /// Its position along y.
    pub y: Fixed,
    /// Its velocity along x.
    pub vx: Fixed,
    /// Its velocity along y.
    pub vy: Fixed,
    /// Its species.
    pub species: u8,
    /// Whether it is a hybrid.
    pub is_hybrid: bool,
    /// The number of its state: 0 normal, 1 perching, 2 collapsed, 3 fishing.
    pub state: u8,
}

/// The sums and counts gathered over a boid's neighbours.
#[derive(Clone, Copy, PartialEq, Eq, Structural, Debug)]
pub struct Tally {
    /// The sum of the pushes away from the neighbours within 25 units.
    pub sep: Vec2,
    /// The sum of the velocities of the kin within 50 units.
    pub ali: Vec2,
    /// The sum of the positions of the kin within the cohesion radius.
    pub coh: Vec2,
    /// The number of neighbours that pushed.
    pub sep_ct: usize,
    /// The number of kin that lent their velocity.
    pub ali_ct: usize,
    /// The number of kin that lent their position.
    pub coh_ct: usize,
}

/// The flight vector and the fear gathered over the predators.
#[derive(Clone, Copy, PartialEq, Eq, Structural, Debug)]
pub struct Threat {
    /// The sum of the pushes away from the predators within the flee radius.
    pub flee: Vec2,
    /// The fear that the nearest of them inspires.
    pub fear: Fixed,
}

/// `n + 1`, or `n` where that does not fit.
pub open spec fn bump(n: usize) -> usize {
    if n < usize::MAX {
        (n + 1) as usize
    } else {
        n
    }
}

/// A tally of nothing.
pub open spec fn empty_tally() -> Tally {
    Tally {
        sep: Vec2::zero(),
        ali: Vec2::zero(),
        coh: Vec2::zero(),
        sep_ct: 0,
        ali_ct: 0,
        coh_ct: 0,
    }
}

/// The square of the cohesion radius: `50 (1 + (1 - day) 0.5 + sociability 0.3)`,
/// squared.
pub open spec fn cohesion_radius_sq(sociability: Fixed, day_phase: Fixed) -> Fixed {
    let widening = Fixed::one().add(Fixed::one().sub(day_phase).mul(Fixed::from_raw(500_000))).add(
        sociability.mul(Fixed::from_raw(300_000)),
    );
    let radius = Fixed::from_raw(50_000_000).mul(widening);
    radius.mul(radius)
}

/// The tally `t` with one neighbour taken in. Within 25 units the neighbour
/// pushes away, weighted by the inverse of the squared distance (softened by
/// 0.001, so that a neighbour at the same place pushes nowhere). A neighbour of
/// the same flock (same species, or either one a hybrid) lends its velocity
/// within 50 units and its position within the cohesion radius.
pub open spec fn absorb(t: Tally, me: Boid, other: BoidCache, coh_radius_sq: Fixed) -> Tally {
    let dx = me.position.x.sub(other.x);
    let dy = me.position.y.sub(other.y);
    let dsq = dx.mul(dx).add(dy.mul(dy));
    let softened = dsq.add(Fixed::from_raw(1_000));
    let near = dsq.raw < 625_000_000;
    let kin = me.is_hybrid || other.is_hybrid || other.species == me.species;
    let aligned = kin && dsq.raw < 2_500_000_000;
    let drawn = kin && dsq.raw < coh_radius_sq.raw;
    Tally {
        sep: if near {
            t.sep.add(Vec2::new(dx.div(softened), dy.div(softened)))
        } else {
            t.sep
        },
        sep_ct: if near {
            bump(t.sep_ct)
        } else {
            t.sep_ct
        },
        ali: if aligned {
            t.ali.add(Vec2::new(other.vx, other.vy))
        } else {
            t.ali
        },
        ali_ct: if aligned {
            bump(t.ali_ct)
        } else {
            t.ali_ct
        },
        coh: if drawn {
            t.coh.add(Vec2::new(other.x, other.y))
        } else {
            t.coh
        },
        coh_ct: if drawn {
            bump(t.coh_ct)
        } else {
            t.coh_ct
        },
    }
}

/// The steering force toward the direction of `raw`: `raw` normalized, scaled
/// to `speed`, less the current velocity, limited to `limit`.
pub open spec fn steer(raw: Vec2, speed: Fixed, velocity: Vec2, limit: Fixed) -> Vec2 {
    raw.normalize().mult(speed).sub(velocity).limit(limit)
}

/// The acceleration from the neighbours: separation weighted 1.8, alignment
/// weighted 1, cohesion weighted `1 + 0.3 sociability`, each only where
/// some neighbour counted.
pub open spec fn flock_force(t: Tally, me: Boid) -> Vec2 {
    let speed = Fixed::from_raw(MAX_SPEED);
    let limit = Fixed::from_raw(MAX_FORCE);
    let a0 = Vec2::zero();
    let a1 = if t.sep_ct > 0 {
        a0.add(
            steer(t.sep.div_count(t.sep_ct), speed, me.velocity, limit).mult(
                Fixed::from_raw(1_800_000),
            ),
        )
    } else {
        a0
    };
    let a2 = if t.ali_ct > 0 {
        a1.add(steer(t.ali.div_count(t.ali_ct), speed, me.velocity, limit))
    } else {
        a1
    };
    if t.coh_ct > 0 {
        a2.add(
            steer(t.coh.div_count(t.coh_ct).sub(me.position), speed, me.velocity, limit).mult(
                Fixed::one().add(me.sociability.mul(Fixed::from_raw(300_000))),
            ),
        )
    } else {
        a2
    }
}

/// Whether `pos` lies strictly inside the shelter circle `(x, y, radius)`.
pub open spec fn inside(pos: Vec2, shelter: (Fixed, Fixed, Fixed)) -> bool {
    let dx = shelter.0.sub(pos.x);
    let dy = shelter.1.sub(pos.y);
    dx.mul(dx).add(dy.mul(dy)).raw < shelter.2.mul(shelter.2).raw
}

/// Whether `pos` lies inside any of the shelters.
pub open spec fn sheltered(pos: Vec2, shelters: Seq<(Fixed, Fixed, Fixed)>) -> bool {
    exists|i: int| 0 <= i < shelters.len() && inside(pos, #[trigger] shelters[i])
}

/// The radius within which a predator frightens: `100 + (1 - bravery) 50`.
pub open spec fn flee_radius(bravery: Fixed) -> Fixed {
    Fixed::from_raw(100_000_000).add(Fixed::one().sub(bravery).mul(Fixed::from_raw(50_000_000)))
}

/// The threat `t` with one predator taken in: within the radius it pushes away,
/// weighted by the inverse of the distance, and raises fear to
/// `1 - distance / radius` where that is more.
pub open spec fn threat_step(t: Threat, pos: Vec2, predator: (Fixed, Fixed), radius: Fixed) -> Threat {
    let dx = pos.x.sub(predator.0);
    let dy = pos.y.sub(predator.1);
    let dsq = dx.mul(dx).add(dy.mul(dy));
    if dsq.raw < radius.mul(radius).raw {
        let d = dsq.sqrt();
        let softened = d.add(Fixed::from_raw(1_000));
        Threat {
            flee: t.flee.add(Vec2::new(dx.div(softened), dy.div(softened))),
            fear: t.fear.max(Fixed::one().sub(d.div(radius))),
        }
    } else {
        t
    }
}

/// The threat after the first `n` predators.
pub open spec fn threat_fold(
    predators: Seq<(Fixed, Fixed)>,
    n: nat,
    pos: Vec2,
    radius: Fixed,
    start: Threat,
) -> Threat
    decreases n,
{
    if n == 0 {
        start
    } else {
        threat_step(
            threat_fold(predators, (n - 1) as nat, pos, radius, start),
            pos,
            predators[n - 1],
            radius,
        )
    }
}

/// The threat to a boid. Inside a shelter there is none: no flight, and fear 0
/// (0.2 for a bullied boid). Outside, fear starts at 0 (0.3 for a bullied boid)
/// and every predator is taken in.
pub open spec fn threat(
    me: Boid,
    predators: Seq<(Fixed, Fixed)>,
    shelters: Seq<(Fixed, Fixed, Fixed)>,
) -> Threat {
    let bullied = me.mutations.has(Mutations::BULLIED);
    if sheltered(me.position, shelters) {
        Threat {
            flee: Vec2::zero(),
            fear: if bullied {
                Fixed::from_raw(200_000)
            } else {
                Fixed::zero()
            },
        }
    } else {
        threat_fold(
            predators,
            predators.len(),
            me.position,
            flee_radius(me.bravery),
            Threat {
                flee: Vec2::zero(),
                fear: if bullied {
                    Fixed::from_raw(300_000)
                } else {
                    Fixed::zero()
                },
            },
        )
    }
}

/// Whether a fear is above the threshold of 0.3 that sharpens every reaction.
pub open spec fn fearful(fear: Fixed) -> bool {
    fear.raw > 300_000
}

/// The acceleration `acc` with the flight from the predators added: steering at
/// speed `4 (1.5 + 0.3 bravery)`, limited to three times the base force,
/// weighted by `4 - bravery`, and four times that when fearful. Nothing is
/// added where the flight vector is zero.
pub open spec fn with_flight(acc: Vec2, t: Threat, me: Boid) -> Vec2 {
    if t.flee.is_zero() {
        acc
    } else {
        let speed = Fixed::from_raw(MAX_SPEED).mul(
            Fixed::from_raw(1_500_000).add(me.bravery.mul(Fixed::from_raw(300_000))),
        );
        let limit = Fixed::from_raw(MAX_FORCE).mul(Fixed::from_raw(3_000_000));
        let urgency = if fearful(t.fear) {
            Fixed::from_raw(4_000_000)
        } else {
            Fixed::one()
        };
        let weight = urgency.mul(Fixed::from_raw(4_000_000).sub(me.bravery));
        acc.add(steer(t.flee, speed, me.velocity, limit).mult(weight))
    }
}

/// The squared radius within which an obstacle repels: 80 units when fearful,
/// else 50.
pub open spec fn obstacle_radius_sq(is_fearful: bool) -> Fixed {
    if is_fearful {
        Fixed::from_raw(6_400_000_000)
    } else {
        Fixed::from_raw(2_500_000_000)
    }
}

/// The repulsion `sum` with one obstacle taken in: within the radius it pushes
/// away, weighted by the inverse of the squared distance.
pub open spec fn repulsion_step(sum: Vec2, pos: Vec2, obstacle: (Fixed, Fixed), radius_sq: Fixed) -> Vec2 {
    let dx = pos.x.sub(obstacle.0);
    let dy = pos.y.sub(obstacle.1);
    let dsq = dx.mul(dx).add(dy.mul(dy));
    if dsq.raw < radius_sq.raw {
        let softened = dsq.add(Fixed::from_raw(1_000));
        sum.add(Vec2::new(dx.div(softened), dy.div(softened)))
    } else {
        sum
    }
}

/// The repulsion from the first `n` obstacles.
pub open spec fn repulsion_fold(
    obstacles: Seq<(Fixed, Fixed)>,
    n: nat,
    pos: Vec2,
    radius_sq: Fixed,
) -> Vec2
    decreases n,
{
    if n == 0 {
        Vec2::zero()
    } else {
        repulsion_step(
            repulsion_fold(obstacles, (n - 1) as nat, pos, radius_sq),
            pos,
            obstacles[n - 1],
            radius_sq,
        )
    }
}

/// The acceleration `acc` with the avoidance of obstacles added: steering at
/// speed 4 limited to twice the base force, or when fearful at speed 6 limited
/// to three times the base force and weighted 3. Nothing is added where the
/// repulsion is zero.
pub open spec fn with_avoidance(acc: Vec2, repulsion: Vec2, me: Boid, is_fearful: bool) -> Vec2 {
    if repulsion.is_zero() {
        acc
    } else {
        let speed = Fixed::from_raw(MAX_SPEED).mul(
            if is_fearful {
                Fixed::from_raw(1_500_000)
            } else {
                Fixed::one()
            },
        );
        let limit = Fixed::from_raw(MAX_FORCE).mul(
            if is_fearful {
                Fixed::from_raw(3_000_000)
            } else {
                Fixed::from_raw(2_000_000)
            },
        );
        let weight = if is_fearful {
            Fixed::from_raw(3_000_000)
        } else {
            Fixed::one()
        };
        acc.add(steer(repulsion, speed, me.velocity, limit).mult(weight))
    }
}

/// The acceleration on a boid and its fear, from the tally over its neighbours
/// and from the predators, obstacles and shelters.
pub open spec fn steering(
    me: Boid,
    t: Tally,
    predators: Seq<(Fixed, Fixed)>,
    obstacles: Seq<(Fixed, Fixed)>,
    shelters: Seq<(Fixed, Fixed, Fixed)>,
) -> (Vec2, Fixed) {
    let th = threat(me, predators, shelters);
    let is_fearful = fearful(th.fear);
    let repulsion = repulsion_fold(
        obstacles,
        obstacles.len(),
        me.position,
        obstacle_radius_sq(is_fearful),
    );
    (
        with_avoidance(with_flight(flock_force(t, me), th, me), repulsion, me, is_fearful),
        th.fear,
    )
}

/// `n + 1`, or `n` where that does not fit.
pub fn bumped(n: usize) -> (r: usize)
    ensures
        r == bump(n),
{
    if n < usize::MAX {
        n + 1
    } else {
        n
    }
}

/// The square of the cohesion radius of a boid of the given sociability.
pub fn cohesion_reach(sociability: Fixed, day_phase: Fixed) -> (r: Fixed)
    ensures
        r == cohesion_radius_sq(sociability, day_phase),
{
    let widening = Fixed::one().add(Fixed::one().sub(day_phase).mul(Fixed::from_raw(500_000))).add(
        sociability.mul(Fixed::from_raw(300_000)),
    );
    let radius = Fixed::from_raw(50_000_000).mul(widening);
    radius.mul(radius)
}

/// Takes one neighbour into the tally.
pub fn absorbed(t: Tally, me: &Boid, other: &BoidCache, coh_radius_sq: Fixed) -> (r: Tally)
    ensures
        r == absorb(t, *me, *other, coh_radius_sq),
{
    let dx = me.position.x.sub(other.x);
    let dy = me.position.y.sub(other.y);
    let dsq = dx.mul(dx).add(dy.mul(dy));
    let mut r = t;
    if dsq.raw < 625_000_000 {
        let softened = dsq.add(Fixed::from_raw(1_000));
        r.sep = r.sep.add(Vec2::new(dx.div(softened), dy.div(softened)));
        r.sep_ct = bumped(r.sep_ct);
    }
    if me.is_hybrid || other.is_hybrid || other.species == me.species {
        if dsq.raw < 2_500_000_000 {
            r.ali = r.ali.add(Vec2::new(other.vx, other.vy));
            r.ali_ct = bumped(r.ali_ct);
        }
        if dsq.raw < coh_radius_sq.raw {
            r.coh = r.coh.add(Vec2::new(other.x, other.y));
            r.coh_ct = bumped(r.coh_ct);
        }
    }
    r
}

/// The steering force toward the direction of `raw`.
pub fn steer_toward(raw: Vec2, speed: Fixed, velocity: Vec2, limit: Fixed) -> (f: Vec2)
    ensures
        f == steer(raw, speed, velocity, limit),
{
    raw.normalize().mult(speed).sub(velocity).limit(limit)
}

/// The acceleration from the neighbours in the tally.
pub fn flock_force_of(t: &Tally, me: &Boid) -> (a: Vec2)
    ensures
        a == flock_force(*t, *me),
{
    let speed = Fixed::from_raw(MAX_SPEED);
    let limit = Fixed::from_raw(MAX_FORCE);
    let mut a = Vec2::zero();
    if t.sep_ct > 0 {
        let f = steer_toward(t.sep.div_count(t.sep_ct), speed, me.velocity, limit);
        a = a.add(f.mult(Fixed::from_raw(1_800_000)));
    }
    if t.ali_ct > 0 {
        let f = steer_toward(t.ali.div_count(t.ali_ct), speed, me.velocity, limit);
        a = a.add(f);
    }
    if t.coh_ct > 0 {
        let toward = t.coh.div_count(t.coh_ct).sub(me.position);
        let f = steer_toward(toward, speed, me.velocity, limit);
        a = a.add(f.mult(Fixed::one().add(me.sociability.mul(Fixed::from_raw(300_000)))));
    }
    a
}

/// Whether `pos` lies inside any of the shelters.
pub fn is_sheltered(pos: Vec2, shelters: &[(Fixed, Fixed, Fixed)]) -> (b: bool)
    ensures
        b == sheltered(pos, shelters@),
{
    let mut i: usize = 0;
    while i < shelters.len()
        invariant
            i <= shelters.len(),
            forall|j: int| 0 <= j < i ==> !inside(pos, #[trigger] shelters@[j]),
        decreases shelters.len() - i,
    {
        let s = shelters[i];
        let dx = s.0.sub(pos.x);
        let dy = s.1.sub(pos.y);
        if dx.mul(dx).add(dy.mul(dy)).raw < s.2.mul(s.2).raw {
            assert(inside(pos, shelters@[i as int]));
            return true;
        }
        i = i + 1;
    }
    false
}

/// The threat to a boid from the predators, unless a shelter covers it.
pub fn threat_of(me: &Boid, predators: &[(Fixed, Fixed)], shelters: &[(Fixed, Fixed, Fixed)]) -> (t:
    Threat)
    ensures
        t == threat(*me, predators@, shelters@),
{
    let bullied = me.mutations.has(Mutations::BULLIED);
    if is_sheltered(me.position, shelters) {
        return Threat {
            flee: Vec2::zero(),
            fear: if bullied {
                Fixed::from_raw(200_000)
            } else {
                Fixed::zero()
            },
        };
    }
    let radius = Fixed::from_raw(100_000_000).add(
        Fixed::one().sub(me.bravery).mul(Fixed::from_raw(50_000_000)),
    );
    let radius_sq = radius.mul(radius);
    let start = Threat {
        flee: Vec2::zero(),
        fear: if bullied {
            Fixed::from_raw(300_000)
        } else {
            Fixed::zero()
        },
    };
    let mut t = start;
    let mut i: usize = 0;
    while i < predators.len()
        invariant
            i <= predators.len(),
            radius == flee_radius(me.bravery),
            radius_sq == radius.mul(radius),
            t == threat_fold(predators@, i as nat, me.position, radius, start),
        decreases predators.len() - i,
    {
        let p = predators[i];
        let dx = me.position.x.sub(p.0);
        let dy = me.position.y.sub(p.1);
        let dsq = dx.mul(dx).add(dy.mul(dy));
        if dsq.raw < radius_sq.raw {
            let d = dsq.sqrt();
            let softened = d.add(Fixed::from_raw(1_000));
            t.flee = t.flee.add(Vec2::new(dx.div(softened), dy.div(softened)));
            t.fear = t.fear.max(Fixed::one().sub(d.div(radius)));
        }
        i = i + 1;
    }
    t
}

/// Adds the flight from the predators to an acceleration.
pub fn add_flight(acc: Vec2, t: &Threat, me: &Boid) -> (a: Vec2)
    ensures
        a == with_flight(acc, *t, *me),
{
    if t.flee.is_zero() {
        acc
    } else {
        let speed = Fixed::from_raw(MAX_SPEED).mul(
            Fixed::from_raw(1_500_000).add(me.bravery.mul(Fixed::from_raw(300_000))),
        );
        let limit = Fixed::from_raw(MAX_FORCE).mul(Fixed::from_raw(3_000_000));
        let urgency = if t.fear.raw > 300_000 {
            Fixed::from_raw(4_000_000)
        } else {
            Fixed::one()
        };
        let weight = urgency.mul(Fixed::from_raw(4_000_000).sub(me.bravery));
        acc.add(steer_toward(t.flee, speed, me.velocity, limit).mult(weight))
    }
}

/// The repulsion from the obstacles within the radius.
pub fn repulsion_of(pos: Vec2, obstacles: &[(Fixed, Fixed)], radius_sq: Fixed) -> (sum: Vec2)
    ensures
        sum == repulsion_fold(obstacles@, obstacles@.len(), pos, radius_sq),
{
    let mut sum = Vec2::zero();
    let mut i: usize = 0;
    while i < obstacles.len()
        invariant
            i <= obstacles.len(),
            sum == repulsion_fold(obstacles@, i as nat, pos, radius_sq),
        decreases obstacles.len() - i,
    {
        let o = obstacles[i];
        let dx = pos.x.sub(o.0);
        let dy = pos.y.sub(o.1);
        let dsq = dx.mul(dx).add(dy.mul(dy));
        if dsq.raw < radius_sq.raw {
            let softened = dsq.add(Fixed::from_raw(1_000));
            sum = sum.add(Vec2::new(dx.div(softened), dy.div(softened)));
        }
        i = i + 1;
    }
    sum
}

/// Adds the avoidance of obstacles to an acceleration.
pub fn add_avoidance(acc: Vec2, repulsion: Vec2, me: &Boid, is_fearful: bool) -> (a: Vec2)
    ensures
        a == with_avoidance(acc, repulsion, *me, is_fearful),
{
    if repulsion.is_zero() {
        acc
    } else {
        let speed = Fixed::from_raw(MAX_SPEED).mul(
            if is_fearful {
                Fixed::from_raw(1_500_000)
            } else {
                Fixed::one()
            },
        );
        let limit = Fixed::from_raw(MAX_FORCE).mul(
            if is_fearful {
                Fixed::from_raw(3_000_000)
            } else {
                Fixed::from_raw(2_000_000)
            },
        );
        let weight = if is_fearful {
            Fixed::from_raw(3_000_000)
        } else {
            Fixed::one()
        };
        acc.add(steer_toward(repulsion, speed, me.velocity, limit).mult(weight))
    }
}

/// The acceleration on a boid and its fear, from the tally over its neighbours
/// and from the predators, obstacles and shelters.
pub fn steering_of(
    me: &Boid,
    t: &Tally,
    predators: &[(Fixed, Fixed)],
    obstacles: &[(Fixed, Fixed)],
    shelters: &[(Fixed, Fixed, Fixed)],
) -> (r: (Vec2, Fixed))
    ensures
        r == steering(*me, *t, predators@, obstacles@, shelters@),
{
    let th = threat_of(me, predators, shelters);
    let is_fearful = th.fear.raw > 300_000;
    let radius_sq = if is_fearful {
        Fixed::from_raw(6_400_000_000)
    } else {
        Fixed::from_raw(2_500_000_000)
    };
    let repulsion = repulsion_of(me.position, obstacles, radius_sq);
    let a = flock_force_of(t, me);
    let a = add_flight(a, &th, me);
    let a = add_avoidance(a, repulsion, me, is_fearful);
    (a, th.fear)
}

/// Whether `v` lies between 0 and 1.
pub open spec fn in_unit(v: Fixed) -> bool {
    0 <= v.raw <= 1_000_000
}

/// For a bravery between 0 and 1 the flee radius lies between 100 and 150.
pub proof fn lemma_flee_radius_range(bravery: Fixed)
    requires
        in_unit(bravery),
    ensures
        100_000_000 <= flee_radius(bravery).raw <= 150_000_000,
{
    lemma_mul_fraction(Fixed::one().sub(bravery), Fixed::from_raw(50_000_000));
}

/// Taking in a predator keeps a fear between 0 and 1 there.
pub proof fn lemma_threat_step_keeps_fear(t: Threat, pos: Vec2, predator: (Fixed, Fixed), radius: Fixed)
    requires
        in_unit(t.fear),
        radius.raw > 0,
    ensures
        in_unit(threat_step(t, pos, predator, radius).fear),
{
    let dx = pos.x.sub(predator.0);
    let dy = pos.y.sub(predator.1);
    let dsq = dx.mul(dx).add(dy.mul(dy));
    let d = dsq.sqrt();
    lemma_sqrt_not_negative(dsq);
    lemma_div_not_negative(d, radius);
}

/// Taking in any number of predators keeps a fear between 0 and 1 there.
pub proof fn lemma_threat_fold_keeps_fear(
    predators: Seq<(Fixed, Fixed)>,
    n: nat,
    pos: Vec2,
    radius: Fixed,
    start: Threat,
)
    requires
        in_unit(start.fear),
        radius.raw > 0,
    ensures
        in_unit(threat_fold(predators, n, pos, radius, start).fear),
    decreases n,
{
    if n > 0 {
        lemma_threat_fold_keeps_fear(predators, (n - 1) as nat, pos, radius, start);
        lemma_threat_step_keeps_fear(
            threat_fold(predators, (n - 1) as nat, pos, radius, start),
            pos,
            predators[n - 1],
            radius,
        );
    }
}

/// The fear of a boid whose bravery lies between 0 and 1 lies between 0 and 1,
/// whatever the predators and the shelters.
pub proof fn lemma_fear_in_unit(
    me: Boid,
    t: Tally,
    predators: Seq<(Fixed, Fixed)>,
    obstacles: Seq<(Fixed, Fixed)>,
    shelters: Seq<(Fixed, Fixed, Fixed)>,
)
    requires
        in_unit(me.bravery),
    ensures
        in_unit(threat(me, predators, shelters).fear),
        in_unit(steering(me, t, predators, obstacles, shelters).1),
{
    lemma_flee_radius_range(me.bravery);
    let bullied = me.mutations.has(Mutations::BULLIED);
    let start = Threat {
        flee: Vec2::zero(),
        fear: if bullied {
            Fixed::from_raw(300_000)
        } else {
            Fixed::zero()
        },
    };
    lemma_threat_fold_keeps_fear(
        predators,
        predators.len(),
        me.position,
        flee_radius(me.bravery),
        start,
    );
}

/// A steering force is within its limit: neither coordinate exceeds the limit
/// in magnitude.
pub proof fn lemma_steer_bounds(raw: Vec2, speed: Fixed, velocity: Vec2, limit: Fixed)
    ensures
        magnitude(steer(raw, speed, velocity, limit).x.raw as int) <= magnitude(limit.raw as int),
        magnitude(steer(raw, speed, velocity, limit).y.raw as int) <= magnitude(limit.raw as int),
{
    lemma_limit_bounds(raw.normalize().mult(speed).sub(velocity), limit);
}

} // verus!
