//! The prey agent: its mutation flags, its life cycle, its physiology.
use crate::fixed::{lemma_mul_exact, magnitude, Fixed, FULL_TURN};
use crate::flocking::{
    absorb, absorbed, cohesion_radius_sq, cohesion_reach, empty_tally, in_unit,
    lemma_fear_in_unit, steering, steering_of, BoidCache, Tally, MAX_SPEED,
};
use crate::rng::Rng;
use crate::vector::{lemma_limit_bounds, Vec2};
use vstd::prelude::*;

verus! {

/// The number of one bits in `bits`.
pub open spec fn popcount(bits: u32) -> nat
    decreases bits,
{
    if bits == 0 {
        0
    } else {
        (if bits % 2 == 1 {
            1nat
        } else {
            0nat
        }) + popcount(bits / 2)
    }
}

/// A number has no more one bits than its value.
pub proof fn lemma_popcount_le(bits: u32)
    ensures
        popcount(bits) <= bits,
    decreases bits,
{
    if bits != 0 {
        lemma_popcount_le(bits / 2);
    }
}

/// A set of mutation flags, one bit each.
#[derive(Clone, Copy, Debug)]
pub struct Mutations(u32);

impl View for Mutations {
    type V = u32;

    /// The flags as a bit mask.
    closed spec fn view(&self) -> u32 {
        self.0
    }
}

impl Default for Mutations {
    /// The empty set.
    fn default() -> (m: Mutations)
        ensures
            m == Mutations::default_spec(),
            m@ == 0,
    {
        Mutations(0)
    }
}

impl Mutations {
    /// Size 1.5, before tiny and fat; speed times 0.85.
    pub const GIANT: u32 = 0x0000_0001;

    /// Size 0.6, unless giant; speed times 1.2.
    pub const TINY: u32 = 0x0000_0002;

    /// Speed times 1.4.
    pub const SPEEDY: u32 = 0x0000_0004;

    /// Shown by the host; no effect on the simulation.
    pub const GLOWING: u32 = 0x0000_0008;

    /// Fatigue resistance 0.5, before mechanical and paper.
    pub const TOUGH: u32 = 0x0000_0010;

    /// Shown by the host; no effect on the simulation.
    pub const LONGLIVED: u32 = 0x0000_0020;

    /// Shown by the host; no effect on the simulation.
    pub const FERTILE: u32 = 0x0000_0040;

    /// Shown by the host; no effect on the simulation.
    pub const CAMOUFLAGE: u32 = 0x0000_0080;

    /// Armor.
    pub const PLATED: u32 = 0x0000_0100;

    /// At night: faster, recovering energy and shedding fatigue.
    pub const NOCTURNAL: u32 = 0x0000_0200;

    /// Shown by the host; no effect on the simulation.
    pub const RAINBOW: u32 = 0x0000_0400;

    /// Shown by the host; no effect on the simulation.
    pub const RAVENOUS: u32 = 0x0000_0800;

    /// Bravery plus 0.4.
    pub const ZEN: u32 = 0x0000_1000;

    /// Sociability plus 0.5.
    pub const MAGNETIC: u32 = 0x0000_2000;

    /// Shown by the host; no effect on the simulation.
    pub const CANNIBAL: u32 = 0x0000_4000;

    /// No death of old age; energy drain 3, before small stomach and
    /// mechanical.
    pub const IMMORTAL: u32 = 0x0000_8000;

    /// Energy capacity 200, before small stomach.
    pub const BIG_STOMACH: u32 = 0x0001_0000;

    /// Energy capacity 50, unless big stomach; energy drain 0.66, unless
    /// immortal.
    pub const SMALL_STOMACH: u32 = 0x0002_0000;

    /// Shown by the host; no effect on the simulation.
    pub const TRAITOR: u32 = 0x0004_0000;

    /// Size 1.3, unless giant or tiny; speed times 0.7.
    pub const FAT: u32 = 0x0008_0000;

    /// Fatigue resistance 2, unless tough or mechanical.
    pub const PAPER: u32 = 0x0010_0000;

    /// Speed times 0.5.
    pub const FLIGHTLESS: u32 = 0x0020_0000;

    /// Speed times 1.1; fatigue resistance 0.3, unless tough; energy drain 0.5,
    /// unless immortal or small stomach.
    pub const MECHANICAL: u32 = 0x0040_0000;

    /// Four times as attractive to predators.
    pub const TASTY: u32 = 0x0080_0000;

    /// Sociability minus 0.4; never without fear.
    pub const BULLIED: u32 = 0x0100_0000;

    /// Shown by the host; no effect on the simulation.
    pub const AGGRESSIVE: u32 = 0x0200_0000;

    /// The empty set.
    pub closed spec fn default_spec() -> Mutations {
        Mutations(0)
    }

    /// The empty set holds no flag.
    pub proof fn lemma_default_is_empty()
        ensures
            Mutations::default_spec()@ == 0,
    {
    }

    pub open spec fn spec_has(&self, flag: u32) -> bool {
        self@ & flag != 0
    }

    /// Whether any bit of `flag` is in the set.
    #[verifier::when_used_as_spec(spec_has)]
    pub fn has(&self, flag: u32) -> (b: bool)
        ensures
            b == self.spec_has(flag),
    {
        self.0 & flag != 0
    }

    /// Puts the bits of `flag` into the set.
    pub fn set(&mut self, flag: u32)
        ensures
            final(self)@ == old(self)@ | flag,
    {
        self.0 = self.0 | flag;
    }

    /// Takes the bits of `flag` out of the set.
    pub fn clear(&mut self, flag: u32)
        ensures
            final(self)@ == old(self)@ & !flag,
    {
        self.0 = self.0 & !flag;
    }

    /// The number of flags in the set.
    pub fn count(&self) -> (n: u32)
        ensures
            n == popcount(self@),
    {
        let mut rest: u32 = self.0;
        let mut n: u32 = 0;
        proof {
            lemma_popcount_le(self.0);
        }
        while rest != 0
            invariant
                n + popcount(rest) == popcount(self@),
                popcount(self@) <= u32::MAX,
            decreases rest,
        {
            if rest % 2 == 1 {
                n = n + 1;
            }
            rest = rest / 2;
        }
        n
    }

    /// The set as a bit mask.
    pub fn raw(&self) -> (bits: u32)
        ensures
            bits == self@,
    {
        self.0
    }
}

/// Where a boid stands in its life cycle.
#[derive(Clone, Copy, PartialEq, Eq, Structural, Debug)]
pub enum BoidState {
    Normal,
    Perching,
    Collapsed,
    Fishing,
}

impl BoidState {
    pub open spec fn spec_code(&self) -> u8 {
        match self {
            BoidState::Normal => 0,
            BoidState::Perching => 1,
            BoidState::Collapsed => 2,
            BoidState::Fishing => 3,
        }
    }

    /// The state's number in render records and snapshots.
    #[verifier::when_used_as_spec(spec_code)]
    pub fn code(&self) -> (c: u8)
        ensures
            c == self.spec_code(),
    {
        match self {
            BoidState::Normal => 0,
            BoidState::Perching => 1,
            BoidState::Collapsed => 2,
            BoidState::Fishing => 3,
        }
    }
}

/// `v` pinned to the range from 0 to 1.
pub open spec fn clamp_unit(v: Fixed) -> Fixed {
    v.max(Fixed::zero()).min(Fixed::one())
}

/// The size multiplier: the first of giant, tiny and fat that is present decides.
pub open spec fn size_mult_of(m: Mutations) -> Fixed {
    if m.has(Mutations::GIANT) {
        Fixed::from_raw(1_500_000)
    } else if m.has(Mutations::TINY) {
        Fixed::from_raw(600_000)
    } else if m.has(Mutations::FAT) {
        Fixed::from_raw(1_300_000)
    } else {
        Fixed::one()
    }
}

/// `base` times `factor` if `present`, else `base`.
pub open spec fn scaled_if(base: Fixed, present: bool, factor: i64) -> Fixed {
    if present {
        base.mul(Fixed::from_raw(factor))
    } else {
        base
    }
}

/// The speed multiplier: one, times the factor of each flag present, in the
/// order speedy, tiny, giant, fat, flightless, mechanical.
pub open spec fn speed_mult_of(m: Mutations) -> Fixed {
    let s1 = scaled_if(Fixed::one(), m.has(Mutations::SPEEDY), 1_400_000);
    let s2 = scaled_if(s1, m.has(Mutations::TINY), 1_200_000);
    let s3 = scaled_if(s2, m.has(Mutations::GIANT), 850_000);
    let s4 = scaled_if(s3, m.has(Mutations::FAT), 700_000);
    let s5 = scaled_if(s4, m.has(Mutations::FLIGHTLESS), 500_000);
    scaled_if(s5, m.has(Mutations::MECHANICAL), 1_100_000)
}

/// The fatigue resistance: the first of tough, mechanical and paper decides.
pub open spec fn fatigue_resistance_of(m: Mutations) -> Fixed {
    if m.has(Mutations::TOUGH) {
        Fixed::from_raw(500_000)
    } else if m.has(Mutations::MECHANICAL) {
        Fixed::from_raw(300_000)
    } else if m.has(Mutations::PAPER) {
        Fixed::from_raw(2_000_000)
    } else {
        Fixed::one()
    }
}

/// The energy capacity: the first of big stomach and small stomach decides.
pub open spec fn max_energy_of(m: Mutations) -> Fixed {
    if m.has(Mutations::BIG_STOMACH) {
        Fixed::from_raw(200_000_000)
    } else if m.has(Mutations::SMALL_STOMACH) {
        Fixed::from_raw(50_000_000)
    } else {
        Fixed::from_raw(100_000_000)
    }
}

/// The energy drain: the first of immortal, small stomach and mechanical decides.
pub open spec fn energy_drain_of(m: Mutations) -> Fixed {
    if m.has(Mutations::IMMORTAL) {
        Fixed::from_raw(3_000_000)
    } else if m.has(Mutations::SMALL_STOMACH) {
        Fixed::from_raw(660_000)
    } else if m.has(Mutations::MECHANICAL) {
        Fixed::from_raw(500_000)
    } else {
        Fixed::one()
    }
}

/// Bravery after the flags have had their say: zen adds 0.4.
pub open spec fn perturbed_bravery(m: Mutations, bravery: Fixed) -> Fixed {
    if m.has(Mutations::ZEN) {
        clamp_unit(bravery.add(Fixed::from_raw(400_000)))
    } else {
        bravery
    }
}

/// Sociability after the flags have had their say: magnetic adds 0.5, then
/// bullied takes 0.4 away.
pub open spec fn perturbed_sociability(m: Mutations, sociability: Fixed) -> Fixed {
    let s1 = if m.has(Mutations::MAGNETIC) {
        clamp_unit(sociability.add(Fixed::from_raw(500_000)))
    } else {
        sociability
    };
    if m.has(Mutations::BULLIED) {
        clamp_unit(s1.sub(Fixed::from_raw(400_000)))
    } else {
        s1
    }
}

/// Fear after the flags have had their say: bullied adds 0.3.
pub open spec fn perturbed_fear(m: Mutations, fear: Fixed) -> Fixed {
    if m.has(Mutations::BULLIED) {
        clamp_unit(fear.add(Fixed::from_raw(300_000)))
    } else {
        fear
    }
}

/// `v` pinned to the range from 0 to 1.
pub fn clamp_to_unit(v: Fixed) -> (r: Fixed)
    ensures
        r == clamp_unit(v),
        0 <= r.raw <= 1_000_000,
{
    v.max(Fixed::zero()).min(Fixed::one())
}

fn size_mult_for(m: &Mutations) -> (r: Fixed)
    ensures
        r == size_mult_of(*m),
{
    if m.has(Mutations::GIANT) {
        Fixed::from_raw(1_500_000)
    } else if m.has(Mutations::TINY) {
        Fixed::from_raw(600_000)
    } else if m.has(Mutations::FAT) {
        Fixed::from_raw(1_300_000)
    } else {
        Fixed::one()
    }
}

fn scale_if(base: Fixed, present: bool, factor: i64) -> (r: Fixed)
    ensures
        r == scaled_if(base, present, factor),
{
    if present {
        base.mul(Fixed::from_raw(factor))
    } else {
        base
    }
}

fn speed_mult_for(m: &Mutations) -> (r: Fixed)
    ensures
        r == speed_mult_of(*m),
{
    let s1 = scale_if(Fixed::one(), m.has(Mutations::SPEEDY), 1_400_000);
    let s2 = scale_if(s1, m.has(Mutations::TINY), 1_200_000);
    let s3 = scale_if(s2, m.has(Mutations::GIANT), 850_000);
    let s4 = scale_if(s3, m.has(Mutations::FAT), 700_000);
    let s5 = scale_if(s4, m.has(Mutations::FLIGHTLESS), 500_000);
    scale_if(s5, m.has(Mutations::MECHANICAL), 1_100_000)
}

fn fatigue_resistance_for(m: &Mutations) -> (r: Fixed)
    ensures
        r == fatigue_resistance_of(*m),
{
    if m.has(Mutations::TOUGH) {
        Fixed::from_raw(500_000)
    } else if m.has(Mutations::MECHANICAL) {
        Fixed::from_raw(300_000)
    } else if m.has(Mutations::PAPER) {
        Fixed::from_raw(2_000_000)
    } else {
        Fixed::one()
    }
}

fn max_energy_for(m: &Mutations) -> (r: Fixed)
    ensures
        r == max_energy_of(*m),
{
    if m.has(Mutations::BIG_STOMACH) {
        Fixed::from_raw(200_000_000)
    } else if m.has(Mutations::SMALL_STOMACH) {
        Fixed::from_raw(50_000_000)
    } else {
        Fixed::from_raw(100_000_000)
    }
}

fn energy_drain_for(m: &Mutations) -> (r: Fixed)
    ensures
        r == energy_drain_of(*m),
{
    if m.has(Mutations::IMMORTAL) {
        Fixed::from_raw(3_000_000)
    } else if m.has(Mutations::SMALL_STOMACH) {
        Fixed::from_raw(660_000)
    } else if m.has(Mutations::MECHANICAL) {
        Fixed::from_raw(500_000)
    } else {
        Fixed::one()
    }
}

fn bravery_for(m: &Mutations, bravery: Fixed) -> (r: Fixed)
    ensures
        r == perturbed_bravery(*m, bravery),
        in_unit(bravery) ==> in_unit(r),
{
    if m.has(Mutations::ZEN) {
        clamp_to_unit(bravery.add(Fixed::from_raw(400_000)))
    } else {
        bravery
    }
}

fn sociability_for(m: &Mutations, sociability: Fixed) -> (r: Fixed)
    ensures
        r == perturbed_sociability(*m, sociability),
        in_unit(sociability) ==> in_unit(r),
{
    let s1 = if m.has(Mutations::MAGNETIC) {
        clamp_to_unit(sociability.add(Fixed::from_raw(500_000)))
    } else {
        sociability
    };
    if m.has(Mutations::BULLIED) {
        clamp_to_unit(s1.sub(Fixed::from_raw(400_000)))
    } else {
        s1
    }
}

fn fear_for(m: &Mutations, fear: Fixed) -> (r: Fixed)
    ensures
        r == perturbed_fear(*m, fear),
        in_unit(fear) ==> in_unit(r),
{
    if m.has(Mutations::BULLIED) {
        clamp_to_unit(fear.add(Fixed::from_raw(300_000)))
    } else {
        fear
    }
}

/// A prey agent.
#[derive(Clone, Copy, Debug)]
pub struct Boid {
    /// Where the boid is.
    pub position: Vec2,
    /// How far it moves in a tick.
    pub velocity: Vec2,
    /// The forces gathered since its last move.
    pub acceleration: Vec2,
    /// Its species, 0 or 1; boids flock with their own.
    pub species: u8,
    /// Whether it flocks with either species.
    pub is_hybrid: bool,
    /// Its colour, for the host.
    pub hue: Fixed,
    /// Its energy; it dies without.
    pub energy: Fixed,
    /// How much energy it can hold.
    pub max_energy: Fixed,
    /// Its fatigue; above 150 it collapses.
    pub fatigue: Fixed,
    /// Its fear, from 0 to 1, as of its last steering.
    pub fear: Fixed,
    /// Its age in ticks.
    pub age: u32,
    /// Its life span in ticks.
    pub max_age: u32,
    /// Where it stands in its life cycle.
    pub state: BoidState,
    /// The ticks left to lie collapsed.
    pub collapse_timer: u32,
    /// The ticks left to fish.
    pub fish_timer: u32,
    /// Its mutation flags.
    pub mutations: Mutations,
    /// Whether it is plated.
    pub has_armor: bool,
    /// Its bravery, from 0 to 1: brave boids take fright from less far.
    pub bravery: Fixed,
    /// Its hunger, from 0 to 1: hungry boids burn more and sense food from
    /// further.
    pub hunger: Fixed,
    /// Its laziness, from 0 to 1: lazy boids tire more slowly.
    pub laziness: Fixed,
    /// Its sociability, from 0 to 1: sociable boids are drawn together from
    /// further.
    pub sociability: Fixed,
    /// Its size multiplier, for the host.
    pub size_mult: Fixed,
    /// Its speed multiplier.
    pub speed_mult: Fixed,
    /// The factor on all fatigue it builds.
    pub fatigue_resistance: Fixed,
    /// The factor on all energy it burns.
    pub energy_drain: Fixed,
}

impl Boid {
    /// Whether the derived fields are what the mutation flags make them.
    pub open spec fn derived_from_mutations(&self) -> bool {
        &&& self.size_mult == size_mult_of(self.mutations)
        &&& self.speed_mult == speed_mult_of(self.mutations)
        &&& self.fatigue_resistance == fatigue_resistance_of(self.mutations)
        &&& self.max_energy == max_energy_of(self.mutations)
        &&& self.energy_drain == energy_drain_of(self.mutations)
        &&& self.has_armor == self.mutations.has(Mutations::PLATED)
    }

    /// Whether the traits and the fear lie between 0 and 1.
    pub open spec fn traits_in_unit(&self) -> bool {
        &&& in_unit(self.bravery)
        &&& in_unit(self.hunger)
        &&& in_unit(self.laziness)
        &&& in_unit(self.sociability)
        &&& in_unit(self.fear)
    }

    /// Whether the boid is as the simulation keeps it: its traits and its fear
    /// between 0 and 1, its derived fields as its flags make them.
    pub open spec fn well_formed(&self) -> bool {
        self.traits_in_unit() && self.derived_from_mutations()
    }

    /// The boid with its multipliers, capacity and armor set from its flags, and
    /// its bravery, sociability and fear perturbed by them.
    pub open spec fn with_mutation_effects(&self) -> Boid {
        Boid {
            size_mult: size_mult_of(self.mutations),
            speed_mult: speed_mult_of(self.mutations),
            fatigue_resistance: fatigue_resistance_of(self.mutations),
            max_energy: max_energy_of(self.mutations),
            energy_drain: energy_drain_of(self.mutations),
            has_armor: self.mutations.has(Mutations::PLATED),
            bravery: perturbed_bravery(self.mutations, self.bravery),
            sociability: perturbed_sociability(self.mutations, self.sociability),
            fear: perturbed_fear(self.mutations, self.fear),
            ..*self
        }
    }

    /// Recomputes what the mutation flags determine, and perturbs the traits.
    /// The multipliers, the capacity and the armor depend on the flags alone; the
    /// traits are perturbed anew by every call.
    pub fn apply_mutation_effects(&mut self)
        ensures
            *final(self) == old(self).with_mutation_effects(),
            final(self).derived_from_mutations(),
            old(self).traits_in_unit() ==> final(self).well_formed(),
    {
        let m = self.mutations;
        self.size_mult = size_mult_for(&m);
        self.speed_mult = speed_mult_for(&m);
        self.fatigue_resistance = fatigue_resistance_for(&m);
        self.max_energy = max_energy_for(&m);
        self.energy_drain = energy_drain_for(&m);
        self.has_armor = m.has(Mutations::PLATED);
        self.bravery = bravery_for(&m, self.bravery);
        self.sociability = sociability_for(&m, self.sociability);
        self.fear = fear_for(&m, self.fear);
    }
}

/// The tally over the first `n` of the neighbours handed to a boid: each one in
/// the normal state is taken in.
pub open spec fn tally_neighbours(nearby: Seq<&Boid>, n: nat, me: Boid, coh_radius_sq: Fixed) -> Tally
    decreases n,
{
    if n == 0 {
        empty_tally()
    } else {
        let t = tally_neighbours(nearby, (n - 1) as nat, me, coh_radius_sq);
        let other = nearby[n - 1];
        if other.state == BoidState::Normal {
            absorb(t, me, other.snapshot(), coh_radius_sq)
        } else {
            t
        }
    }
}

/// `v` wrapped into `[0, bound)`; unchanged where the bound is not positive.
pub open spec fn wrap_coord(v: Fixed, bound: Fixed) -> Fixed {
    if bound.raw > 0 {
        Fixed { raw: (v.raw % bound.raw) as i64 }
    } else {
        v
    }
}

/// `pos` wrapped onto the torus of the given size.
pub open spec fn wrap_position(pos: Vec2, width: Fixed, height: Fixed) -> Vec2 {
    Vec2 { x: wrap_coord(pos.x, width), y: wrap_coord(pos.y, height) }
}

/// Whether `pos` lies on the torus of the given size.
pub open spec fn in_bounds(pos: Vec2, width: Fixed, height: Fixed) -> bool {
    0 <= pos.x.raw < width.raw && 0 <= pos.y.raw < height.raw
}

/// `n + 1`, or `n` where that does not fit.
pub open spec fn next_count(n: u32) -> u32 {
    if n < u32::MAX {
        (n + 1) as u32
    } else {
        n
    }
}

/// `n - 1`, or 0 for 0.
pub open spec fn prev_count(n: u32) -> u32 {
    if n > 0 {
        (n - 1) as u32
    } else {
        0
    }
}

/// A wrapped coordinate lies in `[0, bound)`.
pub proof fn lemma_wrap_coord_range(v: Fixed, bound: Fixed)
    requires
        bound.raw > 0,
    ensures
        0 <= wrap_coord(v, bound).raw < bound.raw,
{
    let b = bound.raw as int;
    let x = v.raw as int;
    assert(0 <= x % b < b) by (nonlinear_arith)
        requires
            b > 0,
    ;
}

/// `v` wrapped into `[0, bound)`.
pub fn wrapped(v: Fixed, bound: Fixed) -> (r: Fixed)
    ensures
        r == wrap_coord(v, bound),
        bound.raw > 0 ==> 0 <= r.raw < bound.raw,
{
    if bound.raw <= 0 {
        return v;
    }
    proof {
        lemma_wrap_coord_range(v, bound);
    }
    let b: i64 = bound.raw;
    if v.raw >= 0 {
        Fixed { raw: v.raw % b }
    } else {
        let u: i64 = -(v.raw + 1);
        let m: i64 = u % b;
        proof {
            let q = (u as int) / (b as int);
            vstd::arithmetic::div_mod::lemma_fundamental_div_mod(u as int, b as int);
            assert(v.raw == (-(q + 1)) * b + (b - 1 - m)) by (nonlinear_arith)
                requires
                    u == -(v.raw + 1),
                    u == b * q + m,
            ;
            vstd::arithmetic::div_mod::lemma_fundamental_div_mod_converse(
                v.raw as int,
                b as int,
                -(q + 1),
                (b - 1 - m) as int,
            );
        }
        Fixed { raw: b - 1 - m }
    }
}

impl Boid {
    pub open spec fn spec_snapshot(&self) -> BoidCache {
        BoidCache {
            x: self.position.x,
            y: self.position.y,
            vx: self.velocity.x,
            vy: self.velocity.y,
            species: self.species,
            is_hybrid: self.is_hybrid,
            state: self.state.code(),
        }
    }

    /// What the boid shows of itself to the others.
    #[verifier::when_used_as_spec(spec_snapshot)]
    pub fn snapshot(&self) -> (c: BoidCache)
        ensures
            c == self.spec_snapshot(),
    {
        BoidCache {
            x: self.position.x,
            y: self.position.y,
            vx: self.velocity.x,
            vy: self.velocity.y,
            species: self.species,
            is_hybrid: self.is_hybrid,
            state: self.state.code(),
        }
    }

    /// Whether fatigue has passed the threshold of 150 at which a boid collapses.
    pub open spec fn exhausted(&self) -> bool {
        self.fatigue.raw > 150_000_000
    }

    /// The boid as it falls: collapsed for 100 ticks, at rest.
    pub open spec fn collapsed(&self) -> Boid {
        Boid {
            state: BoidState::Collapsed,
            collapse_timer: 100,
            velocity: Vec2::zero(),
            ..*self
        }
    }

    /// The boid with a steering result applied: the acceleration added to its
    /// own, the fear replacing its own.
    pub open spec fn steered(&self, result: (Vec2, Fixed)) -> Boid {
        Boid { acceleration: self.acceleration.add(result.0), fear: result.1, ..*self }
    }

    /// The boid after a round of flocking among `nearby`. Outside the normal
    /// state nothing changes. An exhausted boid collapses. Any other takes the
    /// steering from its neighbours, the predators and the obstacles.
    pub open spec fn flocked(
        &self,
        nearby: Seq<&Boid>,
        predators: Seq<(Fixed, Fixed)>,
        obstacles: Seq<(Fixed, Fixed)>,
        shelters: Seq<(Fixed, Fixed, Fixed)>,
        day_phase: Fixed,
    ) -> Boid {
        if self.state != BoidState::Normal {
            *self
        } else if self.exhausted() {
            self.collapsed()
        } else {
            let t = tally_neighbours(
                nearby,
                nearby.len(),
                *self,
                cohesion_radius_sq(self.sociability, day_phase),
            );
            self.steered(steering(*self, t, predators, obstacles, shelters))
        }
    }

    /// Lets the boid fall: collapsed for 100 ticks, at rest.
    pub fn collapse(&mut self)
        ensures
            *final(self) == old(self).collapsed(),
            final(self).state == BoidState::Collapsed,
            final(self).velocity == Vec2::zero(),
    {
        self.state = BoidState::Collapsed;
        self.collapse_timer = 100;
        self.velocity.reset();
    }

    /// Applies a steering result.
    pub fn apply_steering(&mut self, result: (Vec2, Fixed))
        ensures
            *final(self) == old(self).steered(result),
    {
        self.acceleration.add_mut(result.0);
        self.fear = result.1;
    }

    /// One round of flocking among `nearby_boids`, which does not hold the boid
    /// itself. An exhausted boid collapses and comes to rest at once.
    pub fn flock(
        &mut self,
        nearby_boids: &[&Boid],
        predator_positions: &[(Fixed, Fixed)],
        obstacle_positions: &[(Fixed, Fixed)],
        shelter_positions: &[(Fixed, Fixed, Fixed)],
        day_phase: Fixed,
    )
        ensures
            *final(self) == old(self).flocked(
                nearby_boids@,
                predator_positions@,
                obstacle_positions@,
                shelter_positions@,
                day_phase,
            ),
            old(self).state == BoidState::Normal && old(self).exhausted() ==> final(self).state
                == BoidState::Collapsed && final(self).velocity == Vec2::zero(),
            old(self).derived_from_mutations() ==> final(self).derived_from_mutations(),
            old(self).well_formed() ==> final(self).well_formed(),
    {
        if self.state != BoidState::Normal {
            return ;
        }
        if self.fatigue.raw > 150_000_000 {
            self.collapse();
            return ;
        }
        let coh_radius_sq = cohesion_reach(self.sociability, day_phase);
        let me: Boid = *self;
        let mut t = Tally {
            sep: Vec2::zero(),
            ali: Vec2::zero(),
            coh: Vec2::zero(),
            sep_ct: 0,
            ali_ct: 0,
            coh_ct: 0,
        };
        let mut i: usize = 0;
        while i < nearby_boids.len()
            invariant
                i <= nearby_boids.len(),
                t == tally_neighbours(nearby_boids@, i as nat, me, coh_radius_sq),
            decreases nearby_boids.len() - i,
        {
            let other: &Boid = nearby_boids[i];
            if other.state == BoidState::Normal {
                let shown = other.snapshot();
                t = absorbed(t, &me, &shown, coh_radius_sq);
            }
            i = i + 1;
        }
        let result = steering_of(&me, &t, predator_positions, obstacle_positions, shelter_positions);
        proof {
            if me.well_formed() {
                lemma_fear_in_unit(
                    me,
                    t,
                    predator_positions@,
                    obstacle_positions@,
                    shelter_positions@,
                );
            }
        }
        self.apply_steering(result);
    }
}

/// The hue of a boid born with the draw `r`: 120 to 150 for a hybrid, 190 to 220
/// for species 0, 40 to 70 for any other.
pub open spec fn hue_for(species: u8, is_hybrid: bool, r: Fixed) -> Fixed {
    let base = if is_hybrid {
        Fixed::from_raw(120_000_000)
    } else if species == 0 {
        Fixed::from_raw(190_000_000)
    } else {
        Fixed::from_raw(40_000_000)
    };
    base.add(r.mul(Fixed::from_raw(30_000_000)))
}

/// The life span of a boid born with the draw `r`: 8000 ticks and up to 4000 more.
pub open spec fn life_span_for(r: Fixed) -> u32 {
    let extra = r.mul(Fixed::from_raw(4_000_000_000)).trunc_u32();
    if extra > u32::MAX - 8000 {
        u32::MAX
    } else {
        (8000 + extra) as u32
    }
}

impl Boid {
    /// The boid that `new` makes at `(x, y)` from the generator `rng`, and the
    /// generator after the nine draws: heading, hue, speed, energy, life span,
    /// bravery, hunger, laziness, sociability.
    pub open spec fn spawned(x: Fixed, y: Fixed, species: u8, is_hybrid: bool, rng: Rng) -> (Boid, Rng) {
        let r1 = rng.advanced();
        let r2 = r1.advanced();
        let r3 = r2.advanced();
        let r4 = r3.advanced();
        let r5 = r4.advanced();
        let r6 = r5.advanced();
        let r7 = r6.advanced();
        let r8 = r7.advanced();
        let angle = rng.peek().mul(Fixed::from_raw(FULL_TURN));
        let speed = Fixed::from_raw(2_000_000).add(r2.peek().mul(Fixed::from_raw(2_000_000)));
        let plain = Boid {
            position: Vec2::new(x, y),
            velocity: Vec2::from_angle(angle, speed),
            acceleration: Vec2::zero(),
            species,
            is_hybrid,
            hue: hue_for(species, is_hybrid, r1.peek()),
            energy: Fixed::from_raw(50_000_000).add(r3.peek().mul(Fixed::from_raw(50_000_000))),
            max_energy: Fixed::from_raw(100_000_000),
            fatigue: Fixed::zero(),
            fear: Fixed::zero(),
            age: 0,
            max_age: life_span_for(r4.peek()),
            state: BoidState::Normal,
            collapse_timer: 0,
            fish_timer: 0,
            mutations: Mutations::default_spec(),
            has_armor: false,
            bravery: r5.peek(),
            hunger: r6.peek(),
            laziness: r7.peek(),
            sociability: r8.peek(),
            size_mult: Fixed::one(),
            speed_mult: Fixed::one(),
            fatigue_resistance: Fixed::one(),
            energy_drain: Fixed::one(),
        };
        (plain.with_mutation_effects(), r8.advanced())
    }

    /// A newborn boid at `(x, y)` without mutations, its heading, hue, speed,
    /// energy, life span and traits drawn from `rng`.
    pub fn new(x: Fixed, y: Fixed, species: u8, is_hybrid: bool, rng: &mut Rng) -> (boid: Boid)
        ensures
            (boid, *final(rng)) == Boid::spawned(x, y, species, is_hybrid, *old(rng)),
            boid.position == Vec2::new(x, y),
            boid.state == BoidState::Normal,
            boid.mutations@ == 0,
            boid.well_formed(),
    {
        let angle = rng.next_unit().mul(Fixed::from_raw(FULL_TURN));
        let hue_draw = rng.next_unit();
        let base = if is_hybrid {
            Fixed::from_raw(120_000_000)
        } else if species == 0 {
            Fixed::from_raw(190_000_000)
        } else {
            Fixed::from_raw(40_000_000)
        };
        let hue = base.add(hue_draw.mul(Fixed::from_raw(30_000_000)));
        let speed = Fixed::from_raw(2_000_000).add(rng.next_unit().mul(Fixed::from_raw(2_000_000)));
        let energy = Fixed::from_raw(50_000_000).add(rng.next_unit().mul(Fixed::from_raw(50_000_000)));
        let extra: u32 = rng.next_unit().mul(Fixed::from_raw(4_000_000_000)).trunc_u32();
        let max_age: u32 = if extra > u32::MAX - 8000 {
            u32::MAX
        } else {
            8000 + extra
        };
        let bravery = rng.next_unit();
        let hunger = rng.next_unit();
        let laziness = rng.next_unit();
        let sociability = rng.next_unit();
        let mut boid = Boid {
            position: Vec2::new(x, y),
            velocity: Vec2::from_angle(angle, speed),
            acceleration: Vec2::zero(),
            species,
            is_hybrid,
            hue,
            energy,
            max_energy: Fixed::from_raw(100_000_000),
            fatigue: Fixed::zero(),
            fear: Fixed::zero(),
            age: 0,
            max_age,
            state: BoidState::Normal,
            collapse_timer: 0,
            fish_timer: 0,
            mutations: Mutations::default(),
            has_armor: false,
            bravery,
            hunger,
            laziness,
            sociability,
            size_mult: Fixed::one(),
            speed_mult: Fixed::one(),
            fatigue_resistance: Fixed::one(),
            energy_drain: Fixed::one(),
        };
        boid.apply_mutation_effects();
        boid
    }

    /// The boid one tick older.
    pub open spec fn aged(&self) -> Boid {
        Boid { age: next_count(self.age), ..*self }
    }

    /// Whether the boid has outlived its life span; an immortal one never has.
    pub open spec fn past_age(&self) -> bool {
        self.age > self.max_age && !self.mutations.has(Mutations::IMMORTAL)
    }

    /// A fishing boid after a tick: its countdown one lower, back to normal at
    /// zero.
    pub open spec fn after_fishing(&self) -> Boid {
        let t = prev_count(self.fish_timer);
        Boid {
            fish_timer: t,
            state: if t == 0 {
                BoidState::Normal
            } else {
                self.state
            },
            ..*self
        }
    }

    /// A perching boid after a tick's rest: fatigue 0.8 lower but not below
    /// zero, energy lower by 0.003 times the drain.
    pub open spec fn rested(&self) -> Boid {
        Boid {
            fatigue: self.fatigue.sub(Fixed::from_raw(800_000)).max(Fixed::zero()),
            energy: self.energy.sub(Fixed::from_raw(3_000).mul(self.energy_drain)),
            ..*self
        }
    }

    /// Whether a perching boid takes off: in the second half of the day with
    /// fatigue under 20, or with fear above 0.5.
    pub open spec fn takes_off(&self, day_phase: Fixed) -> bool {
        (day_phase.raw > 500_000 && self.fatigue.raw < 20_000_000) || self.fear.raw > 500_000
    }

    /// A perching boid after a tick: rested, and where it takes off, normal
    /// again at speed 2 with a heading drawn from `rng`.
    pub open spec fn after_perching(&self, day_phase: Fixed, rng: Rng) -> (Boid, Rng) {
        let rested = self.rested();
        if rested.takes_off(day_phase) {
            (
                Boid {
                    state: BoidState::Normal,
                    velocity: Vec2::from_angle(
                        rng.peek().mul(Fixed::from_raw(FULL_TURN)),
                        Fixed::from_raw(2_000_000),
                    ),
                    ..rested
                },
                rng.advanced(),
            )
        } else {
            (rested, rng)
        }
    }

    /// A collapsed boid after a tick: its countdown one lower, at zero back to
    /// normal with fatigue 50; energy lower by 0.01 times the drain.
    pub open spec fn after_collapse(&self) -> Boid {
        let t = prev_count(self.collapse_timer);
        Boid {
            collapse_timer: t,
            state: if t == 0 {
                BoidState::Normal
            } else {
                self.state
            },
            fatigue: if t == 0 {
                Fixed::from_raw(50_000_000)
            } else {
                self.fatigue
            },
            energy: self.energy.sub(Fixed::from_raw(10_000).mul(self.energy_drain)),
            ..*self
        }
    }

    /// Whether the night bonus of a nocturnal boid applies.
    pub open spec fn night_active(&self, day_phase: Fixed) -> bool {
        self.mutations.has(Mutations::NOCTURNAL) && day_phase.raw < 400_000
    }

    /// The energy of a normal boid after a tick: less `(0.012 + 0.005 hunger)`
    /// times the drain, less 0.04 times the drain while afraid, plus 0.005 for a
    /// nocturnal boid at night.
    pub open spec fn energy_after(&self, day_phase: Fixed) -> Fixed {
        let e1 = self.energy.sub(
            Fixed::from_raw(12_000).add(self.hunger.mul(Fixed::from_raw(5_000))).mul(
                self.energy_drain,
            ),
        );
        let e2 = if self.fear.raw > 0 {
            e1.sub(Fixed::from_raw(40_000).mul(self.energy_drain))
        } else {
            e1
        };
        if self.night_active(day_phase) {
            e2.add(Fixed::from_raw(5_000))
        } else {
            e2
        }
    }

    /// The fatigue of a normal boid after a tick: plus `(0.025 - 0.01 laziness)`
    /// times the resistance, plus 0.04 times the resistance while afraid, less
    /// 0.01 for a nocturnal boid at night.
    pub open spec fn fatigue_after(&self, day_phase: Fixed) -> Fixed {
        let f1 = self.fatigue.add(
            Fixed::from_raw(25_000).sub(self.laziness.mul(Fixed::from_raw(10_000))).mul(
                self.fatigue_resistance,
            ),
        );
        let f2 = if self.fear.raw > 0 {
            f1.add(Fixed::from_raw(40_000).mul(self.fatigue_resistance))
        } else {
            f1
        };
        if self.night_active(day_phase) {
            f2.sub(Fixed::from_raw(10_000))
        } else {
            f2
        }
    }

    /// The factor by which age slows a boid: `1 - 0.5 age / max_age`, at least 0.5.
    pub open spec fn age_slow(&self) -> Fixed {
        Fixed::one().sub(
            Fixed::from_int(self.age as i64).div(Fixed::from_int(self.max_age as i64)).mul(
                Fixed::from_raw(500_000),
            ),
        ).max(Fixed::from_raw(500_000))
    }

    /// The speed limit of a normal boid:
    /// `4 (0.6 + 0.4 day) age_slow speed_mult (1 + 0.5 fear)`, times 1.3 for a
    /// nocturnal boid at night.
    pub open spec fn speed_limit(&self, day_phase: Fixed) -> Fixed {
        let pace = Fixed::from_raw(600_000).add(day_phase.mul(Fixed::from_raw(400_000))).mul(
            self.age_slow(),
        ).mul(self.speed_mult);
        let bonus = if self.night_active(day_phase) {
            Fixed::from_raw(1_300_000)
        } else {
            Fixed::one()
        };
        Fixed::from_raw(MAX_SPEED).mul(pace).mul(
            Fixed::one().add(self.fear.mul(Fixed::from_raw(500_000))),
        ).mul(bonus)
    }

    /// A normal boid after a tick: energy and fatigue drift; the acceleration
    /// goes into the velocity, which is limited; the velocity goes into the
    /// position, which is wrapped onto the torus; the acceleration is spent.
    pub open spec fn after_normal(&self, width: Fixed, height: Fixed, day_phase: Fixed) -> Boid {
        let velocity = self.velocity.add(self.acceleration).limit(self.speed_limit(day_phase));
        Boid {
            energy: self.energy_after(day_phase),
            fatigue: self.fatigue_after(day_phase),
            velocity,
            position: wrap_position(self.position.add(velocity), width, height),
            acceleration: Vec2::zero(),
            ..*self
        }
    }

    /// The boid in the state in which it goes through a tick: collapsed if it
    /// is in the normal state and exhausted, else as it is.
    pub open spec fn settled(&self) -> Boid {
        if self.state == BoidState::Normal && self.exhausted() {
            self.collapsed()
        } else {
            *self
        }
    }

    /// The boid after a tick, whether it lives on, and the generator after it.
    /// An exhausted boid in the normal state collapses first. The boid ages by
    /// one tick and dies past its life span. Otherwise its state decides what
    /// happens, and it lives on while it has energy left.
    pub open spec fn updated(&self, width: Fixed, height: Fixed, day_phase: Fixed, rng: Rng) -> (
        Boid,
        bool,
        Rng,
    ) {
        let aged = self.settled().aged();
        if aged.past_age() {
            (aged, false, rng)
        } else {
            let (next, rng_after) = match aged.state {
                BoidState::Fishing => (aged.after_fishing(), rng),
                BoidState::Perching => aged.after_perching(day_phase, rng),
                BoidState::Collapsed => (aged.after_collapse(), rng),
                BoidState::Normal => (aged.after_normal(width, height, day_phase), rng),
            };
            (next, next.energy.raw > 0, rng_after)
        }
    }

    fn fish_on(&mut self)
        ensures
            *final(self) == old(self).after_fishing(),
    {
        if self.fish_timer > 0 {
            self.fish_timer = self.fish_timer - 1;
        }
        if self.fish_timer == 0 {
            self.state = BoidState::Normal;
        }
    }

    fn perch_on(&mut self, day_phase: Fixed, rng: &mut Rng)
        ensures
            (*final(self), *final(rng)) == old(self).after_perching(day_phase, *old(rng)),
    {
        self.fatigue = self.fatigue.sub(Fixed::from_raw(800_000)).max(Fixed::zero());
        self.energy = self.energy.sub(Fixed::from_raw(3_000).mul(self.energy_drain));
        if (day_phase.raw > 500_000 && self.fatigue.raw < 20_000_000) || self.fear.raw > 500_000 {
            self.state = BoidState::Normal;
            let angle = rng.next_unit().mul(Fixed::from_raw(FULL_TURN));
            self.velocity = Vec2::from_angle(angle, Fixed::from_raw(2_000_000));
        }
    }

    fn lie_on(&mut self)
        ensures
            *final(self) == old(self).after_collapse(),
    {
        if self.collapse_timer > 0 {
            self.collapse_timer = self.collapse_timer - 1;
        }
        if self.collapse_timer == 0 {
            self.state = BoidState::Normal;
            self.fatigue = Fixed::from_raw(50_000_000);
        }
        self.energy = self.energy.sub(Fixed::from_raw(10_000).mul(self.energy_drain));
    }

    fn metabolize(&mut self, day_phase: Fixed)
        ensures
            *final(self) == (Boid {
                energy: old(self).energy_after(day_phase),
                fatigue: old(self).fatigue_after(day_phase),
                ..*old(self)
            }),
    {
        let night = self.mutations.has(Mutations::NOCTURNAL) && day_phase.raw < 400_000;
        let afraid = self.fear.raw > 0;
        let mut energy = self.energy.sub(
            Fixed::from_raw(12_000).add(self.hunger.mul(Fixed::from_raw(5_000))).mul(
                self.energy_drain,
            ),
        );
        let mut fatigue = self.fatigue.add(
            Fixed::from_raw(25_000).sub(self.laziness.mul(Fixed::from_raw(10_000))).mul(
                self.fatigue_resistance,
            ),
        );
        if afraid {
            energy = energy.sub(Fixed::from_raw(40_000).mul(self.energy_drain));
            fatigue = fatigue.add(Fixed::from_raw(40_000).mul(self.fatigue_resistance));
        }
        if night {
            energy = energy.add(Fixed::from_raw(5_000));
            fatigue = fatigue.sub(Fixed::from_raw(10_000));
        }
        self.energy = energy;
        self.fatigue = fatigue;
    }

    fn speed_limit_now(&self, day_phase: Fixed) -> (limit: Fixed)
        ensures
            limit == self.speed_limit(day_phase),
    {
        let age_slow = Fixed::one().sub(
            Fixed::from_int(self.age as i64).div(Fixed::from_int(self.max_age as i64)).mul(
                Fixed::from_raw(500_000),
            ),
        ).max(Fixed::from_raw(500_000));
        let pace = Fixed::from_raw(600_000).add(day_phase.mul(Fixed::from_raw(400_000))).mul(
            age_slow,
        ).mul(self.speed_mult);
        let bonus = if self.mutations.has(Mutations::NOCTURNAL) && day_phase.raw < 400_000 {
            Fixed::from_raw(1_300_000)
        } else {
            Fixed::one()
        };
        Fixed::from_raw(MAX_SPEED).mul(pace).mul(
            Fixed::one().add(self.fear.mul(Fixed::from_raw(500_000))),
        ).mul(bonus)
    }

    fn move_on(&mut self, width: Fixed, height: Fixed, day_phase: Fixed)
        ensures
            *final(self) == old(self).after_normal(width, height, day_phase),
            width.raw > 0 && height.raw > 0 ==> in_bounds(final(self).position, width, height),
    {
        let limit = self.speed_limit_now(day_phase);
        let velocity = self.velocity.add(self.acceleration).limit(limit);
        let moved = self.position.add(velocity);
        self.metabolize(day_phase);
        self.velocity = velocity;
        self.position = Vec2::new(wrapped(moved.x, width), wrapped(moved.y, height));
        self.acceleration = Vec2::zero();
    }

    /// Advances the boid by one tick on a torus of the given size and says
    /// whether it lives on. An exhausted boid in the normal state collapses and
    /// is at rest from then on. A boid that moves ends on the torus; one that
    /// does not move stays where it was.
    pub fn update(&mut self, width: Fixed, height: Fixed, day_phase: Fixed, rng: &mut Rng) -> (alive:
        bool)
        ensures
            (*final(self), alive, *final(rng)) == old(self).updated(
                width,
                height,
                day_phase,
                *old(rng),
            ),
            alive ==> final(self).energy.raw > 0,
            old(self).derived_from_mutations() ==> final(self).derived_from_mutations(),
            old(self).well_formed() ==> final(self).well_formed(),
            old(self).state == BoidState::Normal && old(self).exhausted() ==> final(self).state
                == BoidState::Collapsed && final(self).velocity == Vec2::zero(),
            width.raw > 0 && height.raw > 0 && (in_bounds(old(self).position, width, height) || (
            old(self).state == BoidState::Normal && !old(self).exhausted() && alive)) ==> in_bounds(
                final(self).position,
                width,
                height,
            ),
    {
        if self.state == BoidState::Normal && self.fatigue.raw > 150_000_000 {
            self.collapse();
        }
        if self.age < u32::MAX {
            self.age = self.age + 1;
        }
        if self.age > self.max_age && !self.mutations.has(Mutations::IMMORTAL) {
            return false;
        }
        match self.state {
            BoidState::Fishing => {
                self.fish_on();
            },
            BoidState::Perching => {
                self.perch_on(day_phase, rng);
            },
            BoidState::Collapsed => {
                self.lie_on();
            },
            BoidState::Normal => {
                self.move_on(width, height, day_phase);
            },
        }
        self.energy.raw > 0
    }
}

/// A boid that was on the torus, or that moved in this tick, is on the torus
/// after its update. Only a boid in the normal state that is not exhausted
/// moves.
pub proof fn lemma_updated_on_torus(b: Boid, width: Fixed, height: Fixed, day_phase: Fixed, rng: Rng)
    requires
        width.raw > 0,
        height.raw > 0,
        in_bounds(b.position, width, height) || (b.state == BoidState::Normal && !b.exhausted()
            && b.updated(width, height, day_phase, rng).1),
    ensures
        in_bounds(b.updated(width, height, day_phase, rng).0.position, width, height),
{
    let aged = b.settled().aged();
    if !aged.past_age() && aged.state == BoidState::Normal {
        let velocity = aged.velocity.add(aged.acceleration).limit(aged.speed_limit(day_phase));
        let moved = aged.position.add(velocity);
        lemma_wrap_coord_range(moved.x, width);
        lemma_wrap_coord_range(moved.y, height);
    }
}

/// Precedence among the mutations. Giant decides the size whatever else is
/// set. The stomachs decide the capacity whatever the size flags are. The speed
/// factors of giant and fat compose.
pub proof fn lemma_mutation_precedence(m: Mutations)
    ensures
        m.has(Mutations::GIANT) ==> size_mult_of(m) == Fixed::from_raw(1_500_000),
        !m.has(Mutations::GIANT) && m.has(Mutations::TINY) ==> size_mult_of(m) == Fixed::from_raw(
            600_000,
        ),
        m.has(Mutations::BIG_STOMACH) ==> max_energy_of(m) == Fixed::from_raw(200_000_000),
        !m.has(Mutations::BIG_STOMACH) && m.has(Mutations::SMALL_STOMACH) ==> max_energy_of(m)
            == Fixed::from_raw(50_000_000),
        m.has(Mutations::GIANT) && m.has(Mutations::FAT) && !m.has(Mutations::SPEEDY) && !m.has(
            Mutations::TINY,
        ) && !m.has(Mutations::FLIGHTLESS) && !m.has(Mutations::MECHANICAL) ==> speed_mult_of(m)
            == Fixed::from_raw(595_000),
{
    lemma_mul_exact(Fixed::one(), Fixed::from_raw(850_000), 850_000);
    lemma_mul_exact(Fixed::from_raw(850_000), Fixed::from_raw(700_000), 595_000);
}

/// A tick keeps a well-formed boid well formed.
pub proof fn lemma_updated_well_formed(b: Boid, width: Fixed, height: Fixed, day_phase: Fixed, rng: Rng)
    requires
        b.well_formed(),
    ensures
        b.updated(width, height, day_phase, rng).0.well_formed(),
{
}

/// A boid that moves keeps to its speed limit: after the move, neither
/// coordinate of its velocity exceeds the limit in magnitude.
pub proof fn lemma_move_keeps_speed_limit(b: Boid, width: Fixed, height: Fixed, day_phase: Fixed)
    ensures
        magnitude(b.after_normal(width, height, day_phase).velocity.x.raw as int) <= magnitude(
            b.speed_limit(day_phase).raw as int,
        ),
        magnitude(b.after_normal(width, height, day_phase).velocity.y.raw as int) <= magnitude(
            b.speed_limit(day_phase).raw as int,
        ),
{
    lemma_limit_bounds(b.velocity.add(b.acceleration), b.speed_limit(day_phase));
}

} // verus!
