//! The world: it owns every entity and advances them all by one tick at a
//! time.
use crate::boid::{
    in_bounds, lemma_updated_on_torus, lemma_updated_well_formed, tally_neighbours, Boid,
    BoidState,
};
use crate::bug::Bug;
use crate::feeding::{
    bugs_after_spawn, bugs_left, bugs_updated, cull_bugs, cull_food, eat_bugs, food_after_spawn,
    food_left, forage_all, graze_all, lemma_forage_all_keeps_bodies, lemma_forage_all_lengths,
    lemma_graze_all_keeps_bodies, lemma_graze_all_lengths, same_body, season_index, season_of,
    seek_food, spawn_bug, spawn_food, update_bugs, Food,
};
use crate::fixed::Fixed;
use crate::flocking::{
    absorb, absorbed, cohesion_radius_sq, cohesion_reach, empty_tally, lemma_fear_in_unit,
    steering, steering_of, BoidCache, Tally,
};
use crate::hunting::{
    collect_prey, hunts, lemma_each_caught_boid_leaves_once, lemma_removal_keeps_property,
    lemma_removal_lengths_agree, marked, predators_updated, prey_records, remove_caught,
    removed_down_to, run_hunts, update_predators,
};
use crate::predator::Predator;
use crate::rng::Rng;
use crate::spatial::{
    cell_coord, cell_of, empty_grid, filed, lemma_query_finds_close_entities, window, Grid,
    SpatialHash,
};
use crate::vector::Vec2;
use vstd::prelude::*;

verus! {

/// The side of a cell of a new world's spatial index, in raw units.
pub const CELL_SIZE: i64 = 50_000_000;

/// The seed of a world made without one.
pub const DEFAULT_SEED: u32 = 12345;

/// Everything there is, and the clocks.
pub struct World {
    /// The boids alive. An index into it holds only until the next removal.
    pub boids: Vec<Boid>,
    /// The predators alive.
    pub predators: Vec<Predator>,
    /// The bugs alive.
    pub bugs: Vec<Bug>,
    /// The obstacles, each a point `(x, y)`.
    pub obstacles: Vec<(Fixed, Fixed)>,
    /// The shelters, each a circle `(x, y, radius)`.
    pub shelters: Vec<(Fixed, Fixed, Fixed)>,
    /// The food sources, each `(x, y, amount left)`.
    pub food_sources: Vec<Food>,
    /// The extent of the torus along x.
    pub width: Fixed,
    /// The extent of the torus along y.
    pub height: Fixed,
    /// The tick counter: 16 for each tick.
    pub time: u32,
    /// The day clock, in radians: 0.0015 for each tick.
    pub day_time: Fixed,
    /// The season clock, in years: 0.0002 for each tick.
    pub season_time: Fixed,
    /// The source of every random draw in the world.
    pub rng: Rng,
    /// The pack number of the next predator added.
    pub next_pack_id: u32,
    /// The spatial index of the boids as they stood at the start of the last
    /// tick.
    pub spatial_hash: SpatialHash,
    /// Scratch: the candidates of the last neighbour query.
    pub nearby_buffer: Vec<usize>,
    /// Scratch: the boids as they stood at the start of the last tick.
    pub boid_cache: Vec<BoidCache>,
    /// Scratch: for each boid alive in the last tick, its index at the start of
    /// that tick.
    pub origins: Vec<usize>,
}

/// The state of a world: all of it but the scratch buffers, which hold nothing
/// between ticks that a tick relies on.
pub struct WorldView {
    pub boids: Seq<Boid>,
    pub predators: Seq<Predator>,
    pub bugs: Seq<Bug>,
    pub obstacles: Seq<(Fixed, Fixed)>,
    pub shelters: Seq<(Fixed, Fixed, Fixed)>,
    pub food_sources: Seq<Food>,
    pub width: Fixed,
    pub height: Fixed,
    pub time: u32,
    pub day_time: Fixed,
    pub season_time: Fixed,
    pub rng: Rng,
    pub next_pack_id: u32,
    pub cell_size: Fixed,
}

impl View for World {
    type V = WorldView;

    open spec fn view(&self) -> WorldView {
        WorldView {
            boids: self.boids@,
            predators: self.predators@,
            bugs: self.bugs@,
            obstacles: self.obstacles@,
            shelters: self.shelters@,
            food_sources: self.food_sources@,
            width: self.width,
            height: self.height,
            time: self.time,
            day_time: self.day_time,
            season_time: self.season_time,
            rng: self.rng,
            next_pack_id: self.next_pack_id,
            cell_size: self.spatial_hash.size(),
        }
    }
}

/// The share of the first species among `count` boids: 55 in 100, rounded down.
pub open spec fn first_share(count: u32) -> u32 {
    ((count * 55) / 100) as u32
}

/// `count` boids of one species scattered over the world above the bottom 120
/// units, and the generator after them. Each takes two draws for its place and
/// then those of `Boid::spawned`.
pub open spec fn scattered(count: nat, species: u8, width: Fixed, height: Fixed, rng: Rng) -> (
    Seq<Boid>,
    Rng,
)
    decreases count,
{
    if count == 0 {
        (Seq::empty(), rng)
    } else {
        let (before, r) = scattered((count - 1) as nat, species, width, height, rng);
        let r1 = r.advanced();
        let x = r.peek().mul(width);
        let y = r1.peek().mul(height.sub(Fixed::from_raw(120_000_000)));
        let (boid, after) = Boid::spawned(x, y, species, false, r1.advanced());
        (before.push(boid), after)
    }
}

/// The shelters of a new world: two circles of radius 50, 80 units in from the
/// left and right edges, 100 units above the bottom.
pub open spec fn first_shelters(width: Fixed, height: Fixed) -> Seq<(Fixed, Fixed, Fixed)> {
    seq![
        (
            Fixed::from_raw(80_000_000),
            height.sub(Fixed::from_raw(100_000_000)),
            Fixed::from_raw(50_000_000),
        ),
        (
            width.sub(Fixed::from_raw(80_000_000)),
            height.sub(Fixed::from_raw(100_000_000)),
            Fixed::from_raw(50_000_000),
        ),
    ]
}

/// The world that `with_seed` makes: its two shelters, and `start_boids` boids,
/// the first share of species 0 and the rest of species 1, scattered with the
/// generator that starts from `seed`.
pub open spec fn first_world(width: Fixed, height: Fixed, start_boids: u32, seed: u32) -> WorldView {
    let n0 = first_share(start_boids);
    let (s0, r0) = scattered(n0 as nat, 0, width, height, Rng { seed });
    let (s1, r1) = scattered((start_boids - n0) as nat, 1, width, height, r0);
    WorldView {
        boids: s0 + s1,
        predators: Seq::empty(),
        bugs: Seq::empty(),
        obstacles: Seq::empty(),
        shelters: first_shelters(width, height),
        food_sources: Seq::empty(),
        width,
        height,
        time: 0,
        day_time: Fixed::zero(),
        season_time: Fixed::zero(),
        rng: r1,
        next_pack_id: 0,
        cell_size: Fixed::from_raw(CELL_SIZE),
    }
}

/// Appends `count` scattered boids of one species.
fn scatter(boids: &mut Vec<Boid>, count: u32, species: u8, width: Fixed, height: Fixed, rng: &mut Rng)
    ensures
        final(boids)@ == old(boids)@ + scattered(count as nat, species, width, height, *old(rng)).0,
        *final(rng) == scattered(count as nat, species, width, height, *old(rng)).1,
{
    let mut i: u32 = 0;
    assert(boids@ =~= old(boids)@ + Seq::<Boid>::empty());
    while i < count
        invariant
            i <= count,
            boids@ == old(boids)@ + scattered(i as nat, species, width, height, *old(rng)).0,
            *rng == scattered(i as nat, species, width, height, *old(rng)).1,
        decreases count - i,
    {
        let ghost before = scattered(i as nat, species, width, height, *old(rng)).0;
        let x = rng.next_unit().mul(width);
        let y = rng.next_unit().mul(height.sub(Fixed::from_raw(120_000_000)));
        let boid = Boid::new(x, y, species, false, rng);
        boids.push(boid);
        assert(boids@ =~= old(boids)@ + before.push(boid));
        i = i + 1;
    }
}

/// The state of a boid as a number, for render records.
pub open spec fn state_number(state: BoidState) -> Fixed {
    Fixed::from_int(state.code() as i64)
}

/// The render record of a boid: x, y, vx, vy, hue, energy, capacity, size
/// multiplier, mutation mask, fear, state number.
pub open spec fn boid_record(b: Boid) -> Seq<Fixed> {
    seq![
        b.position.x,
        b.position.y,
        b.velocity.x,
        b.velocity.y,
        b.hue,
        b.energy,
        b.max_energy,
        b.size_mult,
        Fixed::from_int(b.mutations@ as i64),
        b.fear,
        state_number(b.state),
    ]
}

/// The render records of the first `n` boids, one after the other.
pub open spec fn boid_records(boids: Seq<Boid>, n: nat) -> Seq<Fixed>
    decreases n,
{
    if n == 0 {
        Seq::empty()
    } else {
        boid_records(boids, (n - 1) as nat) + boid_record(boids[n - 1])
    }
}

/// The render record of a predator: x, y, vx, vy, energy, 1 for a leader and 0
/// for any other, generation.
pub open spec fn predator_record(p: Predator) -> Seq<Fixed> {
    seq![
        p.position.x,
        p.position.y,
        p.velocity.x,
        p.velocity.y,
        p.energy,
        if p.is_leader {
            Fixed::one()
        } else {
            Fixed::zero()
        },
        Fixed::from_int(p.generation as i64),
    ]
}

/// The render records of the first `n` predators, one after the other.
pub open spec fn predator_records(predators: Seq<Predator>, n: nat) -> Seq<Fixed>
    decreases n,
{
    if n == 0 {
        Seq::empty()
    } else {
        predator_records(predators, (n - 1) as nat) + predator_record(predators[n - 1])
    }
}

/// The render record of a bug: x, y, hue, size.
pub open spec fn bug_record(b: Bug) -> Seq<Fixed> {
    seq![b.position.x, b.position.y, b.hue, b.size]
}

/// The render records of the first `n` bugs, one after the other.
pub open spec fn bug_records(bugs: Seq<Bug>, n: nat) -> Seq<Fixed>
    decreases n,
{
    if n == 0 {
        Seq::empty()
    } else {
        bug_records(bugs, (n - 1) as nat) + bug_record(bugs[n - 1])
    }
}

/// The first `n` obstacles as x, y, one after the other.
pub open spec fn obstacle_records(obstacles: Seq<(Fixed, Fixed)>, n: nat) -> Seq<Fixed>
    decreases n,
{
    if n == 0 {
        Seq::empty()
    } else {
        obstacle_records(obstacles, (n - 1) as nat) + seq![obstacles[n - 1].0, obstacles[n - 1].1]
    }
}

/// The first `n` food sources as x, y, amount left, one after the other.
pub open spec fn food_records(food: Seq<Food>, n: nat) -> Seq<Fixed>
    decreases n,
{
    if n == 0 {
        Seq::empty()
    } else {
        food_records(food, (n - 1) as nat) + seq![food[n - 1].0, food[n - 1].1, food[n - 1].2]
    }
}

/// A count as it is reported: itself, or the largest 32-bit number where it is
/// larger.
pub open spec fn reported(count: nat) -> u32 {
    if count > u32::MAX {
        u32::MAX
    } else {
        count as u32
    }
}

/// The phase of the day, from 0 at midnight to 1 at noon, at the given day
/// time: `(sin(day_time) + 1) / 2`.
pub open spec fn day_phase_at(day_time: Fixed) -> Fixed {
    day_time.sin().add(Fixed::one()).div(Fixed::from_raw(2_000_000))
}

/// The place of the `i`-th of `count` boids added in a row around a point,
/// given two draws: 5 units apart along x about the middle, jittered by up to
/// 10 units each way in x and in y.
pub open spec fn row_offset(i: u32, count: u32, jitter_x: Fixed, jitter_y: Fixed) -> (Fixed, Fixed) {
    let along = Fixed::from_int(i as i64).sub(
        Fixed::from_int(count as i64).div(Fixed::from_raw(2_000_000)),
    ).mul(Fixed::from_raw(5_000_000));
    (
        along.add(jitter_x.sub(Fixed::from_raw(500_000)).mul(Fixed::from_raw(20_000_000))),
        jitter_y.sub(Fixed::from_raw(500_000)).mul(Fixed::from_raw(20_000_000)),
    )
}

/// The boids after the first `n` of a row of `count` have been added around
/// `(x, y)`, and the generator after them. Each takes three draws, for its
/// jitter in x and y and its species, and then those of `Boid::spawned`.
pub open spec fn row_added(boids: Seq<Boid>, x: Fixed, y: Fixed, count: u32, n: nat, rng: Rng) -> (
    Seq<Boid>,
    Rng,
)
    decreases n,
{
    if n == 0 {
        (boids, rng)
    } else {
        let (before, r) = row_added(boids, x, y, count, (n - 1) as nat, rng);
        let r1 = r.advanced();
        let r2 = r1.advanced();
        let offset = row_offset((n - 1) as u32, count, r.peek(), r1.peek());
        let species: u8 = if r2.peek().raw > 500_000 {
            0
        } else {
            1
        };
        let (boid, after) = Boid::spawned(
            x.add(offset.0),
            y.add(offset.1),
            species,
            false,
            r2.advanced(),
        );
        (before.push(boid), after)
    }
}

impl World {
    /// A world of the given size with `start_boids` boids, from the default
    /// seed.
    pub fn new(width: Fixed, height: Fixed, start_boids: u32) -> (world: World)
        ensures
            world@ == first_world(width, height, start_boids, DEFAULT_SEED),
    {
        World::with_seed(width, height, start_boids, DEFAULT_SEED)
    }

    /// A world of the given size with `start_boids` boids: 55 in 100 of species
    /// 0, the rest of species 1, scattered above the shelters' margin with a
    /// generator that starts from `seed`.
    pub fn with_seed(width: Fixed, height: Fixed, start_boids: u32, seed: u32) -> (world: World)
        ensures
            world@ == first_world(width, height, start_boids, seed),
    {
        let mut shelters: Vec<(Fixed, Fixed, Fixed)> = Vec::new();
        shelters.push(
            (
                Fixed::from_raw(80_000_000),
                height.sub(Fixed::from_raw(100_000_000)),
                Fixed::from_raw(50_000_000),
            ),
        );
        shelters.push(
            (
                width.sub(Fixed::from_raw(80_000_000)),
                height.sub(Fixed::from_raw(100_000_000)),
                Fixed::from_raw(50_000_000),
            ),
        );
        assert(shelters@ =~= first_shelters(width, height));
        let num_s0: u32 = ((start_boids as u64 * 55) / 100) as u32;
        let num_s1: u32 = start_boids - num_s0;
        let mut rng = Rng::new(seed);
        let mut boids: Vec<Boid> = Vec::new();
        scatter(&mut boids, num_s0, 0, width, height, &mut rng);
        scatter(&mut boids, num_s1, 1, width, height, &mut rng);
        let world = World {
            boids,
            predators: Vec::new(),
            bugs: Vec::new(),
            obstacles: Vec::new(),
            shelters,
            food_sources: Vec::new(),
            width,
            height,
            time: 0,
            day_time: Fixed::zero(),
            season_time: Fixed::zero(),
            rng,
            next_pack_id: 0,
            spatial_hash: SpatialHash::new(Fixed::from_raw(CELL_SIZE)),
            nearby_buffer: Vec::new(),
            boid_cache: Vec::new(),
            origins: Vec::new(),
        };
        assert(world@.boids =~= first_world(width, height, start_boids, seed).boids);
        assert(world@.predators =~= Seq::<Predator>::empty());
        world
    }

    /// Makes the world anew, with a new size and new boids; nothing of the old
    /// one is left.
    pub fn reset(&mut self, width: Fixed, height: Fixed, start_boids: u32)
        ensures
            final(self)@ == first_world(width, height, start_boids, DEFAULT_SEED),
    {
        *self = World::new(width, height, start_boids);
    }

    /// Adds a newborn boid of the given species at `(x, y)`, as it is: a place
    /// outside the world is not wrapped.
    pub fn add_boid(&mut self, x: Fixed, y: Fixed, species: u8)
        ensures
            final(self)@ == (WorldView {
                boids: old(self)@.boids.push(Boid::spawned(x, y, species, false, old(self).rng).0),
                rng: Boid::spawned(x, y, species, false, old(self).rng).1,
                ..old(self)@
            }),
    {
        let boid = Boid::new(x, y, species, false, &mut self.rng);
        self.boids.push(boid);
    }

    /// Adds `count` boids in a row around `(x, y)`, each with a random jitter
    /// and a random species.
    pub fn add_boids(&mut self, x: Fixed, y: Fixed, count: u32)
        ensures
            final(self)@ == (WorldView {
                boids: row_added(old(self)@.boids, x, y, count, count as nat, old(self).rng).0,
                rng: row_added(old(self)@.boids, x, y, count, count as nat, old(self).rng).1,
                ..old(self)@
            }),
    {
        let mut i: u32 = 0;
        while i < count
            invariant
                i <= count,
                self@ == (WorldView {
                    boids: row_added(old(self)@.boids, x, y, count, i as nat, old(self).rng).0,
                    rng: row_added(old(self)@.boids, x, y, count, i as nat, old(self).rng).1,
                    ..old(self)@
                }),
            decreases count - i,
        {
            let jitter_x = self.rng.next_unit();
            let jitter_y = self.rng.next_unit();
            let along = Fixed::from_int(i as i64).sub(
                Fixed::from_int(count as i64).div(Fixed::from_raw(2_000_000)),
            ).mul(Fixed::from_raw(5_000_000));
            let ox = along.add(
                jitter_x.sub(Fixed::from_raw(500_000)).mul(Fixed::from_raw(20_000_000)),
            );
            let oy = jitter_y.sub(Fixed::from_raw(500_000)).mul(Fixed::from_raw(20_000_000));
            let species: u8 = if self.rng.next_unit().raw > 500_000 {
                0
            } else {
                1
            };
            let boid = Boid::new(x.add(ox), y.add(oy), species, false, &mut self.rng);
            self.boids.push(boid);
            i = i + 1;
        }
    }

    /// Adds a predator of generation 0 at `(x, y)`, in a pack of its own.
    pub fn add_predator(&mut self, x: Fixed, y: Fixed)
        ensures
            final(self)@ == (WorldView {
                predators: old(self)@.predators.push(
                    Predator::spawned(x, y, old(self).next_pack_id, 0, old(self).rng).0,
                ),
                rng: old(self).rng.advanced(),
                next_pack_id: crate::boid::next_count(old(self).next_pack_id),
                ..old(self)@
            }),
    {
        let predator = Predator::new(x, y, self.next_pack_id, 0, &mut self.rng);
        self.predators.push(predator);
        if self.next_pack_id < u32::MAX {
            self.next_pack_id = self.next_pack_id + 1;
        }
    }

    /// Adds an obstacle at `(x, y)`.
    pub fn add_obstacle(&mut self, x: Fixed, y: Fixed)
        ensures
            final(self)@ == (WorldView {
                obstacles: old(self)@.obstacles.push((x, y)),
                ..old(self)@
            }),
    {
        self.obstacles.push((x, y));
    }

    /// Adds a food source of 100 at `(x, y)`.
    pub fn add_food(&mut self, x: Fixed, y: Fixed)
        ensures
            final(self)@ == (WorldView {
                food_sources: old(self)@.food_sources.push((x, y, Fixed::from_raw(100_000_000))),
                ..old(self)@
            }),
    {
        self.food_sources.push((x, y, Fixed::from_raw(100_000_000)));
    }

    /// The numbers of boids, predators and bugs, and the phase of the day.
    pub fn get_stats(&self) -> (stats: (u32, u32, u32, Fixed))
        ensures
            stats == (
                reported(self@.boids.len()),
                reported(self@.predators.len()),
                reported(self@.bugs.len()),
                day_phase_at(self.day_time),
            ),
    {
        (
            report(self.boids.len()),
            report(self.predators.len()),
            report(self.bugs.len()),
            self.day_time.sin().add(Fixed::one()).div(Fixed::from_raw(2_000_000)),
        )
    }

    /// The render records of the boids, 11 numbers each.
    pub fn get_boid_render_data(&self) -> (data: Vec<Fixed>)
        ensures
            data@ == boid_records(self@.boids, self@.boids.len()),
    {
        let mut data: Vec<Fixed> = Vec::new();
        let mut i: usize = 0;
        while i < self.boids.len()
            invariant
                i <= self.boids.len(),
                data@ == boid_records(self.boids@, i as nat),
            decreases self.boids.len() - i,
        {
            let ghost before = data@;
            let boid = &self.boids[i];
            data.push(boid.position.x);
            data.push(boid.position.y);
            data.push(boid.velocity.x);
            data.push(boid.velocity.y);
            data.push(boid.hue);
            data.push(boid.energy);
            data.push(boid.max_energy);
            data.push(boid.size_mult);
            data.push(Fixed::from_int(boid.mutations.raw() as i64));
            data.push(boid.fear);
            data.push(Fixed::from_int(boid.state.code() as i64));
            assert(data@ =~= before + boid_record(self.boids@[i as int]));
            i = i + 1;
        }
        data
    }

    /// The render records of the predators, 7 numbers each.
    pub fn get_predator_render_data(&self) -> (data: Vec<Fixed>)
        ensures
            data@ == predator_records(self@.predators, self@.predators.len()),
    {
        let mut data: Vec<Fixed> = Vec::new();
        let mut i: usize = 0;
        while i < self.predators.len()
            invariant
                i <= self.predators.len(),
                data@ == predator_records(self.predators@, i as nat),
            decreases self.predators.len() - i,
        {
            let ghost before = data@;
            let pred = &self.predators[i];
            data.push(pred.position.x);
            data.push(pred.position.y);
            data.push(pred.velocity.x);
            data.push(pred.velocity.y);
            data.push(pred.energy);
            data.push(
                if pred.is_leader {
                    Fixed::one()
                } else {
                    Fixed::zero()
                },
            );
            data.push(Fixed::from_int(pred.generation as i64));
            assert(data@ =~= before + predator_record(self.predators@[i as int]));
            i = i + 1;
        }
        data
    }

    /// The render records of the bugs, 4 numbers each.
    pub fn get_bug_render_data(&self) -> (data: Vec<Fixed>)
        ensures
            data@ == bug_records(self@.bugs, self@.bugs.len()),
    {
        let mut data: Vec<Fixed> = Vec::new();
        let mut i: usize = 0;
        while i < self.bugs.len()
            invariant
                i <= self.bugs.len(),
                data@ == bug_records(self.bugs@, i as nat),
            decreases self.bugs.len() - i,
        {
            let ghost before = data@;
            let bug = &self.bugs[i];
            data.push(bug.position.x);
            data.push(bug.position.y);
            data.push(bug.hue);
            data.push(bug.size);
            assert(data@ =~= before + bug_record(self.bugs@[i as int]));
            i = i + 1;
        }
        data
    }

    /// The obstacles as a flat list of x, y.
    pub fn get_obstacle_data(&self) -> (data: Vec<Fixed>)
        ensures
            data@ == obstacle_records(self@.obstacles, self@.obstacles.len()),
    {
        let mut data: Vec<Fixed> = Vec::new();
        let mut i: usize = 0;
        while i < self.obstacles.len()
            invariant
                i <= self.obstacles.len(),
                data@ == obstacle_records(self.obstacles@, i as nat),
            decreases self.obstacles.len() - i,
        {
            let ghost before = data@;
            let o = self.obstacles[i];
            data.push(o.0);
            data.push(o.1);
            assert(data@ =~= before + seq![o.0, o.1]);
            i = i + 1;
        }
        data
    }

    /// The food sources as a flat list of x, y, amount left.
    pub fn get_food_data(&self) -> (data: Vec<Fixed>)
        ensures
            data@ == food_records(self@.food_sources, self@.food_sources.len()),
    {
        let mut data: Vec<Fixed> = Vec::new();
        let mut i: usize = 0;
        while i < self.food_sources.len()
            invariant
                i <= self.food_sources.len(),
                data@ == food_records(self.food_sources@, i as nat),
            decreases self.food_sources.len() - i,
        {
            let ghost before = data@;
            let f = self.food_sources[i];
            data.push(f.0);
            data.push(f.1);
            data.push(f.2);
            assert(data@ =~= before + seq![f.0, f.1, f.2]);
            i = i + 1;
        }
        data
    }
}

/// A count as it is reported.
fn report(count: usize) -> (n: u32)
    ensures
        n == reported(count as nat),
{
    if count > 4_294_967_295usize {
        u32::MAX
    } else {
        count as u32
    }
}

/// The boids as they show themselves to each other, in their order.
pub open spec fn snapshots(boids: Seq<Boid>) -> Seq<BoidCache> {
    Seq::new(boids.len(), |i: int| boids[i].snapshot())
}

/// The spatial index of the first `n` boids: each filed by its index under the
/// cell of its position, in the order of the boids.
pub open spec fn index_of(boids: Seq<Boid>, n: nat, size: Fixed) -> Grid
    decreases n,
{
    if n == 0 {
        empty_grid()
    } else {
        filed(
            index_of(boids, (n - 1) as nat, size),
            cell_of(boids[n - 1].position.x, boids[n - 1].position.y, size),
            (n - 1) as usize,
        )
    }
}

/// The indices from 0 up to `n`.
pub open spec fn identity(n: nat) -> Seq<usize> {
    Seq::new(n, |i: int| i as usize)
}

/// Where the predators are, in their order.
pub open spec fn positions_of(predators: Seq<Predator>) -> Seq<(Fixed, Fixed)> {
    Seq::new(predators.len(), |i: int| (predators[i].position.x, predators[i].position.y))
}

/// The tally over the first `n` candidates of a boid: each candidate other than
/// the boid itself that the snapshot shows in the normal state is taken in.
pub open spec fn tally_candidates(
    candidates: Seq<usize>,
    n: nat,
    cache: Seq<BoidCache>,
    me_index: usize,
    me: Boid,
    coh_radius_sq: Fixed,
) -> Tally
    decreases n,
{
    if n == 0 {
        empty_tally()
    } else {
        let t = tally_candidates(candidates, (n - 1) as nat, cache, me_index, me, coh_radius_sq);
        let idx = candidates[n - 1];
        if idx == me_index || idx >= cache.len() || cache[idx as int].state != 0 {
            t
        } else {
            absorb(t, me, cache[idx as int], coh_radius_sq)
        }
    }
}

/// The acceleration on a boid and its fear, computed from the snapshot of the
/// boids and from the predators as they stand now. A boid outside the normal
/// state feels no force and keeps its fear.
pub open spec fn flocking_forces(
    me: Boid,
    me_index: usize,
    candidates: Seq<usize>,
    cache: Seq<BoidCache>,
    day_phase: Fixed,
    predators: Seq<(Fixed, Fixed)>,
    obstacles: Seq<(Fixed, Fixed)>,
    shelters: Seq<(Fixed, Fixed, Fixed)>,
) -> (Vec2, Fixed) {
    if me.state != BoidState::Normal {
        (Vec2::zero(), me.fear)
    } else {
        steering(
            me,
            tally_candidates(
                candidates,
                candidates.len(),
                cache,
                me_index,
                me,
                cohesion_radius_sq(me.sociability, day_phase),
            ),
            predators,
            obstacles,
            shelters,
        )
    }
}

/// The pointer that stirs the boids: where it is, what it does (0 nothing, 1
/// attract, anything else repel), and how strongly.
#[derive(Clone, Copy, Debug)]
pub struct Cursor {
    /// Where the cursor is along x.
    pub x: Fixed,
    /// Where the cursor is along y.
    pub y: Fixed,
    /// What it does: 0 nothing, 1 attract, anything else repel.
    pub mode: i32,
    /// How strongly it acts.
    pub strength: Fixed,
}

/// Whether the cursor moves a boid at `pos`: it is active and less than 100
/// units away.
pub open spec fn cursor_reaches(pos: Vec2, cursor: Cursor) -> bool {
    cursor.mode != 0 && Vec2::new(cursor.x, cursor.y).dist_sq(pos).raw < 10_000_000_000
}

/// The force of the cursor on a boid at `pos`: toward the cursor, or away from
/// it when it repels, of magnitude `0.3 strength (1 - distance / 100)`.
pub open spec fn cursor_force(pos: Vec2, cursor: Cursor) -> Vec2 {
    let toward = Vec2::new(cursor.x, cursor.y).sub(pos);
    let d = toward.mag();
    let heading = if cursor.mode == 1 {
        toward
    } else {
        Vec2::new(toward.x.neg(), toward.y.neg())
    };
    let force = Fixed::from_raw(300_000).mul(cursor.strength).mul(
        Fixed::one().sub(d.div(Fixed::from_raw(100_000_000))),
    );
    heading.normalize().mult(force)
}

/// A boid with the cursor's force added to its acceleration, where the cursor
/// reaches it.
pub open spec fn with_cursor(boid: Boid, cursor: Cursor) -> Boid {
    if cursor_reaches(boid.position, cursor) {
        Boid { acceleration: boid.acceleration.add(cursor_force(boid.position, cursor)), ..boid }
    } else {
        boid
    }
}

/// What surrounds the boids while they are steered: the spatial index and the
/// snapshot from the start of the tick, the time of day, and the predators,
/// obstacles and shelters as they stand.
pub struct Surroundings {
    pub grid: Grid,
    pub cell_size: Fixed,
    pub cache: Seq<BoidCache>,
    pub day_phase: Fixed,
    pub predators: Seq<(Fixed, Fixed)>,
    pub obstacles: Seq<(Fixed, Fixed)>,
    pub shelters: Seq<(Fixed, Fixed, Fixed)>,
}

/// The candidates of a boid: what the index returns for radius 2 around it.
pub open spec fn candidates_of(boid: Boid, around: Surroundings) -> Seq<usize> {
    window(
        around.grid,
        cell_coord(boid.position.x, around.cell_size),
        cell_coord(boid.position.y, around.cell_size),
        2,
    )
}

/// A boid after the steering phase of a tick. `origin` is its index in the
/// snapshot. A normal boid that is exhausted collapses; any other normal boid
/// takes the flocking forces and the fear that go with them. Then the cursor
/// acts, whatever the state.
pub open spec fn world_step(boid: Boid, origin: usize, around: Surroundings, cursor: Cursor) -> Boid {
    let after = if boid.state != BoidState::Normal {
        boid
    } else if boid.exhausted() {
        boid.collapsed()
    } else {
        boid.steered(
            flocking_forces(
                boid,
                origin,
                candidates_of(boid, around),
                around.cache,
                around.day_phase,
                around.predators,
                around.obstacles,
                around.shelters,
            ),
        )
    };
    with_cursor(after, cursor)
}

/// The boids after the steering phase: each one stepped on its own, from the
/// same surroundings.
pub open spec fn steered_all(
    boids: Seq<Boid>,
    origins: Seq<usize>,
    around: Surroundings,
    cursor: Cursor,
) -> Seq<Boid> {
    Seq::new(boids.len(), |i: int| world_step(boids[i], origins[i], around, cursor))
}

/// The first `n` boids after a tick each, less those that died, and the
/// generator after them.
pub open spec fn boids_updated(
    boids: Seq<Boid>,
    n: nat,
    width: Fixed,
    height: Fixed,
    day_phase: Fixed,
    rng: Rng,
) -> (Seq<Boid>, Rng)
    decreases n,
{
    if n == 0 {
        (Seq::empty(), rng)
    } else {
        let (kept, r) = boids_updated(boids, (n - 1) as nat, width, height, day_phase, rng);
        let (boid, alive, after) = boids[n - 1].updated(width, height, day_phase, r);
        if alive {
            (kept.push(boid), after)
        } else {
            (kept, after)
        }
    }
}

/// The tick counter after a tick: 16 more, up to the largest it can hold.
pub open spec fn time_after(time: u32) -> u32 {
    if time > u32::MAX - 16 {
        u32::MAX
    } else {
        (time + 16) as u32
    }
}

/// The phase of the day in a world: that of its day clock.
pub open spec fn day_phase_of(w: WorldView) -> Fixed {
    day_phase_at(w.day_time)
}

/// The world with its clocks advanced by a tick: 16 on the tick counter, 0.0015
/// on the day clock, 0.0002 on the season clock.
pub open spec fn with_clocks_advanced(w: WorldView) -> WorldView {
    WorldView {
        time: time_after(w.time),
        day_time: w.day_time.add(Fixed::from_raw(1_500)),
        season_time: w.season_time.add(Fixed::from_raw(200)),
        ..w
    }
}

/// The world after the ambient life of a tick: a bug may appear; the bugs
/// move; food may appear; spent food goes.
pub open spec fn with_ambient_life(w: WorldView) -> WorldView {
    let season = season_index(w.season_time);
    let (bugs1, rng1) = bugs_after_spawn(w.bugs, w.width, w.height, season, w.rng);
    let (bugs2, rng2) = bugs_updated(bugs1, bugs1.len(), w.width, w.height, w.obstacles, rng1);
    let (food1, rng3) = food_after_spawn(
        w.food_sources,
        w.width,
        w.height,
        season,
        day_phase_of(w),
        rng2,
    );
    WorldView { bugs: bugs2, food_sources: food_left(food1, food1.len()), rng: rng3, ..w }
}

/// The indices of the boids caught in the hunts of a tick.
pub open spec fn caught_in(w: WorldView) -> Set<int> {
    hunts(w.predators, w.predators.len(), prey_records(w.boids), w.shelters, day_phase_of(w)).1
}

/// The world after the hunt of a tick: the predators hunt among the boids as
/// they stand; the caught boids are removed, the highest index first; the
/// predators move.
pub open spec fn with_hunt(w: WorldView) -> WorldView {
    let hunters = hunts(
        w.predators,
        w.predators.len(),
        prey_records(w.boids),
        w.shelters,
        day_phase_of(w),
    ).0;
    WorldView {
        boids: removed_down_to(w.boids, caught_in(w), 0),
        predators: predators_updated(hunters, hunters.len(), w.width, w.height, w.obstacles),
        ..w
    }
}

/// For each boid left after the hunt, the index it had before.
pub open spec fn origins_after_hunt(w: WorldView) -> Seq<usize> {
    removed_down_to(identity(w.boids.len()), caught_in(w), 0)
}

/// What surrounds the boids of a tick: the index and the snapshot of the boids
/// as they stood in `start`, before the hunt, and the predators as they stand
/// in `now`, after it.
pub open spec fn surroundings_of(start: WorldView, now: WorldView) -> Surroundings {
    Surroundings {
        grid: index_of(start.boids, start.boids.len(), start.cell_size),
        cell_size: start.cell_size,
        cache: snapshots(start.boids),
        day_phase: day_phase_of(start),
        predators: positions_of(now.predators),
        obstacles: start.obstacles,
        shelters: start.shelters,
    }
}

/// The world with its boids steered.
pub open spec fn with_steering(
    w: WorldView,
    origins: Seq<usize>,
    around: Surroundings,
    cursor: Cursor,
) -> WorldView {
    WorldView { boids: steered_all(w.boids, origins, around, cursor), ..w }
}

/// The world after the meals of a tick: the boids eat bugs, then seek food.
pub open spec fn with_meals(w: WorldView) -> WorldView {
    let (boids1, bugs1) = graze_all(w.boids, w.bugs, w.boids.len());
    let (boids2, food1) = forage_all(boids1, w.food_sources, boids1.len());
    WorldView { boids: boids2, bugs: bugs1, food_sources: food1, ..w }
}

/// The world after the moves of a tick: the boids move, and the dead go; the
/// eaten bugs go.
pub open spec fn with_moves(w: WorldView) -> WorldView {
    let (boids1, rng1) = boids_updated(
        w.boids,
        w.boids.len(),
        w.width,
        w.height,
        day_phase_of(w),
        w.rng,
    );
    WorldView { boids: boids1, bugs: bugs_left(w.bugs, w.bugs.len()), rng: rng1, ..w }
}

/// The world after one tick with the given cursor. In this order: the clocks
/// advance; ambient life goes on; the predators hunt; the boids left are
/// steered, seeing each other as they stood before the hunt and the predators
/// as they stand after it; the boids have their meals; the boids move.
pub open spec fn ticked(w: WorldView, cursor: Cursor) -> WorldView {
    let start = with_ambient_life(with_clocks_advanced(w));
    let hunted = with_hunt(start);
    let steered = with_steering(
        hunted,
        origins_after_hunt(start),
        surroundings_of(start, hunted),
        cursor,
    );
    with_moves(with_meals(steered))
}

/// Files every boid in the index, takes the snapshot, and numbers the boids.
fn rebuild_index(
    boids: &Vec<Boid>,
    grid: &mut SpatialHash,
    cache: &mut Vec<BoidCache>,
    origins: &mut Vec<usize>,
)
    ensures
        final(grid).size() == old(grid).size(),
        final(grid)@ == index_of(boids@, boids@.len(), old(grid).size()),
        final(cache)@ == snapshots(boids@),
        final(origins)@ == identity(boids@.len()),
{
    grid.clear();
    cache.clear();
    origins.clear();
    let mut i: usize = 0;
    while i < boids.len()
        invariant
            i <= boids.len(),
            grid.size() == old(grid).size(),
            grid@ == index_of(boids@, i as nat, grid.size()),
            cache@.len() == i,
            origins@.len() == i,
            forall|j: int| 0 <= j < i ==> cache@[j] == (#[trigger] boids@[j]).snapshot(),
            forall|j: int| 0 <= j < i ==> #[trigger] origins@[j] == j,
        decreases boids.len() - i,
    {
        let boid = &boids[i];
        grid.insert(i, boid.position.x, boid.position.y);
        cache.push(boid.snapshot());
        origins.push(i);
        i = i + 1;
    }
    assert(cache@ =~= snapshots(boids@));
    assert(origins@ =~= identity(boids@.len()));
}

/// Where the predators are.
fn collect_positions(predators: &Vec<Predator>) -> (positions: Vec<(Fixed, Fixed)>)
    ensures
        positions@ == positions_of(predators@),
{
    let mut positions: Vec<(Fixed, Fixed)> = Vec::new();
    let mut i: usize = 0;
    while i < predators.len()
        invariant
            i <= predators.len(),
            positions@.len() == i,
            forall|j: int|
                0 <= j < i ==> positions@[j] == (
                    (#[trigger] predators@[j]).position.x,
                    predators@[j].position.y,
                ),
        decreases predators.len() - i,
    {
        let p = &predators[i];
        positions.push((p.position.x, p.position.y));
        i = i + 1;
    }
    assert(positions@ =~= positions_of(predators@));
    positions
}

/// Adds the cursor's force to a boid within its reach.
fn apply_cursor(boid: &mut Boid, cursor: &Cursor)
    ensures
        *final(boid) == with_cursor(*old(boid), *cursor),
{
    if cursor.mode != 0 {
        let at = Vec2::new(cursor.x, cursor.y);
        let toward = at.sub(boid.position);
        let dsq = toward.mag_sq();
        if dsq.raw < 10_000_000_000 {
            let d = toward.mag();
            let heading = if cursor.mode == 1 {
                toward
            } else {
                Vec2::new(toward.x.neg(), toward.y.neg())
            };
            let force = Fixed::from_raw(300_000).mul(cursor.strength).mul(
                Fixed::one().sub(d.div(Fixed::from_raw(100_000_000))),
            );
            boid.acceleration.add_mut(heading.normalize().mult(force));
        }
    }
}

/// Advances every boid by one tick and drops those that died.
fn update_boids(boids: &mut Vec<Boid>, width: Fixed, height: Fixed, day_phase: Fixed, rng: &mut Rng)
    ensures
        (final(boids)@, *final(rng)) == boids_updated(
            old(boids)@,
            old(boids)@.len(),
            width,
            height,
            day_phase,
            *old(rng),
        ),
{
    let mut kept: Vec<Boid> = Vec::new();
    let mut i: usize = 0;
    while i < boids.len()
        invariant
            i <= boids.len(),
            boids@ == old(boids)@,
            (kept@, *rng) == boids_updated(boids@, i as nat, width, height, day_phase, *old(rng)),
        decreases boids.len() - i,
    {
        let mut boid: Boid = boids[i];
        if boid.update(width, height, day_phase, rng) {
            kept.push(boid);
        }
        i = i + 1;
    }
    *boids = kept;
}

impl World {
    /// The acceleration on the boid `me` and its fear, from the candidates the
    /// index gave for it, looked up in the snapshot `cache`, in which `me`
    /// itself stands at `me_index`.
    pub fn calculate_flocking_forces(
        me: &Boid,
        me_index: usize,
        candidates: &[usize],
        cache: &[BoidCache],
        day_phase: Fixed,
        predator_positions: &[(Fixed, Fixed)],
        obstacles: &[(Fixed, Fixed)],
        shelters: &[(Fixed, Fixed, Fixed)],
    ) -> (result: (Vec2, Fixed))
        ensures
            result == flocking_forces(
                *me,
                me_index,
                candidates@,
                cache@,
                day_phase,
                predator_positions@,
                obstacles@,
                shelters@,
            ),
    {
        if me.state != BoidState::Normal {
            return (Vec2::zero(), me.fear);
        }
        let coh_radius_sq = cohesion_reach(me.sociability, day_phase);
        let mut t = Tally {
            sep: Vec2::zero(),
            ali: Vec2::zero(),
            coh: Vec2::zero(),
            sep_ct: 0,
            ali_ct: 0,
            coh_ct: 0,
        };
        let mut k: usize = 0;
        while k < candidates.len()
            invariant
                k <= candidates.len(),
                t == tally_candidates(candidates@, k as nat, cache@, me_index, *me, coh_radius_sq),
            decreases candidates.len() - k,
        {
            let idx = candidates[k];
            if idx != me_index && idx < cache.len() {
                let other = &cache[idx];
                if other.state == 0 {
                    t = absorbed(t, me, other, coh_radius_sq);
                }
            }
            k = k + 1;
        }
        steering_of(me, &t, predator_positions, obstacles, shelters)
    }
}

/// Steers every boid: collapse or flocking forces, then the cursor.
fn steer_boids(
    boids: &mut Vec<Boid>,
    origins: &Vec<usize>,
    grid: &SpatialHash,
    cache: &Vec<BoidCache>,
    buffer: &mut Vec<usize>,
    day_phase: Fixed,
    positions: &[(Fixed, Fixed)],
    obstacles: &[(Fixed, Fixed)],
    shelters: &[(Fixed, Fixed, Fixed)],
    cursor: &Cursor,
)
    requires
        origins@.len() == old(boids)@.len(),
    ensures
        final(boids)@ == steered_all(
            old(boids)@,
            origins@,
            Surroundings {
                grid: grid@,
                cell_size: grid.size(),
                cache: cache@,
                day_phase,
                predators: positions@,
                obstacles: obstacles@,
                shelters: shelters@,
            },
            *cursor,
        ),
{
    let ghost around = Surroundings {
        grid: grid@,
        cell_size: grid.size(),
        cache: cache@,
        day_phase,
        predators: positions@,
        obstacles: obstacles@,
        shelters: shelters@,
    };
    let count = boids.len();
    let mut i: usize = 0;
    while i < count
        invariant
            i <= count,
            boids@.len() == count,
            origins@.len() == count,
            old(boids)@.len() == count,
            around == (Surroundings {
                grid: grid@,
                cell_size: grid.size(),
                cache: cache@,
                day_phase,
                predators: positions@,
                obstacles: obstacles@,
                shelters: shelters@,
            }),
            forall|j: int|
                0 <= j < i ==> #[trigger] boids@[j] == world_step(
                    old(boids)@[j],
                    origins@[j],
                    around,
                    *cursor,
                ),
            forall|j: int| i <= j < count ==> #[trigger] boids@[j] == old(boids)@[j],
        decreases count - i,
    {
        let mut boid: Boid = boids[i];
        if boid.state == BoidState::Normal {
            if boid.fatigue.raw > 150_000_000 {
                boid.collapse();
            } else {
                grid.get_nearby_into(boid.position.x, boid.position.y, 2, buffer);
                let result = World::calculate_flocking_forces(
                    &boid,
                    origins[i],
                    buffer.as_slice(),
                    cache.as_slice(),
                    day_phase,
                    positions,
                    obstacles,
                    shelters,
                );
                boid.apply_steering(result);
            }
        }
        apply_cursor(&mut boid, cursor);
        boids[i] = boid;
        i = i + 1;
    }
    assert(boids@ =~= steered_all(old(boids)@, origins@, around, *cursor));
}

impl World {
    /// Advances the world by one tick. The cursor at `(cursor_x, cursor_y)`
    /// attracts the boids in mode 1, repels them in any other mode but 0, and
    /// does nothing in mode 0.
    pub fn tick(&mut self, cursor_x: Fixed, cursor_y: Fixed, cursor_mode: i32, cursor_strength: Fixed)
        ensures
            final(self)@ == ticked(
                old(self)@,
                Cursor { x: cursor_x, y: cursor_y, mode: cursor_mode, strength: cursor_strength },
            ),
    {
        let cursor = Cursor { x: cursor_x, y: cursor_y, mode: cursor_mode, strength: cursor_strength };
        self.time = if self.time > u32::MAX - 16 {
            u32::MAX
        } else {
            self.time + 16
        };
        self.day_time = self.day_time.add(Fixed::from_raw(1_500));
        let day_phase = self.day_time.sin().add(Fixed::one()).div(Fixed::from_raw(2_000_000));
        self.season_time = self.season_time.add(Fixed::from_raw(200));
        let season = season_of(self.season_time);

        rebuild_index(&self.boids, &mut self.spatial_hash, &mut self.boid_cache, &mut self.origins);

        spawn_bug(&mut self.bugs, self.width, self.height, season, &mut self.rng);
        update_bugs(
            &mut self.bugs,
            self.width,
            self.height,
            self.obstacles.as_slice(),
            &mut self.rng,
        );
        spawn_food(
            &mut self.food_sources,
            self.width,
            self.height,
            season,
            day_phase,
            &mut self.rng,
        );
        cull_food(&mut self.food_sources);

        let prey = collect_prey(&self.boids);
        let caught = run_hunts(
            &mut self.predators,
            prey.as_slice(),
            self.shelters.as_slice(),
            day_phase,
        );
        proof {
            lemma_removal_lengths_agree(self.boids@, self.origins@, marked(caught@), 0);
        }
        remove_caught(&mut self.boids, &caught);
        remove_caught(&mut self.origins, &caught);
        update_predators(&mut self.predators, self.width, self.height, self.obstacles.as_slice());

        let positions = collect_positions(&self.predators);
        steer_boids(
            &mut self.boids,
            &self.origins,
            &self.spatial_hash,
            &self.boid_cache,
            &mut self.nearby_buffer,
            day_phase,
            positions.as_slice(),
            self.obstacles.as_slice(),
            self.shelters.as_slice(),
            &cursor,
        );

        eat_bugs(&mut self.boids, &mut self.bugs);
        seek_food(&mut self.boids, &mut self.food_sources);
        update_boids(&mut self.boids, self.width, self.height, day_phase, &mut self.rng);
        cull_bugs(&mut self.bugs);
    }
}

/// Steering moves no boid.
pub proof fn lemma_world_step_keeps_position(
    boid: Boid,
    origin: usize,
    around: Surroundings,
    cursor: Cursor,
)
    ensures
        world_step(boid, origin, around, cursor).position == boid.position,
{
}

/// An exhausted boid in the normal state comes out of the steering phase
/// collapsed and at rest, with 100 ticks to lie, and out of the update that
/// follows in the same tick still collapsed and at rest.
pub proof fn lemma_exhausted_boid_collapses(
    boid: Boid,
    origin: usize,
    around: Surroundings,
    cursor: Cursor,
    width: Fixed,
    height: Fixed,
    rng: Rng,
)
    requires
        boid.state == BoidState::Normal,
        boid.exhausted(),
    ensures
        ({
            let fallen = world_step(boid, origin, around, cursor);
            let after = fallen.updated(width, height, around.day_phase, rng).0;
            &&& fallen.state == BoidState::Collapsed
            &&& fallen.velocity == Vec2::zero()
            &&& fallen.collapse_timer == 100
            &&& after.state == BoidState::Collapsed
            &&& after.velocity == Vec2::zero()
        }),
{
}

/// On a torus with extent, boids that were all on it are all on it when they
/// have been updated.
pub proof fn lemma_boids_updated_on_torus(
    boids: Seq<Boid>,
    n: nat,
    width: Fixed,
    height: Fixed,
    day_phase: Fixed,
    rng: Rng,
)
    requires
        n <= boids.len(),
        width.raw > 0,
        height.raw > 0,
        forall|k: int| 0 <= k < boids.len() ==> in_bounds((#[trigger] boids[k]).position, width, height),
    ensures
        forall|j: int|
            0 <= j < boids_updated(boids, n, width, height, day_phase, rng).0.len() ==> in_bounds(
                (#[trigger] boids_updated(boids, n, width, height, day_phase, rng).0[j]).position,
                width,
                height,
            ),
    decreases n,
{
    if n > 0 {
        lemma_boids_updated_on_torus(boids, (n - 1) as nat, width, height, day_phase, rng);
        let (kept, r) = boids_updated(boids, (n - 1) as nat, width, height, day_phase, rng);
        lemma_updated_on_torus(boids[n - 1], width, height, day_phase, r);
    }
}

/// Meals neither add nor remove a boid.
pub proof fn lemma_meals_keep_count(w: WorldView)
    ensures
        with_meals(w).boids.len() == w.boids.len(),
{
    let (boids1, bugs1) = graze_all(w.boids, w.bugs, w.boids.len());
    lemma_graze_all_lengths(w.boids, w.bugs, w.boids.len());
    lemma_forage_all_lengths(boids1, w.food_sources, boids1.len());
}

/// The boids that go into the moves of a tick are those that the tick started
/// with, less the caught, each steered and fed.
pub proof fn lemma_boid_before_moves(w: WorldView, cursor: Cursor, k: int)
    requires
        0 <= k < with_hunt(with_ambient_life(with_clocks_advanced(w))).boids.len(),
    ensures
        ({
            let start = with_ambient_life(with_clocks_advanced(w));
            let hunted = with_hunt(start);
            let steered = with_steering(
                hunted,
                origins_after_hunt(start),
                surroundings_of(start, hunted),
                cursor,
            );
            &&& with_meals(steered).boids.len() == hunted.boids.len()
            &&& same_body(
                world_step(
                    hunted.boids[k],
                    origins_after_hunt(start)[k],
                    surroundings_of(start, hunted),
                    cursor,
                ),
                with_meals(steered).boids[k],
            )
        }),
{
    let start = with_ambient_life(with_clocks_advanced(w));
    let hunted = with_hunt(start);
    let steered = with_steering(
        hunted,
        origins_after_hunt(start),
        surroundings_of(start, hunted),
        cursor,
    );
    let (boids1, bugs1) = graze_all(steered.boids, steered.bugs, steered.boids.len());
    lemma_graze_all_lengths(steered.boids, steered.bugs, steered.boids.len());
    lemma_forage_all_lengths(boids1, steered.food_sources, boids1.len());
    lemma_graze_all_keeps_bodies(steered.boids, steered.bugs, steered.boids.len(), k);
    lemma_forage_all_keeps_bodies(boids1, steered.food_sources, boids1.len(), k);
}

/// The boids stay on the torus. On a world with extent whose boids are all on
/// the torus, they are all on it after a tick, whatever the cursor does.
pub proof fn lemma_tick_keeps_boids_on_torus(w: WorldView, cursor: Cursor)
    requires
        w.width.raw > 0,
        w.height.raw > 0,
        forall|k: int|
            0 <= k < w.boids.len() ==> in_bounds((#[trigger] w.boids[k]).position, w.width, w.height),
    ensures
        forall|j: int|
            0 <= j < ticked(w, cursor).boids.len() ==> in_bounds(
                (#[trigger] ticked(w, cursor).boids[j]).position,
                w.width,
                w.height,
            ),
{
    let start = with_ambient_life(with_clocks_advanced(w));
    let hunted = with_hunt(start);
    let steered = with_steering(
        hunted,
        origins_after_hunt(start),
        surroundings_of(start, hunted),
        cursor,
    );
    let fed = with_meals(steered);
    let on_torus = |b: Boid| in_bounds(b.position, w.width, w.height);
    lemma_removal_keeps_property(start.boids, caught_in(start), 0, on_torus);
    lemma_meals_keep_count(steered);
    assert forall|k: int| 0 <= k < fed.boids.len() implies in_bounds(
        (#[trigger] fed.boids[k]).position,
        w.width,
        w.height,
    ) by {
        lemma_boid_before_moves(w, cursor, k);
        assert(on_torus(hunted.boids[k]));
    }
    lemma_boids_updated_on_torus(
        fed.boids,
        fed.boids.len(),
        w.width,
        w.height,
        day_phase_of(fed),
        fed.rng,
    );
}

/// Every boid is filed in the index under the cell of its position.
pub proof fn lemma_index_files_every_boid(boids: Seq<Boid>, n: nat, size: Fixed, k: int)
    requires
        0 <= k < n <= boids.len() <= usize::MAX,
    ensures
        index_of(boids, n, size)[cell_of(boids[k].position.x, boids[k].position.y, size)].contains(
            k as usize,
        ),
    decreases n,
{
    let before = index_of(boids, (n - 1) as nat, size);
    let c = cell_of(boids[n - 1].position.x, boids[n - 1].position.y, size);
    let after = filed(before, c, (n - 1) as usize);
    let mine = cell_of(boids[k].position.x, boids[k].position.y, size);
    if k == n - 1 {
        assert(after[c] == before[c].push(k as usize));
        assert(after[c][before[c].len() as int] == k as usize);
    } else {
        lemma_index_files_every_boid(boids, (n - 1) as nat, size, k);
        if mine == c {
            let at = choose|at: int| 0 <= at < before[c].len() && before[c][at] == k as usize;
            assert(after[c][at] == k as usize);
        }
    }
}

/// No neighbour is missed. In an index with cells of a positive size, any two
/// boids whose Euclidean distance is at most `r` cell sizes are among each
/// other's candidates for a query of radius `r`.
pub proof fn lemma_close_boids_are_candidates(boids: Seq<Boid>, size: Fixed, j: int, k: int, r: int)
    requires
        size.raw > 0,
        r >= 0,
        0 <= j < boids.len() <= usize::MAX,
        0 <= k < boids.len(),
        (boids[j].position.x.raw - boids[k].position.x.raw) * (boids[j].position.x.raw
            - boids[k].position.x.raw) + (boids[j].position.y.raw - boids[k].position.y.raw) * (
        boids[j].position.y.raw - boids[k].position.y.raw) <= (r * size.raw) * (r * size.raw),
    ensures
        window(
            index_of(boids, boids.len(), size),
            cell_coord(boids[j].position.x, size),
            cell_coord(boids[j].position.y, size),
            r,
        ).contains(k as usize),
        window(
            index_of(boids, boids.len(), size),
            cell_coord(boids[k].position.x, size),
            cell_coord(boids[k].position.y, size),
            r,
        ).contains(j as usize),
{
    let grid = index_of(boids, boids.len(), size);
    let pj = boids[j].position;
    let pk = boids[k].position;
    lemma_index_files_every_boid(boids, boids.len(), size, j);
    lemma_index_files_every_boid(boids, boids.len(), size, k);
    assert((pj.x.raw - pk.x.raw) * (pj.x.raw - pk.x.raw) == (pk.x.raw - pj.x.raw) * (pk.x.raw
        - pj.x.raw)) by (nonlinear_arith);
    assert((pj.y.raw - pk.y.raw) * (pj.y.raw - pk.y.raw) == (pk.y.raw - pj.y.raw) * (pk.y.raw
        - pj.y.raw)) by (nonlinear_arith);
    lemma_query_finds_close_entities(grid, size, k as usize, pk.x, pk.y, pj.x, pj.y, r);
    lemma_query_finds_close_entities(grid, size, j as usize, pj.x, pj.y, pk.x, pk.y, r);
}

/// A boid's render record has 11 numbers, so `n` boids give `11 n`.
pub proof fn lemma_boid_records_len(boids: Seq<Boid>, n: nat)
    ensures
        boid_records(boids, n).len() == 11 * n,
    decreases n,
{
    if n > 0 {
        lemma_boid_records_len(boids, (n - 1) as nat);
    }
}

/// A predator's render record has 7 numbers, so `n` predators give `7 n`.
pub proof fn lemma_predator_records_len(predators: Seq<Predator>, n: nat)
    ensures
        predator_records(predators, n).len() == 7 * n,
    decreases n,
{
    if n > 0 {
        lemma_predator_records_len(predators, (n - 1) as nat);
    }
}

/// A bug's render record has 4 numbers, so `n` bugs give `4 n`.
pub proof fn lemma_bug_records_len(bugs: Seq<Bug>, n: nat)
    ensures
        bug_records(bugs, n).len() == 4 * n,
    decreases n,
{
    if n > 0 {
        lemma_bug_records_len(bugs, (n - 1) as nat);
    }
}

/// Asking twice gives the same answer: between ticks, any two extractions of
/// the boids' render data from one world hold the same numbers, and so for the
/// predators, the bugs, the obstacles, the food and the statistics.
pub proof fn lemma_render_data_is_repeatable(
    world: &World,
    first: Vec<Fixed>,
    second: Vec<Fixed>,
    first_stats: (u32, u32, u32, Fixed),
    second_stats: (u32, u32, u32, Fixed),
)
    ensures
        call_ensures(World::get_boid_render_data, (world,), first) && call_ensures(
            World::get_boid_render_data,
            (world,),
            second,
        ) ==> first@ == second@,
        call_ensures(World::get_predator_render_data, (world,), first) && call_ensures(
            World::get_predator_render_data,
            (world,),
            second,
        ) ==> first@ == second@,
        call_ensures(World::get_bug_render_data, (world,), first) && call_ensures(
            World::get_bug_render_data,
            (world,),
            second,
        ) ==> first@ == second@,
        call_ensures(World::get_obstacle_data, (world,), first) && call_ensures(
            World::get_obstacle_data,
            (world,),
            second,
        ) ==> first@ == second@,
        call_ensures(World::get_food_data, (world,), first) && call_ensures(
            World::get_food_data,
            (world,),
            second,
        ) ==> first@ == second@,
        call_ensures(World::get_stats, (world,), first_stats) && call_ensures(
            World::get_stats,
            (world,),
            second_stats,
        ) ==> first_stats == second_stats,
{
}

/// Steering keeps a well-formed boid well formed.
pub proof fn lemma_world_step_well_formed(boid: Boid, origin: usize, around: Surroundings, cursor: Cursor)
    requires
        boid.well_formed(),
    ensures
        world_step(boid, origin, around, cursor).well_formed(),
{
    if boid.state == BoidState::Normal && !boid.exhausted() {
        let t = tally_candidates(
            candidates_of(boid, around),
            candidates_of(boid, around).len(),
            around.cache,
            origin,
            boid,
            cohesion_radius_sq(boid.sociability, around.day_phase),
        );
        lemma_fear_in_unit(boid, t, around.predators, around.obstacles, around.shelters);
    }
}

/// Well-formed boids are well formed when they have been updated.
pub proof fn lemma_boids_updated_well_formed(
    boids: Seq<Boid>,
    n: nat,
    width: Fixed,
    height: Fixed,
    day_phase: Fixed,
    rng: Rng,
)
    requires
        n <= boids.len(),
        forall|k: int| 0 <= k < boids.len() ==> (#[trigger] boids[k]).well_formed(),
    ensures
        forall|j: int|
            0 <= j < boids_updated(boids, n, width, height, day_phase, rng).0.len() ==> (
            #[trigger] boids_updated(boids, n, width, height, day_phase, rng).0[j]).well_formed(),
    decreases n,
{
    if n > 0 {
        lemma_boids_updated_well_formed(boids, (n - 1) as nat, width, height, day_phase, rng);
        let (kept, r) = boids_updated(boids, (n - 1) as nat, width, height, day_phase, rng);
        lemma_updated_well_formed(boids[n - 1], width, height, day_phase, r);
    }
}

/// The boids stay well formed. In a world whose boids are all well formed,
/// they are all well formed after a tick: traits and fear between 0 and 1,
/// derived fields as the flags make them.
pub proof fn lemma_tick_keeps_boids_well_formed(w: WorldView, cursor: Cursor)
    requires
        forall|k: int| 0 <= k < w.boids.len() ==> (#[trigger] w.boids[k]).well_formed(),
    ensures
        forall|j: int|
            0 <= j < ticked(w, cursor).boids.len() ==> (#[trigger] ticked(
                w,
                cursor,
            ).boids[j]).well_formed(),
{
    let start = with_ambient_life(with_clocks_advanced(w));
    let hunted = with_hunt(start);
    let around = surroundings_of(start, hunted);
    let origins = origins_after_hunt(start);
    let steered = with_steering(hunted, origins, around, cursor);
    let fed = with_meals(steered);
    let sound = |b: Boid| b.well_formed();
    lemma_removal_keeps_property(start.boids, caught_in(start), 0, sound);
    lemma_removal_lengths_agree(start.boids, identity(start.boids.len()), caught_in(start), 0);
    lemma_meals_keep_count(steered);
    assert forall|k: int| 0 <= k < fed.boids.len() implies (#[trigger] fed.boids[k]).well_formed() by {
        lemma_boid_before_moves(w, cursor, k);
        assert(sound(hunted.boids[k]));
        lemma_world_step_well_formed(hunted.boids[k], origins[k], around, cursor);
    }
    lemma_boids_updated_well_formed(
        fed.boids,
        fed.boids.len(),
        w.width,
        w.height,
        day_phase_of(fed),
        fed.rng,
    );
}

/// The hunt of a tick takes each caught boid out of the world exactly once:
/// as many boids leave as there are distinct boids caught, however many
/// predators caught the same one.
pub proof fn lemma_hunt_removes_each_caught_boid_once(w: WorldView)
    requires
        w.boids.len() <= usize::MAX,
    ensures
        caught_in(w).finite(),
        with_hunt(w).boids.len() == w.boids.len() - caught_in(w).len(),
{
    lemma_each_caught_boid_leaves_once(w.boids, w.predators, w.shelters, day_phase_of(w));
}

/// The two ways to a tally agree. Where the candidates of a boid are the
/// snapshots of the neighbours handed to it, one for one, the tally over the
/// candidates is the tally over the neighbours.
pub proof fn lemma_tallies_agree(
    nearby: Seq<&Boid>,
    candidates: Seq<usize>,
    cache: Seq<BoidCache>,
    me_index: usize,
    me: Boid,
    coh_radius_sq: Fixed,
    n: nat,
)
    requires
        n <= nearby.len(),
        n <= candidates.len(),
        forall|k: int|
            0 <= k < n ==> {
                &&& #[trigger] candidates[k] != me_index
                &&& candidates[k] < cache.len()
                &&& cache[candidates[k] as int] == nearby[k].snapshot()
            },
    ensures
        tally_candidates(candidates, n, cache, me_index, me, coh_radius_sq) == tally_neighbours(
            nearby,
            n,
            me,
            coh_radius_sq,
        ),
    decreases n,
{
    if n > 0 {
        lemma_tallies_agree(nearby, candidates, cache, me_index, me, coh_radius_sq, (n - 1) as nat);
        assert(candidates[n - 1] != me_index);
    }
}

/// The two ways to the forces agree. A boid that flocks among neighbours of
/// its own comes out as the world would steer it from candidates that are the
/// snapshots of those neighbours, one for one.
pub proof fn lemma_flocking_paths_agree(
    me: Boid,
    nearby: Seq<&Boid>,
    me_index: usize,
    candidates: Seq<usize>,
    cache: Seq<BoidCache>,
    day_phase: Fixed,
    predators: Seq<(Fixed, Fixed)>,
    obstacles: Seq<(Fixed, Fixed)>,
    shelters: Seq<(Fixed, Fixed, Fixed)>,
)
    requires
        me.state == BoidState::Normal,
        !me.exhausted(),
        candidates.len() == nearby.len(),
        forall|k: int|
            0 <= k < nearby.len() ==> {
                &&& #[trigger] candidates[k] != me_index
                &&& candidates[k] < cache.len()
                &&& cache[candidates[k] as int] == nearby[k].snapshot()
            },
    ensures
        me.flocked(nearby, predators, obstacles, shelters, day_phase) == me.steered(
            flocking_forces(
                me,
                me_index,
                candidates,
                cache,
                day_phase,
                predators,
                obstacles,
                shelters,
            ),
        ),
{
    lemma_tallies_agree(
        nearby,
        candidates,
        cache,
        me_index,
        me,
        cohesion_radius_sq(me.sociability, day_phase),
        nearby.len(),
    );
}

} // verus!
