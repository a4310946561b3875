//! The ambient ecology of a tick: bugs and food come and go with the seasons,
//! and boids eat what they reach.
use crate::boid::{Boid, BoidState};
use crate::bug::Bug;
use crate::fixed::Fixed;
use crate::rng::Rng;
use crate::vector::Vec2;
use vstd::prelude::*;

verus! {

/// A food source: `(x, y, amount left)`.
pub type Food = (Fixed, Fixed, Fixed);

/// The quarter of the year, 0 to 3, at the given season time: a year is one
/// unit of season time.
pub open spec fn season_index(season_time: Fixed) -> u32 {
    season_time.fract().mul(Fixed::from_raw(4_000_000)).trunc_u32()
}

/// The chance per tick that a bug appears: 0.15 in quarter 1, 0.03 in quarter
/// 3, else 0.08.
pub open spec fn bug_rate(season: u32) -> Fixed {
    if season == 1 {
        Fixed::from_raw(150_000)
    } else if season == 3 {
        Fixed::from_raw(30_000)
    } else {
        Fixed::from_raw(80_000)
    }
}

/// The number of bugs at which none is added: 60 in quarter 1, 20 in quarter 3,
/// else 40.
pub open spec fn max_bugs(season: u32) -> usize {
    if season == 1 {
        60
    } else if season == 3 {
        20
    } else {
        40
    }
}

/// The chance per daytime tick that food appears: 0.003 in quarter 1, 0.0003 in
/// quarter 3, else 0.0015.
pub open spec fn food_chance(season: u32) -> Fixed {
    if season == 1 {
        Fixed::from_raw(3_000)
    } else if season == 3 {
        Fixed::from_raw(300)
    } else {
        Fixed::from_raw(1_500)
    }
}

/// The bugs after the chance of a new one, and the generator after it. One
/// draw decides; below the season's rate, and with room left, a bug appears at
/// a place drawn above the bottom 100 units.
pub open spec fn bugs_after_spawn(
    bugs: Seq<Bug>,
    width: Fixed,
    height: Fixed,
    season: u32,
    rng: Rng,
) -> (Seq<Bug>, Rng) {
    let r1 = rng.advanced();
    if rng.peek().raw < bug_rate(season).raw && bugs.len() < max_bugs(season) {
        let r2 = r1.advanced();
        let x = r1.peek().mul(width);
        let y = r2.peek().mul(height.sub(Fixed::from_raw(100_000_000)));
        let (bug, after) = Bug::spawned(x, y, r2.advanced());
        (bugs.push(bug), after)
    } else {
        (bugs, r1)
    }
}

/// The first `n` bugs after a tick each, less those that died, and the
/// generator after them.
pub open spec fn bugs_updated(
    bugs: Seq<Bug>,
    n: nat,
    width: Fixed,
    height: Fixed,
    obstacles: Seq<(Fixed, Fixed)>,
    rng: Rng,
) -> (Seq<Bug>, Rng)
    decreases n,
{
    if n == 0 {
        (Seq::empty(), rng)
    } else {
        let (kept, r) = bugs_updated(bugs, (n - 1) as nat, width, height, obstacles, rng);
        let (bug, alive, after) = bugs[n - 1].updated(width, height, obstacles, r);
        if alive {
            (kept.push(bug), after)
        } else {
            (kept, after)
        }
    }
}

/// Whether it is day enough for food to appear.
pub open spec fn is_day(day_phase: Fixed) -> bool {
    day_phase.raw > 450_000
}

/// The food after the chance of a new source, and the generator after it. At
/// night nothing is drawn. By day one draw decides; below the season's chance,
/// and with fewer than 5 sources, a source of 100 appears at a place drawn
/// inside the margins.
pub open spec fn food_after_spawn(
    food: Seq<Food>,
    width: Fixed,
    height: Fixed,
    season: u32,
    day_phase: Fixed,
    rng: Rng,
) -> (Seq<Food>, Rng) {
    if !is_day(day_phase) {
        (food, rng)
    } else {
        let r1 = rng.advanced();
        if rng.peek().raw < food_chance(season).raw && food.len() < 5 {
            let r2 = r1.advanced();
            let x = Fixed::from_raw(50_000_000).add(
                r1.peek().mul(width.sub(Fixed::from_raw(100_000_000))),
            );
            let y = Fixed::from_raw(50_000_000).add(
                r2.peek().mul(height.sub(Fixed::from_raw(180_000_000))),
            );
            (food.push((x, y, Fixed::from_raw(100_000_000))), r2.advanced())
        } else {
            (food, r1)
        }
    }
}

/// Those of the first `n` food sources that have something left.
pub open spec fn food_left(food: Seq<Food>, n: nat) -> Seq<Food>
    decreases n,
{
    if n == 0 {
        Seq::empty()
    } else {
        let kept = food_left(food, (n - 1) as nat);
        if food[n - 1].2.raw > 0 {
            kept.push(food[n - 1])
        } else {
            kept
        }
    }
}

/// Those of the first `n` bugs that have energy left.
pub open spec fn bugs_left(bugs: Seq<Bug>, n: nat) -> Seq<Bug>
    decreases n,
{
    if n == 0 {
        Seq::empty()
    } else {
        let kept = bugs_left(bugs, (n - 1) as nat);
        if bugs[n - 1].energy.raw > 0 {
            kept.push(bugs[n - 1])
        } else {
            kept
        }
    }
}

/// Whether two points are less than 12 units apart.
pub open spec fn in_bite(a: Vec2, b: Vec2) -> bool {
    let dx = a.x.sub(b.x);
    let dy = a.y.sub(b.y);
    dx.mul(dx).add(dy.mul(dy)).raw < 144_000_000
}

/// A boid after a meal: `gain` more energy, up to its capacity, and `rest` less
/// fatigue, down to zero.
pub open spec fn nourished(boid: Boid, gain: Fixed, rest: Fixed) -> Boid {
    Boid {
        energy: boid.energy.add(gain).min(boid.max_energy),
        fatigue: boid.fatigue.sub(rest).max(Fixed::zero()),
        ..boid
    }
}

/// A boid and a bug after they meet: within 12 units the bug loses all its
/// energy, and the boid gains 8 energy and sheds 2 fatigue.
pub open spec fn bite(boid: Boid, bug: Bug) -> (Boid, Bug) {
    if in_bite(boid.position, bug.position) {
        (
            nourished(boid, Fixed::from_raw(8_000_000), Fixed::from_raw(2_000_000)),
            Bug { energy: Fixed::zero(), ..bug },
        )
    } else {
        (boid, bug)
    }
}

/// A boid and the bugs after it has met the first `n` of them.
pub open spec fn graze(boid: Boid, bugs: Seq<Bug>, n: nat) -> (Boid, Seq<Bug>)
    decreases n,
{
    if n == 0 {
        (boid, bugs)
    } else {
        let (b, gs) = graze(boid, bugs, (n - 1) as nat);
        let (b2, g2) = bite(b, gs[n - 1]);
        (b2, gs.update(n - 1, g2))
    }
}

/// The boids and the bugs after the first `n` boids have met every bug, in
/// turn.
pub open spec fn graze_all(boids: Seq<Boid>, bugs: Seq<Bug>, n: nat) -> (Seq<Boid>, Seq<Bug>)
    decreases n,
{
    if n == 0 {
        (boids, bugs)
    } else {
        let (bs, gs) = graze_all(boids, bugs, (n - 1) as nat);
        let (b2, gs2) = graze(bs[n - 1], gs, gs.len());
        (bs.update(n - 1, b2), gs2)
    }
}

/// How far a boid's hunger stretches its sense of food: `0.5 + hunger`.
pub open spec fn appetite(boid: Boid) -> Fixed {
    Fixed::from_raw(500_000).add(boid.hunger)
}

/// A boid and a food source after they meet. A source with nothing left, or one
/// beyond `70 appetite` units, does nothing. Within 12 units the boid eats: the
/// source loses 0.4, the boid gains 1 energy and sheds 0.3 fatigue. Further
/// away the source pulls the boid with force `0.06 appetite`.
pub open spec fn forage_step(boid: Boid, food: Food) -> (Boid, Food) {
    let dx = food.0.sub(boid.position.x);
    let dy = food.1.sub(boid.position.y);
    let dsq = dx.mul(dx).add(dy.mul(dy));
    let hm = appetite(boid);
    if food.2.raw <= 0 || dsq.raw >= Fixed::from_raw(4_900_000_000).mul(hm).mul(hm).raw {
        (boid, food)
    } else if dsq.raw < 144_000_000 {
        (
            nourished(boid, Fixed::one(), Fixed::from_raw(300_000)),
            (food.0, food.1, food.2.sub(Fixed::from_raw(400_000))),
        )
    } else {
        let d = dsq.sqrt();
        let force = Fixed::from_raw(60_000).mul(hm);
        (
            Boid {
                acceleration: boid.acceleration.add(
                    Vec2::new(dx.div(d).mul(force), dy.div(d).mul(force)),
                ),
                ..boid
            },
            food,
        )
    }
}

/// A boid and the food after it has met the first `n` sources.
pub open spec fn forage(boid: Boid, food: Seq<Food>, n: nat) -> (Boid, Seq<Food>)
    decreases n,
{
    if n == 0 {
        (boid, food)
    } else {
        let (b, fs) = forage(boid, food, (n - 1) as nat);
        let (b2, f2) = forage_step(b, fs[n - 1]);
        (b2, fs.update(n - 1, f2))
    }
}

/// Whether a boid looks for food: in the normal state, and not fearful.
pub open spec fn forages(boid: Boid) -> bool {
    boid.state == BoidState::Normal && boid.fear.raw <= 300_000
}

/// The boids and the food after the first `n` boids have met every source, in
/// turn; those that do not look for food pass.
pub open spec fn forage_all(boids: Seq<Boid>, food: Seq<Food>, n: nat) -> (Seq<Boid>, Seq<Food>)
    decreases n,
{
    if n == 0 {
        (boids, food)
    } else {
        let (bs, fs) = forage_all(boids, food, (n - 1) as nat);
        if forages(bs[n - 1]) {
            let (b2, fs2) = forage(bs[n - 1], fs, fs.len());
            (bs.update(n - 1, b2), fs2)
        } else {
            (bs, fs)
        }
    }
}

/// Grazing and foraging change no length.
pub proof fn lemma_graze_lengths(boid: Boid, bugs: Seq<Bug>, n: nat)
    requires
        n <= bugs.len(),
    ensures
        graze(boid, bugs, n).1.len() == bugs.len(),
    decreases n,
{
    if n > 0 {
        lemma_graze_lengths(boid, bugs, (n - 1) as nat);
    }
}

/// Grazing changes no length.
pub proof fn lemma_graze_all_lengths(boids: Seq<Boid>, bugs: Seq<Bug>, n: nat)
    requires
        n <= boids.len(),
    ensures
        graze_all(boids, bugs, n).0.len() == boids.len(),
        graze_all(boids, bugs, n).1.len() == bugs.len(),
    decreases n,
{
    if n > 0 {
        lemma_graze_all_lengths(boids, bugs, (n - 1) as nat);
        let (bs, gs) = graze_all(boids, bugs, (n - 1) as nat);
        lemma_graze_lengths(bs[n - 1], gs, gs.len());
    }
}

/// Foraging changes no length.
pub proof fn lemma_forage_lengths(boid: Boid, food: Seq<Food>, n: nat)
    requires
        n <= food.len(),
    ensures
        forage(boid, food, n).1.len() == food.len(),
    decreases n,
{
    if n > 0 {
        lemma_forage_lengths(boid, food, (n - 1) as nat);
    }
}

/// Foraging changes no length.
pub proof fn lemma_forage_all_lengths(boids: Seq<Boid>, food: Seq<Food>, n: nat)
    requires
        n <= boids.len(),
    ensures
        forage_all(boids, food, n).0.len() == boids.len(),
        forage_all(boids, food, n).1.len() == food.len(),
    decreases n,
{
    if n > 0 {
        lemma_forage_all_lengths(boids, food, (n - 1) as nat);
        let (bs, fs) = forage_all(boids, food, (n - 1) as nat);
        lemma_forage_lengths(bs[n - 1], fs, fs.len());
    }
}

/// The quarter of the year at the given season time.
pub fn season_of(season_time: Fixed) -> (season: u32)
    ensures
        season == season_index(season_time),
{
    season_time.fract().mul(Fixed::from_raw(4_000_000)).trunc_u32()
}

/// The season's chance of a bug.
pub fn bug_rate_in(season: u32) -> (rate: Fixed)
    ensures
        rate == bug_rate(season),
{
    if season == 1 {
        Fixed::from_raw(150_000)
    } else if season == 3 {
        Fixed::from_raw(30_000)
    } else {
        Fixed::from_raw(80_000)
    }
}

/// The season's cap on bugs.
pub fn max_bugs_in(season: u32) -> (cap: usize)
    ensures
        cap == max_bugs(season),
{
    if season == 1 {
        60
    } else if season == 3 {
        20
    } else {
        40
    }
}

/// The season's chance of food.
pub fn food_chance_in(season: u32) -> (chance: Fixed)
    ensures
        chance == food_chance(season),
{
    if season == 1 {
        Fixed::from_raw(3_000)
    } else if season == 3 {
        Fixed::from_raw(300)
    } else {
        Fixed::from_raw(1_500)
    }
}

/// Gives a bug the chance to appear.
pub fn spawn_bug(bugs: &mut Vec<Bug>, width: Fixed, height: Fixed, season: u32, rng: &mut Rng)
    ensures
        (final(bugs)@, *final(rng)) == bugs_after_spawn(old(bugs)@, width, height, season, *old(rng)),
{
    let chance = rng.next_unit();
    if chance.raw < bug_rate_in(season).raw && bugs.len() < max_bugs_in(season) {
        let x = rng.next_unit().mul(width);
        let y = rng.next_unit().mul(height.sub(Fixed::from_raw(100_000_000)));
        let bug = Bug::new(x, y, rng);
        bugs.push(bug);
    }
}

/// Advances every bug by one tick and drops those that died.
pub fn update_bugs(
    bugs: &mut Vec<Bug>,
    width: Fixed,
    height: Fixed,
    obstacles: &[(Fixed, Fixed)],
    rng: &mut Rng,
)
    ensures
        (final(bugs)@, *final(rng)) == bugs_updated(
            old(bugs)@,
            old(bugs)@.len(),
            width,
            height,
            obstacles@,
            *old(rng),
        ),
{
    let mut kept: Vec<Bug> = Vec::new();
    let mut i: usize = 0;
    while i < bugs.len()
        invariant
            i <= bugs.len(),
            bugs@ == old(bugs)@,
            (kept@, *rng) == bugs_updated(bugs@, i as nat, width, height, obstacles@, *old(rng)),
        decreases bugs.len() - i,
    {
        let mut bug: Bug = bugs[i];
        if bug.update(width, height, obstacles, rng) {
            kept.push(bug);
        }
        i = i + 1;
    }
    *bugs = kept;
}

/// Gives a food source the chance to appear.
pub fn spawn_food(
    food: &mut Vec<Food>,
    width: Fixed,
    height: Fixed,
    season: u32,
    day_phase: Fixed,
    rng: &mut Rng,
)
    ensures
        (final(food)@, *final(rng)) == food_after_spawn(
            old(food)@,
            width,
            height,
            season,
            day_phase,
            *old(rng),
        ),
{
    if day_phase.raw > 450_000 {
        let chance = rng.next_unit();
        if chance.raw < food_chance_in(season).raw && food.len() < 5 {
            let x = Fixed::from_raw(50_000_000).add(
                rng.next_unit().mul(width.sub(Fixed::from_raw(100_000_000))),
            );
            let y = Fixed::from_raw(50_000_000).add(
                rng.next_unit().mul(height.sub(Fixed::from_raw(180_000_000))),
            );
            food.push((x, y, Fixed::from_raw(100_000_000)));
        }
    }
}

/// Drops the food sources that have nothing left.
pub fn cull_food(food: &mut Vec<Food>)
    ensures
        final(food)@ == food_left(old(food)@, old(food)@.len()),
{
    let mut kept: Vec<Food> = Vec::new();
    let mut i: usize = 0;
    while i < food.len()
        invariant
            i <= food.len(),
            food@ == old(food)@,
            kept@ == food_left(food@, i as nat),
        decreases food.len() - i,
    {
        let f = food[i];
        if f.2.raw > 0 {
            kept.push(f);
        }
        i = i + 1;
    }
    *food = kept;
}

/// Drops the bugs that have no energy left.
pub fn cull_bugs(bugs: &mut Vec<Bug>)
    ensures
        final(bugs)@ == bugs_left(old(bugs)@, old(bugs)@.len()),
{
    let mut kept: Vec<Bug> = Vec::new();
    let mut i: usize = 0;
    while i < bugs.len()
        invariant
            i <= bugs.len(),
            bugs@ == old(bugs)@,
            kept@ == bugs_left(bugs@, i as nat),
        decreases bugs.len() - i,
    {
        let bug = bugs[i];
        if bug.energy.raw > 0 {
            kept.push(bug);
        }
        i = i + 1;
    }
    *bugs = kept;
}

/// Feeds a boid: `gain` more energy, up to its capacity, and `rest` less
/// fatigue, down to zero.
pub fn nourish(boid: &mut Boid, gain: Fixed, rest: Fixed)
    ensures
        *final(boid) == nourished(*old(boid), gain, rest),
{
    boid.energy = boid.energy.add(gain).min(boid.max_energy);
    boid.fatigue = boid.fatigue.sub(rest).max(Fixed::zero());
}

/// Lets every boid, in turn, eat the bugs within its reach.
pub fn eat_bugs(boids: &mut Vec<Boid>, bugs: &mut Vec<Bug>)
    ensures
        (final(boids)@, final(bugs)@) == graze_all(old(boids)@, old(bugs)@, old(boids)@.len()),
{
    let count = boids.len();
    let bug_count = bugs.len();
    let mut i: usize = 0;
    while i < count
        invariant
            i <= count,
            boids@.len() == count,
            bugs@.len() == bug_count,
            count == old(boids)@.len(),
            (boids@, bugs@) == graze_all(old(boids)@, old(bugs)@, i as nat),
        decreases count - i,
    {
        let ghost bugs_before = bugs@;
        let ghost boids_before = boids@;
        let mut boid: Boid = boids[i];
        let ghost boid_before = boid;
        let mut j: usize = 0;
        while j < bug_count
            invariant
                j <= bug_count,
                bugs@.len() == bug_count,
                bugs_before.len() == bug_count,
                (boid, bugs@) == graze(boid_before, bugs_before, j as nat),
            decreases bug_count - j,
        {
            let mut bug: Bug = bugs[j];
            let dx = boid.position.x.sub(bug.position.x);
            let dy = boid.position.y.sub(bug.position.y);
            if dx.mul(dx).add(dy.mul(dy)).raw < 144_000_000 {
                bug.energy = Fixed::zero();
                nourish(&mut boid, Fixed::from_raw(8_000_000), Fixed::from_raw(2_000_000));
                bugs[j] = bug;
            }
            assert(bugs@ =~= graze(boid_before, bugs_before, j as nat).1.update(j as int, bug));
            j = j + 1;
        }
        boids[i] = boid;
        assert(boids@ =~= boids_before.update(i as int, boid));
        i = i + 1;
    }
}

/// Lets one boid meet one food source.
pub fn forage_once(boid: &mut Boid, food: &mut Food)
    ensures
        (*final(boid), *final(food)) == forage_step(*old(boid), *old(food)),
{
    if food.2.raw <= 0 {
        return ;
    }
    let dx = food.0.sub(boid.position.x);
    let dy = food.1.sub(boid.position.y);
    let dsq = dx.mul(dx).add(dy.mul(dy));
    let hm = Fixed::from_raw(500_000).add(boid.hunger);
    if dsq.raw < Fixed::from_raw(4_900_000_000).mul(hm).mul(hm).raw {
        if dsq.raw < 144_000_000 {
            food.2 = food.2.sub(Fixed::from_raw(400_000));
            nourish(boid, Fixed::one(), Fixed::from_raw(300_000));
        } else {
            let d = dsq.sqrt();
            let force = Fixed::from_raw(60_000).mul(hm);
            boid.acceleration.add_mut(Vec2::new(dx.div(d).mul(force), dy.div(d).mul(force)));
        }
    }
}

/// Lets every boid that looks for food, in turn, eat from the sources within
/// its reach and be drawn to those it senses.
pub fn seek_food(boids: &mut Vec<Boid>, food: &mut Vec<Food>)
    ensures
        (final(boids)@, final(food)@) == forage_all(old(boids)@, old(food)@, old(boids)@.len()),
{
    let count = boids.len();
    let food_count = food.len();
    let mut i: usize = 0;
    while i < count
        invariant
            i <= count,
            boids@.len() == count,
            food@.len() == food_count,
            count == old(boids)@.len(),
            (boids@, food@) == forage_all(old(boids)@, old(food)@, i as nat),
        decreases count - i,
    {
        let ghost food_before = food@;
        let ghost boids_before = boids@;
        let mut boid: Boid = boids[i];
        let ghost boid_before = boid;
        if boid.state == BoidState::Normal && boid.fear.raw <= 300_000 {
            let mut j: usize = 0;
            while j < food_count
                invariant
                    j <= food_count,
                    food@.len() == food_count,
                    food_before.len() == food_count,
                    (boid, food@) == forage(boid_before, food_before, j as nat),
                decreases food_count - j,
            {
                let mut f: Food = food[j];
                forage_once(&mut boid, &mut f);
                food[j] = f;
                assert(food@ =~= forage(boid_before, food_before, j as nat).1.update(j as int, f));
                j = j + 1;
            }
            boids[i] = boid;
            assert(boids@ =~= boids_before.update(i as int, boid));
        }
        i = i + 1;
    }
}

/// Whether `b` is `a` but for its energy, its fatigue and its acceleration:
/// all that a meal can change of a boid.
pub open spec fn same_body(a: Boid, b: Boid) -> bool {
    b == (Boid { energy: b.energy, fatigue: b.fatigue, acceleration: b.acceleration, ..a })
}

/// Eating changes nothing of a boid but its energy and its fatigue.
pub proof fn lemma_graze_keeps_body(boid: Boid, bugs: Seq<Bug>, n: nat)
    ensures
        same_body(boid, graze(boid, bugs, n).0),
    decreases n,
{
    if n > 0 {
        lemma_graze_keeps_body(boid, bugs, (n - 1) as nat);
    }
}

/// Eating changes nothing of any boid but its energy and its fatigue.
pub proof fn lemma_graze_all_keeps_bodies(boids: Seq<Boid>, bugs: Seq<Bug>, n: nat, k: int)
    requires
        n <= boids.len(),
        0 <= k < boids.len(),
    ensures
        same_body(boids[k], graze_all(boids, bugs, n).0[k]),
    decreases n,
{
    if n > 0 {
        lemma_graze_all_keeps_bodies(boids, bugs, (n - 1) as nat, k);
        lemma_graze_all_lengths(boids, bugs, (n - 1) as nat);
        let (bs, gs) = graze_all(boids, bugs, (n - 1) as nat);
        lemma_graze_keeps_body(bs[n - 1], gs, gs.len());
    }
}

/// Foraging changes nothing of a boid but its energy, its fatigue and its
/// acceleration.
pub proof fn lemma_forage_keeps_body(boid: Boid, food: Seq<Food>, n: nat)
    ensures
        same_body(boid, forage(boid, food, n).0),
    decreases n,
{
    if n > 0 {
        lemma_forage_keeps_body(boid, food, (n - 1) as nat);
    }
}

/// Foraging changes nothing of any boid but its energy, its fatigue and its
/// acceleration.
pub proof fn lemma_forage_all_keeps_bodies(boids: Seq<Boid>, food: Seq<Food>, n: nat, k: int)
    requires
        n <= boids.len(),
        0 <= k < boids.len(),
    ensures
        same_body(boids[k], forage_all(boids, food, n).0[k]),
    decreases n,
{
    if n > 0 {
        lemma_forage_all_keeps_bodies(boids, food, (n - 1) as nat, k);
        lemma_forage_all_lengths(boids, food, (n - 1) as nat);
        let (bs, fs) = forage_all(boids, food, (n - 1) as nat);
        lemma_forage_keeps_body(bs[n - 1], fs, fs.len());
    }
}

} // verus!
