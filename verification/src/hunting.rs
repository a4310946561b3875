//! The hunting phase of a tick: every predator hunts among the boids as they
//! stood at the start of the tick, each caught boid is claimed once and taken
//! out, and the predators move.
use crate::boid::{next_count, Boid, BoidState, Mutations};
use crate::fixed::Fixed;
use crate::predator::{lemma_pick_is_least, Predator, Prey};
use vstd::prelude::*;

verus! {

/// What a predator sees of a boid.
pub open spec fn prey_of(b: Boid) -> Prey {
    (
        b.position.x,
        b.position.y,
        b.velocity.x,
        b.velocity.y,
        b.energy,
        b.state == BoidState::Collapsed,
        b.mutations.has(Mutations::TASTY),
    )
}

/// What the predators see of the boids, in the order of the boids.
pub open spec fn prey_records(boids: Seq<Boid>) -> Seq<Prey> {
    Seq::new(boids.len(), |i: int| prey_of(boids[i]))
}

/// A predator that has made a kill: 45 more energy, up to 150, and one more
/// kill to its name.
pub open spec fn fed(p: Predator) -> Predator {
    Predator {
        energy: p.energy.add(Fixed::from_raw(45_000_000)).min(Fixed::from_raw(150_000_000)),
        kills: next_count(p.kills),
        ..p
    }
}

/// The first `n` predators after their hunts, in turn, and the indices of the
/// prey they caught. A predator is fed only for prey that no predator before it
/// has caught in the same tick.
pub open spec fn hunts(
    predators: Seq<Predator>,
    n: nat,
    prey: Seq<Prey>,
    shelters: Seq<(Fixed, Fixed, Fixed)>,
    day_phase: Fixed,
) -> (Seq<Predator>, Set<int>)
    decreases n,
{
    if n == 0 {
        (Seq::empty(), Set::empty())
    } else {
        let (done, claimed) = hunts(predators, (n - 1) as nat, prey, shelters, day_phase);
        let (p, caught) = predators[n - 1].hunted(prey, shelters, day_phase);
        match caught {
            Some(idx) => if claimed.contains(idx as int) {
                (done.push(p), claimed)
            } else {
                (done.push(fed(p)), claimed.insert(idx as int))
            },
            None => (done.push(p), claimed),
        }
    }
}

/// The set of the indices at which `mask` is set.
pub open spec fn marked(mask: Seq<bool>) -> Set<int> {
    Set::new(|k: int| 0 <= k < mask.len() && mask[k])
}

/// `s` with the item at `i` replaced by the last one, and one shorter.
pub open spec fn swap_removed<T>(s: Seq<T>, i: int) -> Seq<T> {
    s.update(i, s.last()).drop_last()
}

/// `s` after each index from the highest down to `lo` that is in `claimed` has
/// been swap-removed, in that order, so that no removal disturbs an index still
/// to come.
pub open spec fn removed_down_to<T>(s: Seq<T>, claimed: Set<int>, lo: int) -> Seq<T>
    decreases s.len() - lo,
{
    if lo >= s.len() {
        s
    } else {
        let above = removed_down_to(s, claimed, lo + 1);
        if claimed.contains(lo) {
            swap_removed(above, lo)
        } else {
            above
        }
    }
}

/// As long as only indices from `lo` up have been removed, at least `lo` items
/// are left.
pub proof fn lemma_removal_leaves_below<T>(s: Seq<T>, claimed: Set<int>, lo: int)
    requires
        0 <= lo <= s.len(),
    ensures
        lo <= removed_down_to(s, claimed, lo).len() <= s.len(),
    decreases s.len() - lo,
{
    if lo < s.len() {
        lemma_removal_leaves_below(s, claimed, lo + 1);
    }
}

/// The prey records of the boids.
pub fn collect_prey(boids: &Vec<Boid>) -> (prey: Vec<Prey>)
    ensures
        prey@ == prey_records(boids@),
{
    let mut prey: Vec<Prey> = Vec::new();
    let mut i: usize = 0;
    while i < boids.len()
        invariant
            i <= boids.len(),
            prey@.len() == i,
            forall|j: int| 0 <= j < i ==> prey@[j] == prey_of(#[trigger] boids@[j]),
        decreases boids.len() - i,
    {
        let b = &boids[i];
        prey.push(
            (
                b.position.x,
                b.position.y,
                b.velocity.x,
                b.velocity.y,
                b.energy,
                b.state == BoidState::Collapsed,
                b.mutations.has(Mutations::TASTY),
            ),
        );
        i = i + 1;
    }
    assert(prey@ =~= prey_records(boids@));
    prey
}

/// Feeds a predator that has made a kill.
pub fn feed(p: &mut Predator)
    ensures
        *final(p) == fed(*old(p)),
{
    p.energy = p.energy.add(Fixed::from_raw(45_000_000)).min(Fixed::from_raw(150_000_000));
    if p.kills < u32::MAX {
        p.kills = p.kills + 1;
    }
}

/// Lets every predator hunt among `prey`, in turn. Returns, for each prey,
/// whether it was caught. A prey caught by several predators is claimed by the
/// first of them alone: only that one is fed.
pub fn run_hunts(
    predators: &mut Vec<Predator>,
    prey: &[Prey],
    shelters: &[(Fixed, Fixed, Fixed)],
    day_phase: Fixed,
) -> (caught: Vec<bool>)
    ensures
        final(predators)@ == hunts(
            old(predators)@,
            old(predators)@.len(),
            prey@,
            shelters@,
            day_phase,
        ).0,
        caught@.len() == prey@.len(),
        marked(caught@) == hunts(
            old(predators)@,
            old(predators)@.len(),
            prey@,
            shelters@,
            day_phase,
        ).1,
{
    let mut caught: Vec<bool> = Vec::new();
    let mut k: usize = 0;
    while k < prey.len()
        invariant
            k <= prey.len(),
            caught@.len() == k,
            forall|j: int| 0 <= j < k ==> !caught@[j],
        decreases prey.len() - k,
    {
        caught.push(false);
        k = k + 1;
    }
    assert(marked(caught@) =~= Set::<int>::empty());

    let ghost before = predators@;
    let count = predators.len();
    let mut i: usize = 0;
    while i < count
        invariant
            i <= count,
            count == before.len(),
            predators@.len() == count,
            caught@.len() == prey@.len(),
            predators@.subrange(0, i as int) == hunts(before, i as nat, prey@, shelters@, day_phase).0,
            forall|j: int| i <= j < count ==> predators@[j] == before[j],
            marked(caught@) == hunts(before, i as nat, prey@, shelters@, day_phase).1,
        decreases count - i,
    {
        let ghost done = predators@.subrange(0, i as int);
        let ghost claimed = marked(caught@);
        let mut p: Predator = predators[i];
        match p.hunt(prey, shelters, day_phase) {
            Some(idx) => {
                if !caught[idx] {
                    caught[idx] = true;
                    feed(&mut p);
                    assert(marked(caught@) =~= claimed.insert(idx as int));
                }
            },
            None => {},
        }
        predators[i] = p;
        assert(predators@.subrange(0, i + 1) =~= done.push(p));
        i = i + 1;
    }
    assert(predators@.subrange(0, count as int) =~= predators@);
    caught
}

/// Takes out of `items` the item at every index at which `caught` is set,
/// from the highest such index down, each by a swap with the last item.
pub fn remove_caught<T>(items: &mut Vec<T>, caught: &Vec<bool>)
    requires
        old(items)@.len() == caught@.len(),
    ensures
        final(items)@ == removed_down_to(old(items)@, marked(caught@), 0),
{
    let mut i: usize = items.len();
    while i > 0
        invariant
            i <= old(items)@.len(),
            old(items)@.len() == caught@.len(),
            items@ == removed_down_to(old(items)@, marked(caught@), i as int),
        decreases i,
    {
        i = i - 1;
        proof {
            lemma_removal_leaves_below(old(items)@, marked(caught@), i + 1);
        }
        if caught[i] {
            items.swap_remove(i);
        }
    }
}

/// The first `n` predators after a tick each, less those that died.
pub open spec fn predators_updated(
    predators: Seq<Predator>,
    n: nat,
    width: Fixed,
    height: Fixed,
    obstacles: Seq<(Fixed, Fixed)>,
) -> Seq<Predator>
    decreases n,
{
    if n == 0 {
        Seq::empty()
    } else {
        let kept = predators_updated(predators, (n - 1) as nat, width, height, obstacles);
        let p = predators[n - 1].updated(width, height, obstacles);
        if p.energy.raw > 0 {
            kept.push(p)
        } else {
            kept
        }
    }
}

/// Advances every predator by one tick and drops those that died.
pub fn update_predators(
    predators: &mut Vec<Predator>,
    width: Fixed,
    height: Fixed,
    obstacles: &[(Fixed, Fixed)],
)
    ensures
        final(predators)@ == predators_updated(
            old(predators)@,
            old(predators)@.len(),
            width,
            height,
            obstacles@,
        ),
{
    let mut kept: Vec<Predator> = Vec::new();
    let mut i: usize = 0;
    while i < predators.len()
        invariant
            i <= predators.len(),
            predators@ == old(predators)@,
            kept@ == predators_updated(predators@, i as nat, width, height, obstacles@),
        decreases predators.len() - i,
    {
        let mut p: Predator = predators[i];
        if p.update(width, height, obstacles) {
            kept.push(p);
        }
        i = i + 1;
    }
    *predators = kept;
}

/// Two sequences of one length are as long as each other after the same
/// removals.
pub proof fn lemma_removal_lengths_agree<A, B>(a: Seq<A>, b: Seq<B>, claimed: Set<int>, lo: int)
    requires
        a.len() == b.len(),
        0 <= lo,
    ensures
        removed_down_to(a, claimed, lo).len() == removed_down_to(b, claimed, lo).len(),
    decreases a.len() - lo,
{
    if lo < a.len() {
        lemma_removal_lengths_agree(a, b, claimed, lo + 1);
        lemma_removal_leaves_below(a, claimed, lo + 1);
        lemma_removal_leaves_below(b, claimed, lo + 1);
    }
}

/// The hunt of one predator can only catch prey that is there.
pub proof fn lemma_catch_in_range(
    p: Predator,
    prey: Seq<Prey>,
    shelters: Seq<(Fixed, Fixed, Fixed)>,
    day_phase: Fixed,
)
    requires
        prey.len() <= usize::MAX,
    ensures
        match p.hunted(prey, shelters, day_phase).1 {
            Some(idx) => idx < prey.len() && p.hunted(prey, shelters, day_phase).0.target_index
                == Some(idx),
            None => true,
        },
{
    lemma_pick_is_least(prey, prey.len(), p.position, shelters, day_phase);
}

/// After `n` hunts there are `n` predators, and every claimed index is that of
/// a prey.
pub proof fn lemma_hunts_shape(
    predators: Seq<Predator>,
    n: nat,
    prey: Seq<Prey>,
    shelters: Seq<(Fixed, Fixed, Fixed)>,
    day_phase: Fixed,
)
    requires
        n <= predators.len(),
        prey.len() <= usize::MAX,
    ensures
        hunts(predators, n, prey, shelters, day_phase).0.len() == n,
        hunts(predators, n, prey, shelters, day_phase).1.finite(),
        forall|k: int| #[trigger]
            hunts(predators, n, prey, shelters, day_phase).1.contains(k) ==> 0 <= k < prey.len(),
    decreases n,
{
    if n > 0 {
        lemma_hunts_shape(predators, (n - 1) as nat, prey, shelters, day_phase);
        lemma_catch_in_range(predators[n - 1], prey, shelters, day_phase);
    }
}

/// Later hunts leave the earlier predators as they were, and give up no claim.
pub proof fn lemma_hunts_extend(
    predators: Seq<Predator>,
    m: nat,
    n: nat,
    prey: Seq<Prey>,
    shelters: Seq<(Fixed, Fixed, Fixed)>,
    day_phase: Fixed,
)
    requires
        m <= n <= predators.len(),
        prey.len() <= usize::MAX,
    ensures
        hunts(predators, m, prey, shelters, day_phase).1.subset_of(
            hunts(predators, n, prey, shelters, day_phase).1,
        ),
        forall|k: int|
            0 <= k < m ==> hunts(predators, n, prey, shelters, day_phase).0[k] == hunts(
                predators,
                m,
                prey,
                shelters,
                day_phase,
            ).0[k],
    decreases n,
{
    if m < n {
        lemma_hunts_extend(predators, m, (n - 1) as nat, prey, shelters, day_phase);
        lemma_hunts_shape(predators, (n - 1) as nat, prey, shelters, day_phase);
        lemma_hunts_shape(predators, m, prey, shelters, day_phase);
    }
}

/// First claim wins. Where two predators catch the same prey in one tick, the
/// prey is claimed, and the later predator is not fed for it: it comes out of
/// the tick's hunts as it came out of its own hunt, its kills and its energy
/// untouched.
pub proof fn lemma_first_claim_wins(
    predators: Seq<Predator>,
    prey: Seq<Prey>,
    shelters: Seq<(Fixed, Fixed, Fixed)>,
    day_phase: Fixed,
    i: int,
    j: int,
    idx: usize,
)
    requires
        0 <= i < j < predators.len(),
        prey.len() <= usize::MAX,
        predators[i].hunted(prey, shelters, day_phase).1 == Some(idx),
        predators[j].hunted(prey, shelters, day_phase).1 == Some(idx),
    ensures
        hunts(predators, predators.len(), prey, shelters, day_phase).1.contains(idx as int),
        hunts(predators, predators.len(), prey, shelters, day_phase).0[j] == predators[j].hunted(
            prey,
            shelters,
            day_phase,
        ).0,
{
    let n = predators.len();
    let after_i = hunts(predators, (i + 1) as nat, prey, shelters, day_phase);
    assert(after_i.1.contains(idx as int));
    lemma_hunts_extend(predators, (i + 1) as nat, j as nat, prey, shelters, day_phase);
    let before_j = hunts(predators, j as nat, prey, shelters, day_phase);
    assert(before_j.1.contains(idx as int));
    lemma_hunts_shape(predators, j as nat, prey, shelters, day_phase);
    let after_j = hunts(predators, (j + 1) as nat, prey, shelters, day_phase);
    assert(after_j.0 == before_j.0.push(predators[j].hunted(prey, shelters, day_phase).0));
    assert(after_j.0[j] == predators[j].hunted(prey, shelters, day_phase).0);
    lemma_hunts_extend(predators, (j + 1) as nat, n, prey, shelters, day_phase);
}

/// A predator that is the first to catch a prey is fed for it.
pub proof fn lemma_first_catch_is_fed(
    predators: Seq<Predator>,
    prey: Seq<Prey>,
    shelters: Seq<(Fixed, Fixed, Fixed)>,
    day_phase: Fixed,
    i: int,
    idx: usize,
)
    requires
        0 <= i < predators.len(),
        prey.len() <= usize::MAX,
        predators[i].hunted(prey, shelters, day_phase).1 == Some(idx),
        !hunts(predators, i as nat, prey, shelters, day_phase).1.contains(idx as int),
    ensures
        hunts(predators, predators.len(), prey, shelters, day_phase).1.contains(idx as int),
        hunts(predators, predators.len(), prey, shelters, day_phase).0[i] == fed(
            predators[i].hunted(prey, shelters, day_phase).0,
        ),
{
    let n = predators.len();
    lemma_hunts_shape(predators, i as nat, prey, shelters, day_phase);
    let before = hunts(predators, i as nat, prey, shelters, day_phase);
    let after = hunts(predators, (i + 1) as nat, prey, shelters, day_phase);
    assert(after.0 == before.0.push(fed(predators[i].hunted(prey, shelters, day_phase).0)));
    assert(after.1.contains(idx as int));
    lemma_hunts_extend(predators, (i + 1) as nat, n, prey, shelters, day_phase);
}

/// The claimed indices from `lo` up to `hi`.
pub open spec fn claimed_between(claimed: Set<int>, lo: int, hi: int) -> Set<int> {
    claimed.intersect(vstd::set_lib::set_int_range(lo, hi))
}

/// Each claimed index costs exactly one item: once the claimed indices from
/// `lo` up are removed, as many items are gone as there are such indices.
pub proof fn lemma_removal_count_from<T>(s: Seq<T>, claimed: Set<int>, lo: int)
    requires
        0 <= lo <= s.len(),
    ensures
        claimed_between(claimed, lo, s.len() as int).finite(),
        removed_down_to(s, claimed, lo).len() + claimed_between(claimed, lo, s.len() as int).len()
            == s.len(),
    decreases s.len() - lo,
{
    let hi = s.len() as int;
    vstd::set_lib::lemma_int_range(lo, hi);
    if lo < hi {
        lemma_removal_count_from(s, claimed, lo + 1);
        lemma_removal_leaves_below(s, claimed, lo + 1);
        let above = claimed_between(claimed, lo + 1, hi);
        if claimed.contains(lo) {
            assert(claimed_between(claimed, lo, hi) =~= above.insert(lo));
        } else {
            assert(claimed_between(claimed, lo, hi) =~= above);
        }
    } else {
        assert(claimed_between(claimed, lo, hi) =~= Set::<int>::empty());
    }
}

/// Exactly one removal for each caught boid: where every claimed index is that
/// of an item, the removal leaves as many items as there were, less the number
/// of claimed indices.
pub proof fn lemma_removal_count<T>(s: Seq<T>, claimed: Set<int>)
    requires
        forall|k: int| #[trigger] claimed.contains(k) ==> 0 <= k < s.len(),
    ensures
        claimed.finite(),
        removed_down_to(s, claimed, 0).len() == s.len() - claimed.len(),
{
    lemma_removal_count_from(s, claimed, 0);
    assert(claimed_between(claimed, 0, s.len() as int) =~= claimed);
}

/// Without a catch, nothing is removed.
pub proof fn lemma_no_catch_no_removal<T>(s: Seq<T>, lo: int)
    requires
        0 <= lo,
    ensures
        removed_down_to(s, Set::<int>::empty(), lo) == s,
    decreases s.len() - lo,
{
    if lo < s.len() {
        lemma_no_catch_no_removal(s, lo + 1);
    }
}

/// Whatever holds of every item of a sequence holds of every item left after a
/// removal: a removal brings in nothing new.
pub proof fn lemma_removal_keeps_property<T>(
    s: Seq<T>,
    claimed: Set<int>,
    lo: int,
    holds: spec_fn(T) -> bool,
)
    requires
        0 <= lo,
        forall|k: int| 0 <= k < s.len() ==> holds(#[trigger] s[k]),
    ensures
        forall|j: int|
            0 <= j < removed_down_to(s, claimed, lo).len() ==> holds(
                #[trigger] removed_down_to(s, claimed, lo)[j],
            ),
    decreases s.len() - lo,
{
    if lo < s.len() {
        lemma_removal_keeps_property(s, claimed, lo + 1, holds);
        lemma_removal_leaves_below(s, claimed, lo + 1);
        let above = removed_down_to(s, claimed, lo + 1);
        if claimed.contains(lo) {
            let left = swap_removed(above, lo);
            assert forall|j: int| 0 <= j < left.len() implies holds(#[trigger] left[j]) by {
                if j == lo {
                    assert(left[j] == above[above.len() - 1]);
                } else {
                    assert(left[j] == above[j]);
                }
            }
        }
    }
}

/// Exactly one removal for each caught boid, however many predators caught it:
/// after the hunts of a tick, the boids left are those there were, less the
/// number of distinct boids caught.
pub proof fn lemma_each_caught_boid_leaves_once(
    boids: Seq<Boid>,
    predators: Seq<Predator>,
    shelters: Seq<(Fixed, Fixed, Fixed)>,
    day_phase: Fixed,
)
    requires
        boids.len() <= usize::MAX,
    ensures
        ({
            let claimed = hunts(
                predators,
                predators.len(),
                prey_records(boids),
                shelters,
                day_phase,
            ).1;
            &&& claimed.finite()
            &&& claimed.len() <= boids.len()
            &&& removed_down_to(boids, claimed, 0).len() == boids.len() - claimed.len()
        }),
{
    let prey = prey_records(boids);
    let claimed = hunts(predators, predators.len(), prey, shelters, day_phase).1;
    lemma_hunts_shape(predators, predators.len(), prey, shelters, day_phase);
    lemma_removal_count(boids, claimed);
    lemma_removal_leaves_below(boids, claimed, 0);
}

} // verus!
