//! The population: how holding a button grows or thins it, and how a tick
//! moves every bunny in it.

use crate::bunny::{is_launch_velocity, lemma_step_settles, Bunny};
use crate::input::InputState;
use crate::random::draw_below;
use crate::units::{within_limit, Point2, LIMIT, SUBPIXELS};
use rand::rngs::ThreadRng;
use vstd::prelude::*;

verus! {

/// Size of the first population, of a burst and of a mass deletion.
pub const INITIAL_BUNNIES: usize = 100;

/// A bunny of a burst: launched from the top edge, somewhere across the
/// window's width.
pub open spec fn rained(b: Bunny, window_width: int) -> bool {
    &&& b.position.y == 0
    &&& 0 <= b.position.x < window_width
    &&& is_launch_velocity(b.velocity)
}

/// How many bunnies one tick adds.
pub open spec fn spawn_count(input: InputState) -> nat {
    if !input.add_held {
        0
    } else if input.ctrl_held {
        INITIAL_BUNNIES as nat
    } else {
        1
    }
}

/// How many bunnies one tick deletes out of `len`.
pub open spec fn cull_count(len: nat, input: InputState) -> nat {
    if !input.delete_held {
        0
    } else if input.ctrl_held {
        if len > INITIAL_BUNNIES {
            INITIAL_BUNNIES as nat
        } else {
            len
        }
    } else if len > 0 {
        1
    } else {
        0
    }
}

/// The size of a population of `len` after one tick: the additions come
/// first, the deletions count what is there after them.
pub open spec fn count_after_tick(len: nat, input: InputState) -> nat {
    let grown = len + spawn_count(input);
    (grown - cull_count(grown, input)) as nat
}

/// The size of a population of `len` after `ticks` ticks under the same flags.
pub open spec fn count_after_ticks(len: nat, input: InputState, ticks: nat) -> nat
    decreases ticks,
{
    if ticks == 0 {
        len
    } else {
        count_after_ticks(count_after_tick(len, input), input, (ticks - 1) as nat)
    }
}

/// `after` is `before` with this tick's additions at its end: nothing when
/// add is not held, one bunny at the cursor when it is, a burst of
/// [`INITIAL_BUNNIES`] along the top edge when control is held too.
pub open spec fn grows_to(
    before: Seq<Bunny>,
    after: Seq<Bunny>,
    input: InputState,
    window_width: int,
    cursor: Point2,
) -> bool {
    if !input.add_held {
        after == before
    } else if input.ctrl_held {
        &&& after.len() == before.len() + INITIAL_BUNNIES
        &&& after.subrange(0, before.len() as int) == before
        &&& forall|i: int|
            before.len() <= i < after.len() ==> rained(#[trigger] after[i], window_width)
    } else {
        &&& after.len() == before.len() + 1
        &&& after.drop_last() == before
        &&& after.last().position == cursor
        &&& is_launch_velocity(after.last().velocity)
    }
}

/// `after` is `before` less `k` bunnies, taken out one at a time, each from
/// any place among those still there. The others keep their order.
pub open spec fn thinned(before: Seq<Bunny>, after: Seq<Bunny>, k: nat) -> bool
    decreases k,
{
    if k == 0 {
        after == before
    } else {
        exists|i: int|
            #![trigger before.remove(i)]
            0 <= i < before.len() && thinned(before.remove(i), after, (k - 1) as nat)
    }
}

/// `after` is `before` less this tick's deletions.
pub open spec fn shrinks_to(before: Seq<Bunny>, after: Seq<Bunny>, input: InputState) -> bool {
    thinned(before, after, cull_count(before.len(), input))
}

/// `after` holds, place by place, a possible next state of each bunny of
/// `before`.
pub open spec fn moves_to(before: Seq<Bunny>, after: Seq<Bunny>, max_x: int, max_y: int) -> bool {
    &&& after.len() == before.len()
    &&& forall|i: int|
        0 <= i < before.len() ==> before[i].steps_to(#[trigger] after[i], max_x, max_y)
}

/// Every bunny is settled in the box.
pub open spec fn all_settled(s: Seq<Bunny>, max_x: int, max_y: int) -> bool {
    forall|i: int| 0 <= i < s.len() ==> (#[trigger] s[i]).settled(max_x, max_y)
}

/// Every bunny is settled in the box or fresh from its launch.
pub open spec fn all_ready(s: Seq<Bunny>, max_x: int, max_y: int) -> bool {
    forall|i: int|
        0 <= i < s.len() ==> (#[trigger] s[i]).settled(max_x, max_y) || s[i].fresh()
}

/// The largest box a population can live in: the speeds that a settled
/// bunny reaches in it stay within [`LIMIT`].
pub open spec fn box_fits(max_x: int, max_y: int) -> bool {
    &&& 0 <= max_x <= LIMIT
    &&& 0 <= max_y <= LIMIT - 10 * SUBPIXELS
}

/// One tick by way of `grown` and `culled`: the additions lead from `before`
/// to `grown`, the deletions on to `culled`, the move on to `after`.
pub open spec fn tick_path(
    before: Seq<Bunny>,
    grown: Seq<Bunny>,
    culled: Seq<Bunny>,
    after: Seq<Bunny>,
    input: InputState,
    max_x: int,
    max_y: int,
    window_width: int,
    cursor: Point2,
) -> bool {
    &&& grows_to(before, grown, input, window_width, cursor)
    &&& shrinks_to(grown, culled, input)
    &&& moves_to(culled, after, max_x, max_y)
}

/// `after` is a possible outcome of one tick on `before`: additions first,
/// then deletions, then the move of every bunny that is left.
pub open spec fn ticks_to(
    before: Seq<Bunny>,
    after: Seq<Bunny>,
    input: InputState,
    max_x: int,
    max_y: int,
    window_width: int,
    cursor: Point2,
) -> bool {
    exists|grown: Seq<Bunny>, culled: Seq<Bunny>| #[trigger]
        tick_path(before, grown, culled, after, input, max_x, max_y, window_width, cursor)
}

/// `after` is a possible outcome of `ticks` ticks in a row on `before`.
pub open spec fn runs_to(
    before: Seq<Bunny>,
    after: Seq<Bunny>,
    input: InputState,
    max_x: int,
    max_y: int,
    window_width: int,
    cursor: Point2,
    ticks: nat,
) -> bool
    decreases ticks,
{
    if ticks == 0 {
        after == before
    } else {
        exists|mid: Seq<Bunny>|
            #![trigger ticks_to(before, mid, input, max_x, max_y, window_width, cursor)]
            ticks_to(before, mid, input, max_x, max_y, window_width, cursor) && runs_to(
                mid,
                after,
                input,
                max_x,
                max_y,
                window_width,
                cursor,
                (ticks - 1) as nat,
            )
    }
}

/// Taking out one more bunny extends a thinning by one.
pub proof fn lemma_thinned_once_more(before: Seq<Bunny>, after: Seq<Bunny>, k: nat, i: int)
    requires
        thinned(before, after, k),
        0 <= i < after.len(),
    ensures
        thinned(before, after.remove(i), k + 1),
    decreases k,
{
    if k == 0 {
        assert(thinned(before.remove(i), after.remove(i), 0));
        assert(thinned(before, after.remove(i), 1));
    } else {
        let j = choose|j: int|
            #![trigger before.remove(j)]
            0 <= j < before.len() && thinned(before.remove(j), after, (k - 1) as nat);
        lemma_thinned_once_more(before.remove(j), after, (k - 1) as nat, i);
        assert(thinned(before.remove(j), after.remove(i), k));
    }
}

/// A thinning by `k` takes exactly `k` bunnies, and every bunny that is left
/// was there before.
pub proof fn lemma_thinned_keeps(before: Seq<Bunny>, after: Seq<Bunny>, k: nat)
    requires
        thinned(before, after, k),
    ensures
        k <= before.len(),
        after.len() == before.len() - k,
        forall|i: int| 0 <= i < after.len() ==> before.contains(#[trigger] after[i]),
    decreases k,
{
    if k > 0 {
        let j = choose|j: int|
            #![trigger before.remove(j)]
            0 <= j < before.len() && thinned(before.remove(j), after, (k - 1) as nat);
        let rest = before.remove(j);
        lemma_thinned_keeps(rest, after, (k - 1) as nat);
        assert forall|i: int| 0 <= i < after.len() implies before.contains(#[trigger] after[i]) by {
            let m = choose|m: int| 0 <= m < rest.len() && rest[m] == after[i];
            if m < j {
                assert(before[m] == after[i]);
            } else {
                assert(before[m + 1] == after[i]);
            }
        }
    }
}

/// The additions of a tick: with add held, one bunny at the cursor, or, with
/// control held too, [`INITIAL_BUNNIES`] bunnies along the top edge, each at
/// a place drawn across the window's width.
pub fn spawn(
    bunnies: &mut Vec<Bunny>,
    input: InputState,
    window_width: i64,
    cursor: Point2,
    rng: &mut ThreadRng,
)
    requires
        input.add_held && input.ctrl_held ==> window_width > 0,
    ensures
        grows_to(old(bunnies)@, final(bunnies)@, input, window_width as int, cursor),
        final(bunnies)@.len() == old(bunnies)@.len() + spawn_count(input),
{
    let ghost before = bunnies@;
    if input.add_held {
        if input.ctrl_held {
            let mut added: usize = 0;
            while added < INITIAL_BUNNIES
                invariant
                    added <= INITIAL_BUNNIES,
                    window_width > 0,
                    bunnies@.len() == before.len() + added,
                    bunnies@.subrange(0, before.len() as int) =~= before,
                    forall|i: int|
                        before.len() <= i < bunnies@.len() ==> rained(
                            #[trigger] bunnies@[i],
                            window_width as int,
                        ),
                decreases INITIAL_BUNNIES - added,
            {
                let x: u64 = draw_below(rng, window_width as u64);
                let bunny = Bunny::new(x as i64, 0, rng);
                bunnies.push(bunny);
                added = added + 1;
                assert(bunnies@.subrange(0, before.len() as int) =~= before);
            }
        } else {
            let bunny = Bunny::new(cursor.x, cursor.y, rng);
            bunnies.push(bunny);
            assert(bunnies@.drop_last() =~= before);
        }
    }
}

/// The deletions of a tick: with delete held, one bunny from a place drawn
/// among all, if there is any, or, with control held too, up to
/// [`INITIAL_BUNNIES`] bunnies, each from a place drawn among those that are
/// still there.
pub fn cull(bunnies: &mut Vec<Bunny>, input: InputState, rng: &mut ThreadRng)
    ensures
        shrinks_to(old(bunnies)@, final(bunnies)@, input),
        final(bunnies)@.len() == old(bunnies)@.len() - cull_count(old(bunnies)@.len(), input),
{
    let ghost before = bunnies@;
    let bunny_count = bunnies.len();
    if input.delete_held {
        if input.ctrl_held {
            let count = if bunny_count > INITIAL_BUNNIES {
                INITIAL_BUNNIES
            } else {
                bunny_count
            };
            let mut removed: usize = 0;
            while removed < count
                invariant
                    removed <= count <= before.len(),
                    bunnies@.len() == before.len() - removed,
                    thinned(before, bunnies@, removed as nat),
                decreases count - removed,
            {
                let index = draw_below(rng, bunnies.len() as u64) as usize;
                proof {
                    lemma_thinned_once_more(before, bunnies@, removed as nat, index as int);
                }
                bunnies.remove(index);
                removed = removed + 1;
            }
        } else if bunny_count > 0 {
            let index = draw_below(rng, bunny_count as u64) as usize;
            proof {
                lemma_thinned_once_more(before, bunnies@, 0, index as int);
            }
            bunnies.remove(index);
        }
    }
}

/// Moves every bunny by one tick, in the order in which they are held.
pub fn integrate_all(bunnies: &mut Vec<Bunny>, max_x: i64, max_y: i64, rng: &mut ThreadRng)
    requires
        0 <= max_x,
        0 <= max_y,
        forall|i: int| 0 <= i < old(bunnies)@.len() ==> (#[trigger] old(bunnies)@[i]).in_range(),
    ensures
        moves_to(old(bunnies)@, final(bunnies)@, max_x as int, max_y as int),
        forall|i: int|
            0 <= i < final(bunnies)@.len() ==> (#[trigger] final(bunnies)@[i]).in_bounds(
                max_x as int,
                max_y as int,
            ),
{
    let ghost before = bunnies@;
    let mut at: usize = 0;
    while at < bunnies.len()
        invariant
            0 <= max_x,
            0 <= max_y,
            at <= bunnies@.len(),
            bunnies@.len() == before.len(),
            forall|i: int| 0 <= i < before.len() ==> (#[trigger] before[i]).in_range(),
            forall|i: int| at <= i < before.len() ==> bunnies@[i] == before[i],
            forall|i: int|
                0 <= i < at ==> before[i].steps_to(#[trigger] bunnies@[i], max_x as int, max_y as int),
            forall|i: int|
                0 <= i < at ==> (#[trigger] bunnies@[i]).in_bounds(max_x as int, max_y as int),
        decreases bunnies@.len() - at,
    {
        let mut bunny = bunnies[at];
        assert(before[at as int].in_range());
        bunny.integrate(max_x, max_y, rng);
        bunnies.set(at, bunny);
        at = at + 1;
    }
}

/// Moving a population in which every bunny is settled or fresh leaves every
/// bunny settled.
pub proof fn lemma_move_settles(before: Seq<Bunny>, after: Seq<Bunny>, max_x: int, max_y: int)
    requires
        0 <= max_x,
        0 <= max_y,
        all_ready(before, max_x, max_y),
        moves_to(before, after, max_x, max_y),
    ensures
        all_settled(after, max_x, max_y),
{
    assert forall|i: int| 0 <= i < after.len() implies (#[trigger] after[i]).settled(
        max_x,
        max_y,
    ) by {
        assert(before[i].settled(max_x, max_y) || before[i].fresh());
        lemma_step_settles(before[i], after[i], max_x, max_y);
    }
}

/// One tick of the population: the additions, then the deletions, then the
/// move of every bunny.
pub fn tick(
    bunnies: &mut Vec<Bunny>,
    input: InputState,
    max_x: i64,
    max_y: i64,
    window_width: i64,
    cursor: Point2,
    rng: &mut ThreadRng,
)
    requires
        box_fits(max_x as int, max_y as int),
        all_settled(old(bunnies)@, max_x as int, max_y as int),
        cursor.in_range(),
        within_limit(window_width as int),
        input.add_held && input.ctrl_held ==> window_width > 0,
    ensures
        ticks_to(
            old(bunnies)@,
            final(bunnies)@,
            input,
            max_x as int,
            max_y as int,
            window_width as int,
            cursor,
        ),
        final(bunnies)@.len() == count_after_tick(old(bunnies)@.len(), input),
        all_settled(final(bunnies)@, max_x as int, max_y as int),
{
    let ghost before = bunnies@;
    spawn(bunnies, input, window_width, cursor, rng);
    let ghost grown = bunnies@;
    cull(bunnies, input, rng);
    let ghost culled = bunnies@;
    proof {
        lemma_tick_keeps_ready(
            before,
            grown,
            culled,
            input,
            max_x as int,
            max_y as int,
            window_width as int,
            cursor,
        );
    }
    integrate_all(bunnies, max_x, max_y, rng);
    proof {
        lemma_move_settles(culled, bunnies@, max_x as int, max_y as int);
        assert(tick_path(
            before,
            grown,
            culled,
            bunnies@,
            input,
            max_x as int,
            max_y as int,
            window_width as int,
            cursor,
        ));
    }
}

/// After the additions and the deletions of a tick on a settled population
/// every bunny is settled or fresh, and within the limit.
pub proof fn lemma_tick_keeps_ready(
    before: Seq<Bunny>,
    grown: Seq<Bunny>,
    culled: Seq<Bunny>,
    input: InputState,
    max_x: int,
    max_y: int,
    window_width: int,
    cursor: Point2,
)
    requires
        box_fits(max_x, max_y),
        all_settled(before, max_x, max_y),
        cursor.in_range(),
        within_limit(window_width),
        grows_to(before, grown, input, window_width, cursor),
        shrinks_to(grown, culled, input),
    ensures
        all_ready(culled, max_x, max_y),
        forall|i: int| 0 <= i < culled.len() ==> (#[trigger] culled[i]).in_range(),
        culled.len() == count_after_tick(before.len(), input),
{
    assert forall|i: int| 0 <= i < grown.len() implies (#[trigger] grown[i]).settled(max_x, max_y)
        || grown[i].fresh() by {
        if i < before.len() {
            if input.add_held && input.ctrl_held {
                assert(grown.subrange(0, before.len() as int)[i] == grown[i]);
            } else if input.add_held {
                assert(grown.drop_last()[i] == grown[i]);
            }
            assert(before[i].settled(max_x, max_y));
        } else {
            assert(input.add_held);
            if input.ctrl_held {
                assert(rained(grown[i], window_width));
            } else {
                assert(grown[i] == grown.last());
            }
            assert(grown[i].fresh());
        }
    }
    lemma_thinned_keeps(grown, culled, cull_count(grown.len(), input));
    assert forall|i: int| 0 <= i < culled.len() implies ((#[trigger] culled[i]).settled(
        max_x,
        max_y,
    ) || culled[i].fresh()) && culled[i].in_range() by {
        assert(grown.contains(culled[i]));
        let m = choose|m: int| 0 <= m < grown.len() && grown[m] == culled[i];
        assert(grown[m].settled(max_x, max_y) || grown[m].fresh());
    }
}

/// A tick keeps a settled population settled, and its size is what the flags
/// say: this holds of every outcome of the draws.
pub proof fn lemma_tick_outcome(
    before: Seq<Bunny>,
    after: Seq<Bunny>,
    input: InputState,
    max_x: int,
    max_y: int,
    window_width: int,
    cursor: Point2,
)
    requires
        box_fits(max_x, max_y),
        all_settled(before, max_x, max_y),
        cursor.in_range(),
        within_limit(window_width),
        ticks_to(before, after, input, max_x, max_y, window_width, cursor),
    ensures
        all_settled(after, max_x, max_y),
        after.len() == count_after_tick(before.len(), input),
{
    let (grown, culled) = choose|grown: Seq<Bunny>, culled: Seq<Bunny>| #[trigger]
        tick_path(before, grown, culled, after, input, max_x, max_y, window_width, cursor);
    lemma_tick_keeps_ready(before, grown, culled, input, max_x, max_y, window_width, cursor);
    lemma_move_settles(culled, after, max_x, max_y);
}

/// One more tick extends a run by one.
pub proof fn lemma_runs_once_more(
    before: Seq<Bunny>,
    mid: Seq<Bunny>,
    after: Seq<Bunny>,
    input: InputState,
    max_x: int,
    max_y: int,
    window_width: int,
    cursor: Point2,
    ticks: nat,
)
    requires
        runs_to(before, mid, input, max_x, max_y, window_width, cursor, ticks),
        ticks_to(mid, after, input, max_x, max_y, window_width, cursor),
    ensures
        runs_to(before, after, input, max_x, max_y, window_width, cursor, ticks + 1),
    decreases ticks,
{
    if ticks == 0 {
        assert(runs_to(after, after, input, max_x, max_y, window_width, cursor, 0));
        assert(ticks_to(before, after, input, max_x, max_y, window_width, cursor));
        assert(runs_to(before, after, input, max_x, max_y, window_width, cursor, 1));
    } else {
        let first = choose|first: Seq<Bunny>|
            #![trigger ticks_to(before, first, input, max_x, max_y, window_width, cursor)]
            ticks_to(before, first, input, max_x, max_y, window_width, cursor) && runs_to(
                first,
                mid,
                input,
                max_x,
                max_y,
                window_width,
                cursor,
                (ticks - 1) as nat,
            );
        lemma_runs_once_more(
            first,
            mid,
            after,
            input,
            max_x,
            max_y,
            window_width,
            cursor,
            (ticks - 1) as nat,
        );
        assert(ticks_to(before, first, input, max_x, max_y, window_width, cursor));
    }
}

/// A run keeps a settled population settled, whatever the draws, and its
/// size after the run is the size that the flags give tick by tick.
pub proof fn lemma_run_outcome(
    before: Seq<Bunny>,
    after: Seq<Bunny>,
    input: InputState,
    max_x: int,
    max_y: int,
    window_width: int,
    cursor: Point2,
    ticks: nat,
)
    requires
        box_fits(max_x, max_y),
        all_settled(before, max_x, max_y),
        cursor.in_range(),
        within_limit(window_width),
        runs_to(before, after, input, max_x, max_y, window_width, cursor, ticks),
    ensures
        all_settled(after, max_x, max_y),
        after.len() == count_after_ticks(before.len(), input, ticks),
    decreases ticks,
{
    if ticks > 0 {
        let first = choose|first: Seq<Bunny>|
            #![trigger ticks_to(before, first, input, max_x, max_y, window_width, cursor)]
            ticks_to(before, first, input, max_x, max_y, window_width, cursor) && runs_to(
                first,
                after,
                input,
                max_x,
                max_y,
                window_width,
                cursor,
                (ticks - 1) as nat,
            );
        lemma_tick_outcome(before, first, input, max_x, max_y, window_width, cursor);
        lemma_run_outcome(
            first,
            after,
            input,
            max_x,
            max_y,
            window_width,
            cursor,
            (ticks - 1) as nat,
        );
    }
}

/// A burst into an empty population leaves exactly [`INITIAL_BUNNIES`]
/// bunnies, each on the top edge and within the window's width.
pub proof fn lemma_burst_from_nothing(
    after: Seq<Bunny>,
    input: InputState,
    window_width: int,
    cursor: Point2,
)
    requires
        input.add_held,
        input.ctrl_held,
        grows_to(Seq::empty(), after, input, window_width, cursor),
    ensures
        after.len() == INITIAL_BUNNIES,
        forall|i: int|
            0 <= i < after.len() ==> {
                &&& (#[trigger] after[i]).position.y == 0
                &&& 0 <= after[i].position.x < window_width
            },
{
    assert forall|i: int| 0 <= i < after.len() implies {
        &&& (#[trigger] after[i]).position.y == 0
        &&& 0 <= after[i].position.x < window_width
    } by {
        assert(rained(after[i], window_width));
    }
}

/// Add held without control adds exactly one bunny, at the pointer, and
/// leaves the others as they were.
pub proof fn lemma_single_spawn(
    before: Seq<Bunny>,
    after: Seq<Bunny>,
    input: InputState,
    window_width: int,
    cursor: Point2,
)
    requires
        input.add_held,
        !input.ctrl_held,
        grows_to(before, after, input, window_width, cursor),
    ensures
        after.len() == before.len() + 1,
        after.drop_last() == before,
        after.last().position == cursor,
        is_launch_velocity(after.last().velocity),
{
}

/// Delete held with control empties a population of at most
/// [`INITIAL_BUNNIES`] and takes exactly that many from a larger one.
pub proof fn lemma_mass_deletion(before: Seq<Bunny>, after: Seq<Bunny>, input: InputState)
    requires
        input.delete_held,
        input.ctrl_held,
        shrinks_to(before, after, input),
    ensures
        before.len() <= INITIAL_BUNNIES ==> after.len() == 0,
        before.len() > INITIAL_BUNNIES ==> after.len() == before.len() - INITIAL_BUNNIES,
{
    lemma_thinned_keeps(before, after, cull_count(before.len(), input));
}

/// Delete held without control takes one bunny if there is any, and does
/// nothing to an empty population.
pub proof fn lemma_single_deletion(before: Seq<Bunny>, after: Seq<Bunny>, input: InputState)
    requires
        input.delete_held,
        !input.ctrl_held,
        shrinks_to(before, after, input),
    ensures
        before.len() == 0 ==> after == before,
        before.len() > 0 ==> after.len() == before.len() - 1,
{
    lemma_thinned_keeps(before, after, cull_count(before.len(), input));
}

} // verus!
