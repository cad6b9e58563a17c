//! What holds of the rules for every input, proved from their definitions.

use crate::collision::{
    beyond_reach, collect_star_spec, enemy_player_collision_spec, uncollected, ENEMY_REACH,
    STAR_REACH,
};
use crate::frame::{
    frame_collided_spec, frame_game_over_report, frame_moved_spec, frame_spec, FrameDraws,
};
use crate::geometry::{outside_axis, within_reach_spec, Vec2, Viewport};
use crate::movement::{bounced, contained, inside};
use crate::protocol::{ends_run, handle_game_over_spec};
use crate::timer::{lemma_remainder, ticked, Timer};
use crate::world::{
    direction_valid, Enemy, GameOver, PressedKeys, RunState, Star, WorldView, ENEMY_SIZE,
    PLAYER_SIZE, STAR_SIZE,
};
use vstd::prelude::*;

verus! {

/// A position that has been held inside the viewport lies within the margins
/// on both axes, whenever the viewport is at least as large as the entity.
pub proof fn law_contained_is_inside(position: Vec2, half: int, viewport: Viewport)
    requires
        viewport.valid(),
        0 <= half,
        2 * half <= viewport.width,
        2 * half <= viewport.height,
    ensures
        inside(contained(position, half, viewport), half, viewport),
{
}

/// The edge test flips the sign of a direction component exactly when the
/// enemy's coordinate on that axis lies outside the margins; the other axis
/// plays no part, and the position stays.
pub proof fn law_bounce_flips_sign(e: Enemy, viewport: Viewport)
    requires
        direction_valid(e.direction),
    ensures
        bounced(e, viewport).position == e.position,
        outside_axis(e.position.x as int, ENEMY_SIZE as int / 2, viewport.width as int) ==> bounced(
            e,
            viewport,
        ).direction.x == -e.direction.x,
        !outside_axis(e.position.x as int, ENEMY_SIZE as int / 2, viewport.width as int)
            ==> bounced(e, viewport).direction.x == e.direction.x,
        outside_axis(e.position.y as int, ENEMY_SIZE as int / 2, viewport.height as int)
            ==> bounced(e, viewport).direction.y == -e.direction.y,
        !outside_axis(e.position.y as int, ENEMY_SIZE as int / 2, viewport.height as int)
            ==> bounced(e, viewport).direction.y == e.direction.y,
{
}

/// Whether the score and the stars of `w` leave room for one more frame.
pub open spec fn score_fits(w: WorldView) -> bool {
    w.score.value + w.stars.len() + 1 <= u32::MAX
}

/// One frame never lowers the score, and raises it by exactly the number of
/// stars that its collection removed. Score and stars together grow by no
/// more than the one star that a frame may spawn.
pub proof fn law_frame_score(
    w: WorldView,
    keys: PressedKeys,
    delta: u64,
    viewport: Viewport,
    d: FrameDraws,
)
    requires
        score_fits(w),
    ensures
        frame_spec(w, keys, delta, viewport, d).score.value >= w.score.value,
        frame_spec(w, keys, delta, viewport, d).score.value - w.score.value == frame_moved_spec(
            w,
            keys,
            delta,
            viewport,
            d,
        ).stars.len() - frame_spec(w, keys, delta, viewport, d).stars.len(),
        frame_spec(w, keys, delta, viewport, d).score.value + frame_spec(
            w,
            keys,
            delta,
            viewport,
            d,
        ).stars.len() <= w.score.value + w.stars.len() + 1,
{
    let moved = frame_moved_spec(w, keys, delta, viewport, d);
    assert(moved.score == w.score);
    assert(moved.stars.len() <= w.stars.len() + 1);
    if let Some(p) = moved.player {
        moved.stars.lemma_filter_len(beyond_reach(p.position));
    }
}

/// Whether `b` is the world that some frame makes of `a`.
pub open spec fn frame_step(a: WorldView, b: WorldView) -> bool {
    exists|keys: PressedKeys, delta: u64, viewport: Viewport, d: FrameDraws|
        b == #[trigger] frame_spec(a, keys, delta, viewport, d)
}

/// Across any sequence of frames the score never decreases.
pub proof fn law_score_never_decreases(trace: Seq<WorldView>, i: int, j: int)
    requires
        forall|k: int| 0 <= k < trace.len() - 1 ==> frame_step(#[trigger] trace[k], trace[k + 1]),
        forall|k: int| 0 <= k < trace.len() ==> score_fits(#[trigger] trace[k]),
        0 <= i <= j < trace.len(),
    ensures
        trace[i].score.value <= trace[j].score.value,
    decreases j - i,
{
    if i < j {
        law_score_never_decreases(trace, i, j - 1);
        let a = trace[j - 1];
        assert(frame_step(a, trace[j - 1 + 1]));
        let (keys, delta, viewport, d) = choose|
            keys: PressedKeys,
            delta: u64,
            viewport: Viewport,
            d: FrameDraws,
        |
            trace[j] == #[trigger] frame_spec(a, keys, delta, viewport, d);
        law_frame_score(a, keys, delta, viewport, d);
    }
}

/// Where every star lies beyond reach, all of them stay.
pub proof fn law_nothing_in_reach(stars: Seq<Star>, p: Vec2)
    requires
        forall|k: int|
            0 <= k < stars.len() ==> !within_reach_spec(
                p,
                (#[trigger] stars[k]).position,
                STAR_REACH as int,
            ),
    ensures
        uncollected(stars, p) == stars,
    decreases stars.len(),
{
    reveal(Seq::filter);
    if stars.len() > 0 {
        law_nothing_in_reach(stars.drop_last(), p);
        assert(stars.drop_last().push(stars.last()) =~= stars);
    } else {
        assert(uncollected(stars, p) =~= stars);
    }
}

/// Where exactly one star lies within reach, collection removes that star
/// and no other: the rest stay in their order.
pub proof fn law_collect_removes_only_the_touched(stars: Seq<Star>, p: Vec2, i: int)
    requires
        0 <= i < stars.len(),
        within_reach_spec(p, stars[i].position, STAR_REACH as int),
        forall|k: int|
            0 <= k < stars.len() && k != i ==> !within_reach_spec(
                p,
                (#[trigger] stars[k]).position,
                STAR_REACH as int,
            ),
    ensures
        uncollected(stars, p) == stars.remove(i),
    decreases stars.len(),
{
    reveal(Seq::filter);
    let front = stars.drop_last();
    if i == stars.len() - 1 {
        law_nothing_in_reach(front, p);
        assert(stars.remove(i) =~= front);
    } else {
        law_collect_removes_only_the_touched(front, p, i);
        assert(front.remove(i).push(stars.last()) =~= stars.remove(i));
    }
}

/// No star that collection has left lies within reach.
pub proof fn law_uncollected_beyond_reach(stars: Seq<Star>, p: Vec2, k: int)
    requires
        0 <= k < uncollected(stars, p).len(),
    ensures
        !within_reach_spec(p, uncollected(stars, p)[k].position, STAR_REACH as int),
{
    stars.lemma_filter_pred(beyond_reach(p), k);
}

/// A second collection with the player in the same place finds nothing: the
/// stars and the score stay as the first collection left them.
pub proof fn law_collect_twice(w: WorldView)
    requires
        w.score.value + w.stars.len() <= u32::MAX,
    ensures
        collect_star_spec(collect_star_spec(w)) == collect_star_spec(w),
{
    if let Some(p) = w.player {
        let rest = uncollected(w.stars, p.position);
        w.stars.lemma_filter_len(beyond_reach(p.position));
        assert forall|k: int| 0 <= k < rest.len() implies !within_reach_spec(
            p.position,
            (#[trigger] rest[k]).position,
            STAR_REACH as int,
        ) by {
            law_uncollected_beyond_reach(w.stars, p.position, k);
        }
        law_nothing_in_reach(rest, p.position);
    }
}

/// A fatal collision leaves exactly one signal: the player is gone, so a
/// second test changes nothing, however many enemies touch the place.
pub proof fn law_one_signal(w: WorldView)
    ensures
        enemy_player_collision_spec(enemy_player_collision_spec(w)) == enemy_player_collision_spec(
            w,
        ),
        enemy_player_collision_spec(w) != w ==> enemy_player_collision_spec(w).player.is_none()
            && enemy_player_collision_spec(w).pending == Some(GameOver { score: w.score.value }),
{
}

/// Handling a signal asks for termination at most once: after it no signal
/// waits, a run that is over stays over, and a second handling ends nothing.
pub proof fn law_one_termination(w: WorldView)
    ensures
        !ends_run(handle_game_over_spec(w)),
        ends_run(w) ==> handle_game_over_spec(w).state == RunState::Over,
        w.state == RunState::Over ==> handle_game_over_spec(w).state == RunState::Over,
        w.state == RunState::Over ==> !ends_run(w),
{
}

/// A run that is over stays over through every frame and never reports its
/// end again.
pub proof fn law_over_is_final(
    w: WorldView,
    keys: PressedKeys,
    delta: u64,
    viewport: Viewport,
    d: FrameDraws,
)
    requires
        w.state == RunState::Over,
    ensures
        frame_spec(w, keys, delta, viewport, d).state == RunState::Over,
        frame_game_over_report(frame_collided_spec(w, keys, delta, viewport, d)).is_none(),
{
}

/// A player that is gone is never brought back by a frame, and no frame
/// without a player leaves a signal or changes the score.
pub proof fn law_player_stays_gone(
    w: WorldView,
    keys: PressedKeys,
    delta: u64,
    viewport: Viewport,
    d: FrameDraws,
)
    requires
        w.player.is_none(),
    ensures
        frame_spec(w, keys, delta, viewport, d).player.is_none(),
        frame_spec(w, keys, delta, viewport, d).score == w.score,
        frame_collided_spec(w, keys, delta, viewport, d).pending == w.pending,
{
}

/// Each reach is the sum of the two half sizes.
pub proof fn law_reach_is_sum_of_half_sizes()
    ensures
        ENEMY_REACH == PLAYER_SIZE / 2 + ENEMY_SIZE / 2,
        STAR_REACH == PLAYER_SIZE / 2 + STAR_SIZE / 2,
{
}

/// The timer after a sequence of ticks.
pub open spec fn run(t: Timer, deltas: Seq<u64>) -> Timer
    decreases deltas.len(),
{
    if deltas.len() == 0 {
        t
    } else {
        ticked(run(t, deltas.drop_last()), deltas.last())
    }
}

/// The number of ticks of a sequence after which the timer was ready.
pub open spec fn ready_count(t: Timer, deltas: Seq<u64>) -> nat
    decreases deltas.len(),
{
    if deltas.len() == 0 {
        0
    } else {
        ready_count(t, deltas.drop_last()) + if run(t, deltas).finished {
            1nat
        } else {
            0nat
        }
    }
}

/// The number of periods that the ticks of a sequence completed.
pub open spec fn periods(t: Timer, deltas: Seq<u64>) -> nat
    decreases deltas.len(),
{
    if deltas.len() == 0 {
        0
    } else {
        periods(t, deltas.drop_last()) + ((run(t, deltas.drop_last()).elapsed + deltas.last()) / (
        t.interval as int)) as nat
    }
}

/// The time that a sequence of ticks adds up to.
pub open spec fn total(deltas: Seq<u64>) -> nat
    decreases deltas.len(),
{
    if deltas.len() == 0 {
        0
    } else {
        total(deltas.drop_last()) + deltas.last() as nat
    }
}

/// Over any sequence of ticks the timer accounts for all the time: what it
/// still holds plus one interval for each completed period is the time it
/// started with plus the time of the ticks. It is ready at most once per
/// interval of that time, and never holds a full interval.
pub proof fn law_timer_accounts_for_time(t: Timer, deltas: Seq<u64>)
    requires
        t.wf(),
    ensures
        run(t, deltas).wf(),
        run(t, deltas).interval == t.interval,
        run(t, deltas).elapsed + t.interval * periods(t, deltas) == t.elapsed + total(deltas),
        ready_count(t, deltas) <= periods(t, deltas),
        ready_count(t, deltas) * t.interval <= t.elapsed + total(deltas),
    decreases deltas.len(),
{
    if deltas.len() > 0 {
        let front = deltas.drop_last();
        law_timer_accounts_for_time(t, front);
        let before = run(t, front);
        lemma_remainder(before.elapsed as int + deltas.last() as int, t.interval as int);
        let q = (before.elapsed + deltas.last()) / (t.interval as int);
        let c = periods(t, front) as int;
        let n = t.interval as int;
        assert(n * (c + q) == n * c + n * q) by (nonlinear_arith);
    }
    let r = ready_count(t, deltas) as int;
    let c = periods(t, deltas) as int;
    let n = t.interval as int;
    assert(r * n <= n * c) by (nonlinear_arith)
        requires
            0 <= r <= c,
            n > 0,
    ;
}

/// A tick is ready exactly when the time held before it and the time of the
/// tick together reach the interval.
pub proof fn law_ready_when_interval_reached(t: Timer, delta: u64)
    requires
        t.wf(),
    ensures
        ticked(t, delta).finished <==> t.elapsed + delta >= t.interval,
        ticked(t, delta).wf(),
{
    lemma_remainder(t.elapsed as int + delta as int, t.interval as int);
}

} // verus!
