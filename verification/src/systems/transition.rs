//! A transition from its first step to its last: what the animated steps of
//! the mover and the counting of Animate add up to.

use vstd::prelude::*;
use crate::components::{Action, Animation, Orientation, Position, FRAMES};
use crate::map::Tile;
use crate::systems::animate::spawn_step;
use crate::systems::collider::blocked;
use crate::systems::tick_step;
use crate::fixed;
use crate::movement::{translation_spec, Direction, Facing};
use crate::systems::animate::animate_step;
use crate::systems::mover::{instant_step, move_step};
use crate::world::EntityState;

verus! {

/// The state of an entity after `rounds` rounds, each a pass of the mover
/// and the pass of Animate that follows it in the next tick.
pub open spec fn run(s: EntityState, rounds: nat) -> EntityState
    decreases rounds,
{
    if rounds == 0 {
        s
    } else {
        animate_step(move_step(run(s, (rounds - 1) as nat)))
    }
}

/// Whether `s` is about to take the first step of a transition: it is in a
/// transition that has counted no tick, of at least one frame and of no
/// more frames than a whole has sub-steps.
pub open spec fn begins(s: EntityState) -> bool {
    &&& s.in_transition()
    &&& s.animation->0.progress == 0
    &&& 1 <= s.animation->0.frames <= fixed::UNIT
}

/// Whether a whole step from `p` along any axis stays in range.
pub open spec fn has_room(p: Position) -> bool {
    &&& -fixed::LIMIT + fixed::UNIT <= p.x <= fixed::LIMIT - fixed::UNIT
    &&& -fixed::LIMIT + fixed::UNIT <= p.y <= fixed::LIMIT - fixed::UNIT
    &&& -fixed::LIMIT + fixed::UNIT <= p.z <= fixed::LIMIT - fixed::UNIT
}

/// What the move that `s` asks for comes to when it is made at once.
pub open spec fn destination(s: EntityState) -> Option<Position> {
    instant_step(EntityState { animation: None, ..s }).position
}

/// What the turn that `s` asks for comes to when it is made at once.
pub open spec fn heading(s: EntityState) -> Option<Orientation> {
    instant_step(EntityState { animation: None, ..s }).orientation
}

/// The position of `s` after `steps` of the parts that its animation cuts a
/// whole step into, none of them snapped.
pub open spec fn part_way(s: EntityState, steps: nat) -> Position {
    s.position->0.translate_spec(
        translation_spec(
            s.orientation->0.facing,
            s.intent->0.action->Move_0,
            steps * fixed::reciprocal_spec(s.animation->0.frames as int),
        ),
        false,
    )
}

/// `p` displaced by `amount` in `direction`, seen from `facing`; snapped to
/// the grid with `clip`.
pub open spec fn displaced(
    p: Position,
    facing: Facing,
    direction: Direction,
    amount: int,
    clip: bool,
) -> Position {
    p.translate_spec(translation_spec(facing, direction, amount), clip)
}

/// Two displacements the same way, neither snapped, make one by the sum
/// of their amounts, as long as that is no more than a whole step.
proof fn lemma_displaced_twice(
    p: Position,
    facing: Facing,
    direction: Direction,
    first: int,
    second: int,
)
    requires
        has_room(p),
        0 <= first,
        0 <= second,
        first + second <= fixed::UNIT,
    ensures
        displaced(displaced(p, facing, direction, first, false), facing, direction, second, false)
            == displaced(p, facing, direction, first + second, false),
{
}

/// A displacement that is snapped after one that is not ends on the grid a
/// whole step away, if the two amounts together are more than half a
/// step and no more than a whole one.
proof fn lemma_displaced_home(
    p: Position,
    facing: Facing,
    direction: Direction,
    first: int,
    second: int,
)
    requires
        has_room(p),
        p.on_grid(),
        0 <= first,
        0 <= second,
        fixed::HALF < first + second <= fixed::UNIT,
    ensures
        displaced(displaced(p, facing, direction, first, false), facing, direction, second, true)
            == displaced(p, facing, direction, fixed::UNIT as int, true),
        displaced(p, facing, direction, fixed::UNIT as int, true).on_grid(),
{
    let whole = first + second;
    fixed::lemma_round_nearest(p.x + whole, p.x + fixed::UNIT);
    fixed::lemma_round_nearest(p.x - whole, p.x - fixed::UNIT);
    fixed::lemma_round_nearest(p.z + whole, p.z + fixed::UNIT);
    fixed::lemma_round_nearest(p.z - whole, p.z - fixed::UNIT);
    fixed::lemma_round_whole(p.x as int);
    fixed::lemma_round_whole(p.y as int);
    fixed::lemma_round_whole(p.z as int);
    fixed::lemma_round_whole(p.x + fixed::UNIT);
    fixed::lemma_round_whole(p.x - fixed::UNIT);
    fixed::lemma_round_whole(p.z + fixed::UNIT);
    fixed::lemma_round_whole(p.z - fixed::UNIT);
}

/// One round of a move under way: the position goes one part further,
/// unsnapped, and the animation counts one tick.
proof fn lemma_move_round(s: EntityState, at: Position, progress: u32)
    requires
        s.in_transition(),
        s.intent->0.action is Move,
        progress + 1 < s.animation->0.frames,
    ensures
        animate_step(
            move_step(
                EntityState {
                    position: Some(at),
                    animation: Some(Animation { progress, ..s.animation->0 }),
                    ..s
                },
            ),
        ) == (EntityState {
            position: Some(
                displaced(
                    at,
                    s.orientation->0.facing,
                    s.intent->0.action->Move_0,
                    fixed::reciprocal_spec(s.animation->0.frames as int),
                    false,
                ),
            ),
            animation: Some(Animation { progress: (progress + 1) as u32, ..s.animation->0 }),
            ..s
        }),
{
}

/// The final round of a move: the position goes one part further and is
/// snapped, and the animation and the intent go.
proof fn lemma_move_final_round(s: EntityState, at: Position, progress: u32)
    requires
        s.in_transition(),
        s.intent->0.action is Move,
        progress + 1 == s.animation->0.frames,
    ensures
        animate_step(
            move_step(
                EntityState {
                    position: Some(at),
                    animation: Some(Animation { progress, ..s.animation->0 }),
                    ..s
                },
            ),
        ) == (EntityState {
            position: Some(
                displaced(
                    at,
                    s.orientation->0.facing,
                    s.intent->0.action->Move_0,
                    fixed::reciprocal_spec(s.animation->0.frames as int),
                    true,
                ),
            ),
            intent: None,
            animation: None,
            ..s
        }),
{
}

proof fn lemma_move_under_way(s: EntityState, rounds: nat)
    requires
        begins(s),
        s.intent->0.action is Move,
        has_room(s.position->0),
        rounds < s.animation->0.frames,
    ensures
        run(s, rounds) == (EntityState {
            position: Some(part_way(s, rounds)),
            animation: Some(Animation { progress: rounds as u32, ..s.animation->0 }),
            ..s
        }),
    decreases rounds,
{
    let frames = s.animation->0.frames as int;
    let part = fixed::reciprocal_spec(frames);
    let facing = s.orientation->0.facing;
    let direction = s.intent->0.action->Move_0;
    if rounds == 0 {
        assert(0 * part == 0) by (nonlinear_arith);
        assert(part_way(s, 0) == s.position->0);
        assert(run(s, 0) == s);
    } else {
        let earlier = (rounds - 1) as nat;
        lemma_move_under_way(s, earlier);
        fixed::lemma_parts(frames, earlier as int);
        fixed::lemma_parts(frames, rounds as int);
        let done = earlier * part;
        assert(rounds * part == done + part);
        lemma_displaced_twice(s.position->0, facing, direction, done, part);
        lemma_move_round(s, part_way(s, earlier), earlier as u32);
        assert(part_way(s, earlier) == displaced(s.position->0, facing, direction, done, false));
        assert(part_way(s, rounds) == displaced(
            s.position->0,
            facing,
            direction,
            done + part,
            false,
        ));
    }
}

/// A move that is animated ends where the same move made at once ends.
///
/// An entity on the grid, with room for a whole step, that takes the first
/// step of a move is, after as many rounds as its animation has frames,
/// exactly at the target of the move, and has neither intent nor
/// animation left; nothing else of it has changed.
pub proof fn lemma_move_completes(s: EntityState)
    requires
        begins(s),
        s.intent->0.action is Move,
        s.position->0.on_grid(),
        has_room(s.position->0),
    ensures
        run(s, s.animation->0.frames as nat) == (EntityState {
            position: destination(s),
            intent: None,
            animation: None,
            ..s
        }),
        destination(s) is Some && destination(s)->0.on_grid(),
{
    let frames = s.animation->0.frames as int;
    let earlier = (frames - 1) as nat;
    let part = fixed::reciprocal_spec(frames);
    let facing = s.orientation->0.facing;
    let direction = s.intent->0.action->Move_0;
    lemma_move_under_way(s, earlier);
    fixed::lemma_parts(frames, earlier as int);
    fixed::lemma_parts(frames, frames);
    let done = earlier * part;
    assert(frames * part == done + part);
    lemma_displaced_home(s.position->0, facing, direction, done, part);
    lemma_move_final_round(s, part_way(s, earlier), earlier as u32);
    assert(part_way(s, earlier) == displaced(s.position->0, facing, direction, done, false));
    assert(destination(s) == Some(
        displaced(s.position->0, facing, direction, fixed::UNIT as int, true),
    ));
    assert(run(s, frames as nat) == animate_step(move_step(run(s, earlier))));
}

proof fn lemma_turn_under_way(s: EntityState, rounds: nat)
    requires
        begins(s),
        s.intent->0.action is Turn,
        rounds < s.animation->0.frames,
    ensures
        run(s, rounds) == (EntityState {
            orientation: Some(
                Orientation {
                    facing: s.orientation->0.facing,
                    yaw: run(s, rounds).orientation->0.yaw,
                },
            ),
            animation: Some(Animation { progress: rounds as u32, ..s.animation->0 }),
            ..s
        }),
    decreases rounds,
{
    if rounds > 0 {
        lemma_turn_under_way(s, (rounds - 1) as nat);
    }
}

/// A turn that is animated ends where the same turn made at once ends.
///
/// An entity that takes the first step of a turn is, after as many rounds as
/// its animation has frames, at rest on the facing that the turn leads to,
/// and has neither intent nor animation left; nothing else of it has
/// changed.
pub proof fn lemma_turn_completes(s: EntityState)
    requires
        begins(s),
        s.intent->0.action is Turn,
    ensures
        run(s, s.animation->0.frames as nat) == (EntityState {
            orientation: heading(s),
            intent: None,
            animation: None,
            ..s
        }),
        heading(s) == Some(
            Orientation::at(s.orientation->0.facing.turn_spec(s.intent->0.action->Turn_0)),
        ),
{
    lemma_turn_under_way(s, (s.animation->0.frames - 1) as nat);
}

/// The state of an entity after one tick for each of `actions`, in order.
pub open spec fn ticks<M>(s: EntityState, actions: Seq<Action>, tiles: Seq<Tile<M>>) -> EntityState
    decreases actions.len(),
{
    if actions.len() == 0 {
        s
    } else {
        tick_step(ticks(s, actions.drop_last(), tiles), actions.last(), tiles)
    }
}

/// Whether the intent of `s` is a move or a turn.
pub open spec fn steers(s: EntityState) -> bool {
    s.intent is Some && (s.intent->0.action is Move || s.intent->0.action is Turn)
}

/// For an entity in a transition a tick is one pass of Animate and one of
/// the mover: the action of the tick and the tiles do not matter to it.
proof fn lemma_tick_in_transition<M>(x: EntityState, action: Action, tiles: Seq<Tile<M>>)
    requires
        x.in_transition(),
        steers(x),
    ensures
        tick_step(x, action, tiles) == move_step(animate_step(x)),
{
}

/// The tick in which a move or a turn begins: the animation is made, and the
/// first step is taken.
proof fn lemma_first_tick<M>(s: EntityState, action: Action, tiles: Seq<Tile<M>>)
    requires
        s.awaits_move(),
        steers(s),
        !blocked(s, tiles),
    ensures
        tick_step(s, action, tiles) == move_step(spawn_step(s)),
        begins(spawn_step(s)),
        spawn_step(s).animation->0.frames == FRAMES,
        spawn_step(s) == (EntityState { animation: spawn_step(s).animation, ..s }),
{
}

proof fn lemma_move_ticks_under_way<M>(s: EntityState, actions: Seq<Action>, tiles: Seq<Tile<M>>)
    requires
        s.awaits_move(),
        s.intent->0.action is Move,
        !blocked(s, tiles),
        has_room(s.position->0),
        1 <= actions.len() <= FRAMES,
    ensures
        ticks(s, actions, tiles) == move_step(
            run(spawn_step(s), (actions.len() - 1) as nat),
        ),
    decreases actions.len(),
{
    let begun = spawn_step(s);
    let earlier = actions.drop_last();
    lemma_first_tick(s, actions.last(), tiles);
    if actions.len() == 1 {
        assert(ticks(s, earlier, tiles) == s);
    } else {
        lemma_move_ticks_under_way(s, earlier, tiles);
        let rounds = (earlier.len() - 1) as nat;
        lemma_move_under_way(begun, rounds);
        lemma_tick_in_transition(move_step(run(begun, rounds)), actions.last(), tiles);
        assert(run(begun, rounds + 1) == animate_step(move_step(run(begun, rounds))));
    }
}

/// Tick by tick, a move that is free ends where the same move made at
/// once would end.
///
/// An entity on the grid, with room for a whole step, that awaits a move
/// which no tile blocks is, after one tick more than a new animation has
/// frames and whatever the actions of those ticks, exactly at the target of
/// the move; it has neither intent nor animation left, and nothing else of
/// it has changed.
pub proof fn lemma_move_lands<M>(s: EntityState, actions: Seq<Action>, tiles: Seq<Tile<M>>)
    requires
        s.awaits_move(),
        s.intent->0.action is Move,
        !blocked(s, tiles),
        s.position->0.on_grid(),
        has_room(s.position->0),
        actions.len() == FRAMES + 1,
    ensures
        ticks(s, actions, tiles) == (EntityState {
            position: instant_step(s).position,
            intent: None,
            ..s
        }),
        instant_step(s).position->0.on_grid(),
{
    let begun = spawn_step(s);
    let earlier = actions.drop_last();
    lemma_first_tick(s, actions.last(), tiles);
    lemma_move_ticks_under_way(s, earlier, tiles);
    let rounds = (FRAMES - 1) as nat;
    lemma_move_under_way(begun, rounds);
    lemma_tick_in_transition(move_step(run(begun, rounds)), actions.last(), tiles);
    lemma_move_completes(begun);
    assert(run(begun, FRAMES as nat) == animate_step(move_step(run(begun, rounds))));
    assert(destination(begun) == instant_step(s).position);
}

proof fn lemma_turn_ticks_under_way<M>(s: EntityState, actions: Seq<Action>, tiles: Seq<Tile<M>>)
    requires
        s.awaits_move(),
        s.intent->0.action is Turn,
        1 <= actions.len() <= FRAMES,
    ensures
        ticks(s, actions, tiles) == move_step(
            run(spawn_step(s), (actions.len() - 1) as nat),
        ),
    decreases actions.len(),
{
    let begun = spawn_step(s);
    let earlier = actions.drop_last();
    lemma_first_tick(s, actions.last(), tiles);
    if actions.len() == 1 {
        assert(ticks(s, earlier, tiles) == s);
    } else {
        lemma_turn_ticks_under_way(s, earlier, tiles);
        let rounds = (earlier.len() - 1) as nat;
        lemma_turn_under_way(begun, rounds);
        lemma_tick_in_transition(move_step(run(begun, rounds)), actions.last(), tiles);
        assert(run(begun, rounds + 1) == animate_step(move_step(run(begun, rounds))));
    }
}

/// Tick by tick, a turn ends where the same turn made at once would end.
///
/// An entity that awaits a turn is, after one tick more than a new
/// animation has frames and whatever the actions of those ticks, at rest on
/// the facing that the turn leads to; it has neither intent nor animation
/// left, and nothing else of it has changed.
pub proof fn lemma_turn_lands<M>(s: EntityState, actions: Seq<Action>, tiles: Seq<Tile<M>>)
    requires
        s.awaits_move(),
        s.intent->0.action is Turn,
        actions.len() == FRAMES + 1,
    ensures
        ticks(s, actions, tiles) == (EntityState {
            orientation: instant_step(s).orientation,
            intent: None,
            ..s
        }),
        instant_step(s).orientation == Some(
            Orientation::at(s.orientation->0.facing.turn_spec(s.intent->0.action->Turn_0)),
        ),
{
    let begun = spawn_step(s);
    let earlier = actions.drop_last();
    lemma_first_tick(s, actions.last(), tiles);
    lemma_turn_ticks_under_way(s, earlier, tiles);
    let rounds = (FRAMES - 1) as nat;
    lemma_turn_under_way(begun, rounds);
    lemma_tick_in_transition(move_step(run(begun, rounds)), actions.last(), tiles);
    lemma_turn_completes(begun);
    assert(run(begun, FRAMES as nat) == animate_step(move_step(run(begun, rounds))));
    assert(heading(begun) == instant_step(s).orientation);
}

} // verus!
