//! Properties of the movement rules that hold for every position.
use vstd::prelude::*;

use super::entities::{EntityOp, MovableEntity};
use super::map_navigator::{in_field, key_step, monster_count, wall_cell, MapNavigator};
use super::utils::{position_add, position_add_req, within_cell, Position};
use crate::common::Keys;

verus! {

/// A step never leaves an entity between cells in a way the rules do not allow: from a
/// position within its cell, the position after any key's step is within its cell again.
pub proof fn law_step_stays_within_cell(p: Position, key: Keys)
    requires
        within_cell(p),
    ensures
        within_cell(position_add(p, key_step(key))),
{
}

/// An entity between two cells can only go on or back along the axis it moves on: a
/// step along the other axis leaves the position as it is.
pub proof fn law_turn_refused_between_cells(p: Position, key: Keys)
    requires
        (p.scalar_x != 0 && (key == Keys::Up || key == Keys::Down)) || (p.scalar_y != 0 && (key == Keys::Left
            || key == Keys::Right)),
    ensures
        position_add(p, key_step(key)) == p,
{
}

/// The position after `k` steps of `key` from `p`.
pub open spec fn after_steps(p: Position, key: Keys, k: nat) -> Position
    decreases k,
{
    if k == 0 {
        p
    } else {
        position_add(after_steps(p, key, (k - 1) as nat), key_step(key))
    }
}

/// Where `k` steps of `key` from the start of cell (`p.x`, `p.y`) lead, for `k` up to 10.
pub open spec fn crossing(p: Position, key: Keys, k: int) -> Position {
    if k == 0 {
        p
    } else if k < 10 {
        match key {
            Keys::Right => Position { scalar_x: k as isize, ..p },
            Keys::Down => Position { scalar_y: k as isize, ..p },
            Keys::Left => Position { x: (p.x - 1) as isize, scalar_x: (10 - k) as isize, ..p },
            Keys::Up => Position { y: (p.y - 1) as isize, scalar_y: (10 - k) as isize, ..p },
        }
    } else {
        match key {
            Keys::Right => Position { x: (p.x + 1) as isize, ..p },
            Keys::Down => Position { y: (p.y + 1) as isize, ..p },
            Keys::Left => Position { x: (p.x - 1) as isize, ..p },
            Keys::Up => Position { y: (p.y - 1) as isize, ..p },
        }
    }
}

proof fn lemma_crossing(p: Position, key: Keys, k: nat)
    requires
        k <= 10,
        p.scalar_x == 0,
        p.scalar_y == 0,
        isize::MIN < p.x < isize::MAX,
        isize::MIN < p.y < isize::MAX,
    ensures
        after_steps(p, key, k) == crossing(p, key, k as int),
        k > 0 ==> position_add_req(after_steps(p, key, (k - 1) as nat), key_step(key)),
    decreases k,
{
    if k > 0 {
        lemma_crossing(p, key, (k - 1) as nat);
    }
}

/// `PIXEL_COUNT_PER_ROW` (10) steps of a key from the start of a cell lead to the start of
/// the neighbouring cell in that direction, and every step on the way can be computed.
pub proof fn law_cell_crossing(p: Position, key: Keys)
    requires
        p.scalar_x == 0,
        p.scalar_y == 0,
        isize::MIN < p.x < isize::MAX,
        isize::MIN < p.y < isize::MAX,
    ensures
        after_steps(p, key, 10) == (match key {
            Keys::Right => Position { x: (p.x + 1) as isize, ..p },
            Keys::Down => Position { y: (p.y + 1) as isize, ..p },
            Keys::Left => Position { x: (p.x - 1) as isize, ..p },
            Keys::Up => Position { y: (p.y - 1) as isize, ..p },
        }),
        forall|k: nat| k < 10 ==> position_add_req(#[trigger] after_steps(p, key, k), key_step(key)),
{
    lemma_crossing(p, key, 10);
    assert forall|k: nat| k < 10 implies position_add_req(#[trigger] after_steps(p, key, k), key_step(key)) by {
        lemma_crossing(p, key, k + 1);
    }
}

/// For a hero placed on the field, `handle_key` is defined for every key whose target
/// does not leave the field over its right or bottom edge.
pub proof fn law_key_move_defined_inside_field(nav: MapNavigator, key: Keys)
    requires
        nav.hero_placed(),
        ({
            let next = nav.next_position(key);
            (next.x >= 0 && next.y >= 0) ==> in_field(next)
        }),
    ensures
        nav.key_move_defined(key),
{
}

/// Death is permanent: once an entity is dead, no sequence of calls on it brings it
/// back to life.
pub proof fn law_death_is_permanent(e: MovableEntity, ops: Seq<EntityOp>)
    requires
        !e.alive(),
    ensures
        !e.run(ops).alive(),
    decreases ops.len(),
{
    if ops.len() > 0 {
        e.lemma_step_alive(ops[0]);
        law_death_is_permanent(e.step(ops[0]), ops.drop_first());
    }
}

/// The walls `set_wall` puts up form a grid of pillars: every cell in an even row or an
/// even column stays free of them, so the rows and columns with an even index are open
/// corridors (the hero's start cell (0, 0) among them); every cell in an odd row and an
/// odd column gets one, and no two pillars are neighbours.
pub proof fn law_wall_grid(y: int, x: int)
    requires
        0 <= y < 24,
        0 <= x < 32,
    ensures
        y % 2 == 0 || x % 2 == 0 ==> !wall_cell(y, x),
        y % 2 == 1 && x % 2 == 1 ==> wall_cell(y, x),
        wall_cell(y, x) ==> !wall_cell(y, x + 1) && !wall_cell(y + 1, x) && !wall_cell(y, x - 1) && !wall_cell(
            y - 1,
            x,
        ),
{
}

/// A field holds at most 8 monsters: asking for up to 8 gives that many, asking for
/// more gives 8.
pub proof fn law_monster_count(num: u8)
    ensures
        monster_count(num) <= 8,
        num <= 8 ==> monster_count(num) == num,
        num > 8 ==> monster_count(num) == 8,
{
}

} // verus!
