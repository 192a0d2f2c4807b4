use vstd::prelude::*;

use super::entities::MovableEntity;
use super::monster_list::{monster_entries, MonsterList};
use super::laws::law_step_stays_within_cell;
use super::utils::{position_add, position_add_req, within_cell, Actions, Position};
use crate::common::Keys;

verus! {

/// What a cell of the field holds; the map stores the number of the variant.
#[derive(Clone, Copy, Debug, PartialEq, Eq, Structural)]
pub enum FieldElements {
    EmptyField,
    Wall,
    Box,
    Player,
    Monster,
}

/// The number under which `f` is stored in the map.
pub open spec fn field_code(f: FieldElements) -> usize {
    match f {
        FieldElements::EmptyField => 0,
        FieldElements::Wall => 1,
        FieldElements::Box => 2,
        FieldElements::Player => 3,
        FieldElements::Monster => 4,
    }
}

impl FieldElements {
    /// The number under which this element is stored in the map.
    pub fn code(&self) -> (c: usize)
        ensures
            c == field_code(*self),
    {
        match self {
            FieldElements::EmptyField => 0,
            FieldElements::Wall => 1,
            FieldElements::Box => 2,
            FieldElements::Player => 3,
            FieldElements::Monster => 4,
        }
    }
}

/// Cells per row of the field (a cell is `PIXEL_COUNT_PER_ROW` pixels wide on a 320 pixel screen).
pub const ARRAY_WIDTH: usize = 32;

/// Rows of the field (on a 240 pixel screen).
pub const ARRAY_HEIGHT: usize = 24;

/// How many monsters a field holds at most.
pub const MAX_MONSTER_COUNT: u8 = 8;

/// The number of monsters a field is set up with when `num` are asked for.
pub open spec fn monster_count(num: u8) -> u8 {
    if num > MAX_MONSTER_COUNT {
        MAX_MONSTER_COUNT
    } else {
        num
    }
}

/// The number of monsters a field is set up with when `num` are asked for: at most 8.
pub fn get_count(num: u8) -> (count: u8)
    ensures
        count == monster_count(num),
{
    if num > MAX_MONSTER_COUNT {
        return MAX_MONSTER_COUNT;
    }
    return num;
}

/// Whether `p` names a cell of the field.
pub open spec fn in_field(p: Position) -> bool {
    0 <= p.x < ARRAY_WIDTH && 0 <= p.y < ARRAY_HEIGHT
}

/// Whether cell (`x`, `y`) gets a wall from `set_wall`: both coordinates odd.
pub open spec fn wall_cell(y: int, x: int) -> bool {
    y % 2 == 1 && x % 2 == 1
}

/// The sub-step a key asks for.
pub open spec fn key_step(key: Keys) -> Position {
    match key {
        Keys::Up => Position { x: 0, y: 0, scalar_x: 0, scalar_y: -1isize },
        Keys::Down => Position { x: 0, y: 0, scalar_x: 0, scalar_y: 1 },
        Keys::Left => Position { x: 0, y: 0, scalar_x: -1isize, scalar_y: 0 },
        Keys::Right => Position { x: 0, y: 0, scalar_x: 1, scalar_y: 0 },
    }
}

/// Whether an entity may stand at `p`: a cell of the field that is no wall.
pub open spec fn valid_position(map: [[usize; 32]; 24], p: Position) -> bool {
    p.x >= 0 && p.y >= 0 && map[p.y as int][p.x as int] != field_code(FieldElements::Wall)
}

/// Whether one of `monsters` stands exactly at `p`.
pub open spec fn meets_monster(monsters: Seq<MovableEntity>, p: Position) -> bool {
    exists|i: int| 0 <= i < monsters.len() && (#[trigger] monsters[i]).pos() == p
}

/// The game field: a map of cells, the hero and the monsters.
pub struct MapNavigator {
    pub map: [[usize; 32]; 24],
    pub hero: MovableEntity,
    pub monsters: MonsterList,
}

impl MapNavigator {
    /// The monsters, in order.
    pub open spec fn monster_seq(&self) -> Seq<MovableEntity> {
        monster_entries(self.monsters)
    }

    /// Whether the hero stands on a cell of the field, within that cell.
    pub open spec fn hero_placed(&self) -> bool {
        in_field(self.hero.pos()) && within_cell(self.hero.pos())
    }

    /// The position the hero heads for on `key`.
    pub open spec fn next_position(&self, key: Keys) -> Position {
        position_add(self.hero.pos(), key_step(key))
    }

    /// Whether `handle_key(key)` is defined here: the step can be computed, a target with
    /// non-negative coordinates lies within the field, and a hero that moves stands on the
    /// field and its offset can be stepped.
    pub open spec fn key_move_defined(&self, key: Keys) -> bool {
        let p = self.hero.pos();
        let next = self.next_position(key);
        &&& position_add_req(p, key_step(key))
        &&& (next.x >= 0 && next.y >= 0) ==> in_field(next)
        &&& valid_position(self.map, next) ==> {
            &&& in_field(p)
            &&& match key {
                Keys::Down => p.scalar_y < isize::MAX,
                Keys::Right => p.scalar_x < isize::MAX,
                _ => p.scalar_x > isize::MIN,
            }
        }
    }

    /// A field of `get_count(num_monsters)` monsters with every cell empty; hero and
    /// monsters are alive at the origin.
    pub fn new(num_monsters: u8) -> (nav: Self)
        ensures
            forall|y: int, x: int| 0 <= y < 24 && 0 <= x < 32 ==> nav.map[y][x] == 0,
            nav.hero.fresh(),
            nav.monster_seq().len() == monster_count(num_monsters),
            forall|i: int| 0 <= i < nav.monster_seq().len() ==> (#[trigger] nav.monster_seq()[i]).fresh(),
    {
        let mut monsters = MonsterList::new();
        let count = get_count(num_monsters);
        let mut k: u8 = 0;
        while k < count
            invariant
                k <= count,
                count == monster_count(num_monsters),
                monster_entries(monsters).len() == k,
                forall|i: int| 0 <= i < k ==> (#[trigger] monster_entries(monsters)[i]).fresh(),
            decreases count - k,
        {
            let _ = monsters.push(MovableEntity::new());
            k += 1;
        }
        MapNavigator { map: [[0; 32]; 24], hero: MovableEntity::new(), monsters }
    }

    /// Puts a wall on every cell whose row and column are both odd.
    pub fn set_wall(&mut self)
        ensures
            forall|y: int, x: int|
                0 <= y < 24 && 0 <= x < 32 ==> #[trigger] final(self).map[y][x] == if wall_cell(y, x) {
                    field_code(FieldElements::Wall)
                } else {
                    old(self).map[y][x]
                },
            final(self).hero == old(self).hero,
            final(self).monsters == old(self).monsters,
    {
        let mut start_pos_y: usize = 0;
        while start_pos_y < ARRAY_HEIGHT
            invariant
                start_pos_y <= 24,
                self.hero == old(self).hero,
                self.monsters == old(self).monsters,
                forall|y: int, x: int|
                    0 <= y < 24 && 0 <= x < 32 ==> #[trigger] self.map[y][x] == if wall_cell(y, x) && y <= start_pos_y {
                        field_code(FieldElements::Wall)
                    } else {
                        old(self).map[y][x]
                    },
            decreases 24 - start_pos_y,
        {
            start_pos_y += 1;
            if start_pos_y % 2 == 0 {
                continue;
            }
            self.set_block(start_pos_y);
        }
    }

    /// Puts a wall on every odd column of row `start_pos_y`.
    fn set_block(&mut self, start_pos_y: usize)
        requires
            start_pos_y < 24,
        ensures
            forall|y: int, x: int|
                0 <= y < 24 && 0 <= x < 32 ==> #[trigger] final(self).map[y][x] == if y == start_pos_y && x % 2
                    == 1 {
                    field_code(FieldElements::Wall)
                } else {
                    old(self).map[y][x]
                },
            final(self).hero == old(self).hero,
            final(self).monsters == old(self).monsters,
    {
        let mut start_pos_x: usize = 0;
        let mut index: usize = 0;
        while index < ARRAY_WIDTH
            invariant_except_break
                start_pos_x == index,
            invariant
                index <= 32,
                start_pos_x <= 32,
                start_pos_y < 24,
                self.hero == old(self).hero,
                self.monsters == old(self).monsters,
                forall|y: int, x: int|
                    0 <= y < 24 && 0 <= x < 32 ==> #[trigger] self.map[y][x] == if y == start_pos_y && x % 2 == 1
                        && x <= start_pos_x {
                        field_code(FieldElements::Wall)
                    } else {
                        old(self).map[y][x]
                    },
            ensures
                forall|y: int, x: int|
                    0 <= y < 24 && 0 <= x < 32 ==> #[trigger] self.map[y][x] == if y == start_pos_y && x % 2 == 1 {
                        field_code(FieldElements::Wall)
                    } else {
                        old(self).map[y][x]
                    },
                self.hero == old(self).hero,
                self.monsters == old(self).monsters,
            decreases 32 - index,
        {
            start_pos_x += 1;
            if start_pos_x >= ARRAY_WIDTH {
                break;
            }
            if start_pos_x % 2 == 0 {
                index += 1;
                continue;
            }
            self.map[start_pos_y][start_pos_x] = FieldElements::Wall.code();
            index += 1;
        }
    }

    /// Marks cell (0, 0) as the player's.
    pub fn set_player_position(&mut self)
        ensures
            forall|y: int, x: int|
                0 <= y < 24 && 0 <= x < 32 ==> #[trigger] final(self).map[y][x] == if y == 0 && x == 0 {
                    field_code(FieldElements::Player)
                } else {
                    old(self).map[y][x]
                },
            final(self).hero == old(self).hero,
            final(self).monsters == old(self).monsters,
    {
        self.map[0][0] = FieldElements::Player.code();
    }

    /// A sub-step of (`x_scal`, `y_scal`) within the current cell.
    fn generate_steping_position(&self, x_scal: isize, y_scal: isize) -> (p: Position)
        ensures
            p == (Position { x: 0, y: 0, scalar_x: x_scal, scalar_y: y_scal }),
    {
        Position { x: 0, y: 0, scalar_x: x_scal, scalar_y: y_scal }
    }

    /// Whether an entity may stand at `position`: a cell of the field that is no wall.
    fn is_valid_position(&self, position: Position) -> (r: bool)
        requires
            (position.x >= 0 && position.y >= 0) ==> in_field(position),
        ensures
            r == valid_position(self.map, position),
    {
        if position.x < 0 || position.y < 0 {
            return false;
        }
        self.map[position.y as usize][position.x as usize] != FieldElements::Wall.code()
    }

    /// Reacts to an action of the hero; no action has an effect yet.
    fn handle_action(&self, action: Actions) {
        match action {
            Actions::PlantBomb => (),
            _ => (),
        }
    }

    /// Places monster `moster_id` on cell (`x`, `y`) and marks the cell as a monster's.
    pub fn set_monster_in_field(&mut self, moster_id: usize, x: usize, y: usize)
        requires
            x < 32,
            y < 24,
            moster_id < old(self).monster_seq().len(),
        ensures
            forall|yy: int, xx: int|
                0 <= yy < 24 && 0 <= xx < 32 ==> #[trigger] final(self).map[yy][xx] == if yy == y && xx == x {
                    field_code(FieldElements::Monster)
                } else {
                    old(self).map[yy][xx]
                },
            final(self).hero == old(self).hero,
            final(self).monster_seq().len() == old(self).monster_seq().len(),
            forall|i: int|
                0 <= i < old(self).monster_seq().len() && i != moster_id ==> #[trigger] final(self).monster_seq()[i]
                    == old(self).monster_seq()[i],
            final(self).monster_seq()[moster_id as int].pos() == (Position {
                x: x as isize,
                y: y as isize,
                scalar_x: 0,
                scalar_y: 0,
            }),
            final(self).monster_seq()[moster_id as int].alive() == old(self).monster_seq()[moster_id as int].alive(),
    {
        self.map[y][x] = FieldElements::Monster.code();
        let mut monster = self.monsters.get(moster_id);
        monster.update_position(Position { x: x as isize, y: y as isize, scalar_x: 0, scalar_y: 0 });
        self.monsters.set(moster_id, monster);
    }

    /// Ends the hero's game when a monster stands exactly where the hero stands.
    fn update_hero_state_if_nedded(&mut self)
        ensures
            final(self).map == old(self).map,
            final(self).monsters == old(self).monsters,
            final(self).hero.alive() == (old(self).hero.alive() && !meets_monster(
                old(self).monster_seq(),
                old(self).hero.pos(),
            )),
            final(self).hero.pos() == if meets_monster(old(self).monster_seq(), old(self).hero.pos()) {
                Position { x: 0, y: 0, ..old(self).hero.pos() }
            } else {
                old(self).hero.pos()
            },
    {
        let hero_pos = self.hero.get_position();
        let count = self.monsters.len();
        let mut i: usize = 0;
        while i < count
            invariant
                i <= count,
                count == old(self).monster_seq().len(),
                hero_pos == old(self).hero.pos(),
                self.map == old(self).map,
                self.monsters == old(self).monsters,
                self.hero.alive() == (old(self).hero.alive() && !exists|j: int|
                    0 <= j < i && (#[trigger] old(self).monster_seq()[j]).pos() == hero_pos),
                self.hero.pos() == if exists|j: int|
                    0 <= j < i && (#[trigger] old(self).monster_seq()[j]).pos() == hero_pos {
                    Position { x: 0, y: 0, ..hero_pos }
                } else {
                    hero_pos
                },
            decreases count - i,
        {
            let monster = self.monsters.get(i);
            if hero_pos != monster.get_position() {
                i += 1;
                continue;
            }
            self.hero.game_over();
            i += 1;
        }
    }

    /// Moves the hero one sub-step on `key` when the target is a free cell, and ends its
    /// game when it meets a monster there. A refused target puts the hero back at the
    /// start of its cell.
    pub fn handle_key(&mut self, key: Keys)
        requires
            old(self).key_move_defined(key),
        ensures
            final(self).monsters == old(self).monsters,
            old(self).hero_placed() ==> final(self).hero_placed(),
            ({
                let p = old(self).hero.pos();
                let next = old(self).next_position(key);
                if !valid_position(old(self).map, next) {
                    &&& final(self).map == old(self).map
                    &&& final(self).hero.pos() == (Position { scalar_x: 0, scalar_y: 0, ..p })
                    &&& final(self).hero.alive() == old(self).hero.alive()
                } else {
                    let caught = meets_monster(old(self).monster_seq(), next);
                    &&& forall|y: int, x: int|
                        0 <= y < 24 && 0 <= x < 32 ==> #[trigger] final(self).map[y][x] == if y == next.y && x
                            == next.x {
                            field_code(FieldElements::Player)
                        } else if y == p.y && x == p.x {
                            field_code(FieldElements::EmptyField)
                        } else {
                            old(self).map[y][x]
                        }
                    &&& final(self).hero.pos() == if caught {
                        Position { x: 0, y: 0, ..next }
                    } else {
                        next
                    }
                    &&& final(self).hero.alive() == (old(self).hero.alive() && !caught)
                }
            }),
    {
        proof {
            if old(self).hero_placed() {
                law_step_stays_within_cell(old(self).hero.pos(), key);
            }
        }
        let moved = match key {
            Keys::Up => self.move_hero(0, -1, true, false),
            Keys::Down => self.move_hero(0, 1, true, true),
            Keys::Left => self.move_hero(-1, 0, false, false),
            Keys::Right => self.move_hero(1, 0, false, true),
        };
        if !moved {
            return;
        }
        self.update_hero_state_if_nedded();
    }

    /// One sub-step of the hero by (`scal_x`, `scal_y`): refused onto an invalid
    /// position, where only the offsets are cleared; otherwise the hero's cell is cleared
    /// and the target cell marked as the player's. Returns whether the hero moved.
    fn move_hero(&mut self, scal_x: isize, scal_y: isize, along_y: bool, is_pos: bool) -> (moved: bool)
        requires
            ({
                let step = Position { x: 0, y: 0, scalar_x: scal_x, scalar_y: scal_y };
                let p = old(self).hero.pos();
                let next = position_add(p, step);
                &&& position_add_req(p, step)
                &&& (next.x >= 0 && next.y >= 0) ==> in_field(next)
                &&& valid_position(old(self).map, next) ==> {
                    &&& in_field(p)
                    &&& (along_y && is_pos ==> p.scalar_y < isize::MAX)
                    &&& (!along_y && is_pos ==> p.scalar_x < isize::MAX)
                    &&& (!is_pos ==> p.scalar_x > isize::MIN)
                }
            }),
        ensures
            final(self).monsters == old(self).monsters,
            final(self).hero.alive() == old(self).hero.alive(),
            ({
                let p = old(self).hero.pos();
                let next = position_add(p, Position { x: 0, y: 0, scalar_x: scal_x, scalar_y: scal_y });
                &&& moved == valid_position(old(self).map, next)
                &&& !moved ==> final(self).map == old(self).map && final(self).hero.pos() == (Position {
                    scalar_x: 0,
                    scalar_y: 0,
                    ..p
                })
                &&& moved ==> final(self).hero.pos() == next && forall|y: int, x: int|
                    0 <= y < 24 && 0 <= x < 32 ==> #[trigger] final(self).map[y][x] == if y == next.y && x == next.x {
                        field_code(FieldElements::Player)
                    } else if y == p.y && x == p.x {
                        field_code(FieldElements::EmptyField)
                    } else {
                        old(self).map[y][x]
                    }
            }),
    {
        let next_pos = self.hero.get_position() + self.generate_steping_position(scal_x, scal_y);
        if !self.is_valid_position(next_pos) {
            self.hero.reinit_scalars();
            return false;
        }
        if along_y {
            self.hero.update_scalar_y(is_pos);
        } else {
            self.hero.update_scalar_x(is_pos);
        }
        let current = self.hero.get_position();
        self.map[current.y as usize][current.x as usize] = FieldElements::EmptyField.code();
        self.hero.update_position(next_pos);
        let moved_to = self.hero.get_position();
        self.map[moved_to.y as usize][moved_to.x as usize] = FieldElements::Player.code();
        true
    }

    /// How many monsters the field holds.
    pub fn monster_count(&self) -> (n: usize)
        ensures
            n == self.monster_seq().len(),
            n <= 8,
    {
        self.monsters.len()
    }

    /// Monster `i`.
    pub fn get_monster(&self, i: usize) -> (m: MovableEntity)
        requires
            i < self.monster_seq().len(),
        ensures
            m == self.monster_seq()[i as int],
    {
        self.monsters.get(i)
    }

    /// What cell (`x`, `y`) holds.
    pub fn get_entity(&self, x: usize, y: usize) -> (e: usize)
        requires
            x < 32,
            y < 24,
        ensures
            e == self.map[y as int][x as int],
    {
        self.map[y][x]
    }
}

} // verus!
