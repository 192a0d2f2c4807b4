use vstd::prelude::*;

verus! {

/// Sub-steps of movement per cell: an entity crosses a cell in this many steps.
pub const PIXEL_COUNT_PER_ROW: isize = 10;

/// Width of the screen the field is laid out on, in pixels.
pub const DISPLAY_WIDTH: usize = 320;

/// Height of the screen the field is laid out on, in pixels.
pub const DISPLAY_HEIGHT: usize = 240;

/// What can stand on a cell of the field.
#[derive(Clone, Copy, Debug, PartialEq, Eq, Structural)]
pub enum EntityType {
    FieldFree,
    Hero,
    Enemy,
    Movable,
    Wall,
}

/// What the hero can do besides moving.
#[derive(Clone, Copy, Debug, PartialEq, Eq, Structural)]
pub enum Actions {
    PlantBomb,
    BreakStone,
    CollectKey,
}

/// A bomb and how far its blast reaches.
pub struct Bomb {
    range: u8,
}

impl Bomb {
    /// How far the blast reaches.
    pub closed spec fn blast_range(&self) -> u8 {
        self.range
    }

    /// A bomb whose blast reaches `range` cells.
    pub fn new(range: u8) -> (bomb: Self)
        ensures
            bomb.blast_range() == range,
    {
        Bomb { range }
    }
}

/// A position on the field: the cell (`x`, `y`) and the offset into it in sub-steps
/// (`scalar_x`, `scalar_y`).
#[derive(Clone, Copy, Default, Debug, PartialEq, Eq, Structural, PartialOrd)]
pub struct Position {
    pub x: isize,
    pub y: isize,
    pub scalar_x: isize,
    pub scalar_y: isize,
}

/// The position with every coordinate 0.
pub open spec fn origin() -> Position {
    Position { x: 0, y: 0, scalar_x: 0, scalar_y: 0 }
}

/// Whether a step `rhs` from `p` is refused: it moves along one axis while `p` is
/// between two cells along the other.
pub open spec fn step_refused(p: Position, rhs: Position) -> bool {
    (rhs.scalar_x != 0 && p.scalar_y != 0) || (rhs.scalar_y != 0 && p.scalar_x != 0)
}

/// Carries an offset that left [0, `PIXEL_COUNT_PER_ROW`) over into the cell:
/// the new (cell, offset) pair along one axis.
pub open spec fn carry(cell: int, offset: int) -> (int, int) {
    if offset > PIXEL_COUNT_PER_ROW - 1 {
        (cell + 1, 0)
    } else if offset < 0 {
        (cell - 1, PIXEL_COUNT_PER_ROW - 1)
    } else {
        (cell, offset)
    }
}

/// Whether `p` lies within its cell: both offsets in [0, `PIXEL_COUNT_PER_ROW`) and at
/// most one of them non-zero.
pub open spec fn within_cell(p: Position) -> bool {
    &&& 0 <= p.scalar_x < PIXEL_COUNT_PER_ROW
    &&& 0 <= p.scalar_y < PIXEL_COUNT_PER_ROW
    &&& (p.scalar_x == 0 || p.scalar_y == 0)
}

/// Whether `p + rhs` can be computed within `isize`.
pub open spec fn position_add_req(p: Position, rhs: Position) -> bool {
    step_refused(p, rhs) || {
        let sx = p.scalar_x + rhs.scalar_x;
        let sy = p.scalar_y + rhs.scalar_y;
        let cx = carry(p.x + rhs.x, sx);
        let cy = carry(p.y + rhs.y, sy);
        &&& isize::MIN <= sx <= isize::MAX
        &&& isize::MIN <= sy <= isize::MAX
        &&& isize::MIN <= p.x + rhs.x <= isize::MAX
        &&& isize::MIN <= p.y + rhs.y <= isize::MAX
        &&& isize::MIN <= cx.0 <= isize::MAX
        &&& isize::MIN <= cy.0 <= isize::MAX
    }
}

/// `p` moved by `rhs`: `p` itself where the step is refused, otherwise the sum with each
/// offset carried over into its cell.
pub open spec fn position_add(p: Position, rhs: Position) -> Position {
    if step_refused(p, rhs) {
        p
    } else {
        let cx = carry(p.x + rhs.x, p.scalar_x + rhs.scalar_x);
        let cy = carry(p.y + rhs.y, p.scalar_y + rhs.scalar_y);
        Position { x: cx.0 as isize, y: cy.0 as isize, scalar_x: cx.1 as isize, scalar_y: cy.1 as isize }
    }
}

impl vstd::std_specs::ops::AddSpecImpl<Position> for Position {
    open spec fn obeys_add_spec() -> bool {
        true
    }

    open spec fn add_req(self, rhs: Position) -> bool {
        position_add_req(self, rhs)
    }

    open spec fn add_spec(self, rhs: Position) -> Position {
        position_add(self, rhs)
    }
}

impl std::ops::Add<Position> for Position {
    type Output = Position;

    fn add(self, rhs: Position) -> (pos: Position) {
        if rhs.scalar_x != 0 {
            if self.scalar_y != 0 {
                return self;
            }
        }
        if rhs.scalar_y != 0 {
            if self.scalar_x != 0 {
                return self;
            }
        }
        let mut pos = Position {
            x: self.x + rhs.x,
            y: self.y + rhs.y,
            scalar_x: self.scalar_x + rhs.scalar_x,
            scalar_y: self.scalar_y + rhs.scalar_y,
        };
        if pos.scalar_x > PIXEL_COUNT_PER_ROW - 1 {
            pos.scalar_x = 0;
            pos.x += 1;
        }
        if pos.scalar_y > PIXEL_COUNT_PER_ROW - 1 {
            pos.scalar_y = 0;
            pos.y += 1;
        }
        if pos.scalar_x < 0 {
            pos.scalar_x = PIXEL_COUNT_PER_ROW - 1;
            pos.x -= 1;
        }
        if pos.scalar_y < 0 {
            pos.scalar_y = PIXEL_COUNT_PER_ROW - 1;
            pos.y -= 1;
        }
        pos
    }
}

impl Position {
    /// The position with every coordinate 0.
    pub fn new() -> (pos: Self)
        ensures
            pos == origin(),
    {
        Position { x: 0, y: 0, scalar_x: 0, scalar_y: 0 }
    }

    /// Moves to cell (`x`, `y`), keeping the offsets.
    pub fn update_pos(&mut self, x: isize, y: isize)
        ensures
            *final(self) == (Position { x, y, ..*old(self) }),
    {
        self.x = x;
        self.y = y;
    }

    /// Moves to cell (0, 0), keeping the offsets.
    pub fn reset(&mut self)
        ensures
            *final(self) == (Position { x: 0, y: 0, ..*old(self) }),
    {
        self.x = 0;
        self.y = 0;
    }
}

} // verus!
