use vstd::prelude::*;

use super::utils::{origin, Position};

verus! {

/// A monster as a game implementation drives it.
pub trait Monster {
    fn is_alive(&self) -> bool;

    fn update_new_position_if_possible(&mut self, current_pos: Option<Position>);

    fn get_position(&self) -> Position;

    fn game_over(&mut self);
}

/// A call that changes a movable entity.
#[derive(Clone, Copy, Debug)]
pub enum EntityOp {
    UpdatePosition(Position),
    UpdateScalarX(bool),
    UpdateScalarY(bool),
    ReinitScalars,
    GameOver,
}

/// An entity that moves over the field: the hero or a monster.
#[derive(Clone, Copy, Debug)]
pub struct MovableEntity {
    position: Position,
    is_alive: bool,
}

impl MovableEntity {
    /// Where the entity is.
    pub closed spec fn pos(&self) -> Position {
        self.position
    }

    /// Whether the entity is alive.
    pub closed spec fn alive(&self) -> bool {
        self.is_alive
    }

    /// A live entity at the origin.
    pub open spec fn fresh(&self) -> bool {
        self.pos() == origin() && self.alive()
    }

    /// The entity after the call `op`.
    pub closed spec fn step(self, op: EntityOp) -> MovableEntity {
        let p = self.position;
        match op {
            EntityOp::UpdatePosition(new_pos) => MovableEntity { position: new_pos, ..self },
            EntityOp::UpdateScalarX(is_pos) => MovableEntity {
                position: Position {
                    scalar_x: (if is_pos { p.scalar_x + 1 } else { p.scalar_x - 1 }) as isize,
                    ..p
                },
                ..self
            },
            EntityOp::UpdateScalarY(is_pos) => MovableEntity {
                position: if is_pos {
                    Position { scalar_y: (p.scalar_y + 1) as isize, ..p }
                } else {
                    Position { scalar_x: (p.scalar_x - 1) as isize, ..p }
                },
                ..self
            },
            EntityOp::ReinitScalars => MovableEntity { position: Position { scalar_x: 0, scalar_y: 0, ..p }, ..self },
            EntityOp::GameOver => MovableEntity { position: Position { x: 0, y: 0, ..p }, is_alive: false },
        }
    }

    /// The entity after the calls `ops`, in order.
    pub open spec fn run(self, ops: Seq<EntityOp>) -> MovableEntity
        decreases ops.len(),
    {
        if ops.len() == 0 {
            self
        } else {
            self.step(ops[0]).run(ops.drop_first())
        }
    }

    /// A call keeps the entity alive exactly when it was alive and the call is not
    /// `game_over`.
    pub proof fn lemma_step_alive(self, op: EntityOp)
        ensures
            self.step(op).alive() == (self.alive() && !(op is GameOver)),
    {
    }

    /// A live entity at the origin.
    pub fn new() -> (e: Self)
        ensures
            e.fresh(),
    {
        MovableEntity { position: Position::new(), is_alive: true }
    }

    /// Moves the entity to `new_pos`.
    pub fn update_position(&mut self, new_pos: Position)
        ensures
            final(self).pos() == new_pos,
            final(self).alive() == old(self).alive(),
            *final(self) == old(self).step(EntityOp::UpdatePosition(new_pos)),
    {
        self.position = new_pos
    }

    /// Where the entity is.
    pub fn get_position(&self) -> (p: Position)
        ensures
            p == self.pos(),
    {
        self.position
    }

    /// With `is_pos` one sub-step further down; without it, one sub-step less along x.
    pub fn update_scalar_y(&mut self, is_pos: bool)
        requires
            is_pos ==> old(self).pos().scalar_y < isize::MAX,
            !is_pos ==> old(self).pos().scalar_x > isize::MIN,
        ensures
            final(self).pos() == if is_pos {
                Position { scalar_y: (old(self).pos().scalar_y + 1) as isize, ..old(self).pos() }
            } else {
                Position { scalar_x: (old(self).pos().scalar_x - 1) as isize, ..old(self).pos() }
            },
            final(self).alive() == old(self).alive(),
            *final(self) == old(self).step(EntityOp::UpdateScalarY(is_pos)),
    {
        if is_pos {
            self.position.scalar_y += 1
        } else {
            self.position.scalar_x -= 1
        }
    }

    /// One sub-step along x: forward with `is_pos`, back without it.
    pub fn update_scalar_x(&mut self, is_pos: bool)
        requires
            is_pos ==> old(self).pos().scalar_x < isize::MAX,
            !is_pos ==> old(self).pos().scalar_x > isize::MIN,
        ensures
            final(self).pos() == (Position {
                scalar_x: (if is_pos { old(self).pos().scalar_x + 1 } else { old(self).pos().scalar_x - 1 }) as isize,
                ..old(self).pos()
            }),
            final(self).alive() == old(self).alive(),
            *final(self) == old(self).step(EntityOp::UpdateScalarX(is_pos)),
    {
        if is_pos {
            self.position.scalar_x += 1
        } else {
            self.position.scalar_x -= 1
        }
    }

    /// How far into its cell the entity is along x.
    pub fn get_scalar_x(&self) -> (s: isize)
        requires
            self.pos().scalar_x > isize::MIN,
        ensures
            s == vstd::math::abs(self.pos().scalar_x as int),
    {
        let s = self.position.scalar_x;
        if s < 0 {
            -s
        } else {
            s
        }
    }

    /// How far into its cell the entity is along y.
    pub fn get_scalar_y(&self) -> (s: isize)
        requires
            self.pos().scalar_y > isize::MIN,
        ensures
            s == vstd::math::abs(self.pos().scalar_y as int),
    {
        let s = self.position.scalar_y;
        if s < 0 {
            -s
        } else {
            s
        }
    }

    /// Puts the entity back at the start of its cell.
    pub fn reinit_scalars(&mut self)
        ensures
            final(self).pos() == (Position { scalar_x: 0, scalar_y: 0, ..old(self).pos() }),
            final(self).alive() == old(self).alive(),
            *final(self) == old(self).step(EntityOp::ReinitScalars),
    {
        self.position.scalar_x = 0;
        self.position.scalar_y = 0;
    }

    /// Ends the entity's game: it dies and goes back to cell (0, 0).
    pub fn game_over(&mut self)
        ensures
            !final(self).alive(),
            final(self).pos() == (Position { x: 0, y: 0, ..old(self).pos() }),
            *final(self) == old(self).step(EntityOp::GameOver),
    {
        self.is_alive = false;
        self.position.reset()
    }

    /// Whether the entity is alive.
    pub fn is_alive(&self) -> (alive: bool)
        ensures
            alive == self.alive(),
    {
        self.is_alive
    }
}

} // verus!
