use vstd::prelude::*;

use super::entities::MovableEntity;

verus! {

/// How many monsters a list holds at most.
pub const MONSTER_CAPACITY: usize = 8;

/// The monsters of a field, in a fixed-capacity `heapless::Vec` of 8 entries.
#[verifier::external_body]
pub struct MonsterList {
    inner: heapless::Vec<MovableEntity, heapless::consts::U8>,
}

/// The monsters `list` holds, in order.
pub uninterp spec fn monster_entries(list: MonsterList) -> Seq<MovableEntity>;

impl MonsterList {
    /// `heapless::Vec::new`: an empty list.
    #[verifier::external_body]
    pub(crate) fn new() -> (list: Self)
        ensures
            monster_entries(list) == Seq::<MovableEntity>::empty(),
    {
        MonsterList { inner: heapless::Vec::new() }
    }

    /// `heapless::Vec::push`: appends `item` while fewer than 8 entries are held, and
    /// hands `item` back unchanged otherwise.
    #[verifier::external_body]
    pub(crate) fn push(&mut self, item: MovableEntity) -> (r: Result<(), MovableEntity>)
        ensures
            r == (if monster_entries(*old(self)).len() < MONSTER_CAPACITY { Ok(()) } else { Err(item) }),
            monster_entries(*final(self)) == (if monster_entries(*old(self)).len() < MONSTER_CAPACITY {
                monster_entries(*old(self)).push(item)
            } else {
                monster_entries(*old(self))
            }),
    {
        self.inner.push(item)
    }

    /// The slice length of the `heapless::Vec`: how many entries are held, never more than 8.
    #[verifier::external_body]
    pub(crate) fn len(&self) -> (n: usize)
        ensures
            n == monster_entries(*self).len(),
            n <= MONSTER_CAPACITY,
    {
        self.inner.len()
    }

    /// Slice indexing of the `heapless::Vec`: entry `i`.
    #[verifier::external_body]
    pub(crate) fn get(&self, i: usize) -> (m: MovableEntity)
        requires
            i < monster_entries(*self).len(),
        ensures
            m == monster_entries(*self)[i as int],
    {
        self.inner[i]
    }

    /// Mutable slice indexing of the `heapless::Vec`: replaces entry `i` by `m`.
    #[verifier::external_body]
    pub(crate) fn set(&mut self, i: usize, m: MovableEntity)
        requires
            i < monster_entries(*old(self)).len(),
        ensures
            monster_entries(*final(self)) == monster_entries(*old(self)).update(i as int, m),
    {
        self.inner[i] = m;
    }
}

} // verus!
