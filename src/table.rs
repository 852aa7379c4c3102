//! A table of owned objects designated by opaque integer handles.
//!
//! Handle 0 designates nothing. A handle is never handed out twice, so one
//! that was removed stays dead: removing it again does nothing.
use vstd::prelude::*;

verus! {

/// Objects owned by the table, by handle.
pub struct Table<T> {
    slots: Vec<Option<T>>,
}

impl<T> Table<T> {
    /// The live objects, by handle.
    pub closed spec fn live(&self) -> Map<usize, T> {
        Map::new(
            |h: usize| 1 <= h <= self.slots@.len() && self.slots@[h - 1] is Some,
            |h: usize| self.slots@[h - 1]->0,
        )
    }

    /// The null handle never designates an object.
    pub proof fn lemma_null_not_live(&self)
        ensures
            !self.live().contains_key(0),
    {
    }

    /// Another handle can still be handed out.
    pub closed spec fn room(&self) -> bool {
        self.slots@.len() < usize::MAX
    }

    /// `h` was handed out and its object has been taken out.
    pub closed spec fn vacated(&self, h: usize) -> bool {
        1 <= h <= self.slots@.len() && self.slots@[h - 1] is None
    }

    /// An empty table.
    pub fn new() -> (r: Table<T>)
        ensures
            r.live() == Map::<usize, T>::empty(),
            r.room(),
    {
        let r = Table { slots: Vec::new() };
        assert(r.live() =~= Map::<usize, T>::empty());
        r
    }

    /// Whether another handle can still be handed out.
    pub fn has_room(&self) -> (r: bool)
        ensures
            r == self.room(),
    {
        self.slots.len() < usize::MAX
    }

    /// Take ownership of `value` under a fresh handle; 0 when no handle is
    /// left, in which case `value` is dropped.
    pub fn insert(&mut self, value: T) -> (h: usize)
        ensures
            old(self).room() ==> h != 0 && !old(self).live().contains_key(h) && final(self).live()
                == old(self).live().insert(h, value),
            !old(self).room() ==> h == 0 && final(self).live() == old(self).live(),
            h != 0 ==> !old(self).live().contains_key(h),
    {
        if self.slots.len() == usize::MAX {
            return 0;
        }
        self.slots.push(Some(value));
        let h = self.slots.len();
        assert(final(self).live() =~= old(self).live().insert(h, value));
        h
    }

    /// Whether `h` designates a live object.
    pub fn contains(&self, h: usize) -> (r: bool)
        ensures
            r == self.live().contains_key(h),
    {
        h >= 1 && h <= self.slots.len() && self.slots[h - 1].is_some()
    }

    /// The object that `h` designates, if it is live.
    pub fn get(&self, h: usize) -> (r: Option<&T>)
        ensures
            match r {
                Some(v) => self.live().contains_key(h) && *v == self.live()[h],
                None => !self.live().contains_key(h),
            },
    {
        if h >= 1 && h <= self.slots.len() {
            match &self.slots[h - 1] {
                Some(v) => Some(v),
                None => None,
            }
        } else {
            None
        }
    }

    /// Take the object that `h` designates out of the table; nothing happens
    /// when `h` is not live.
    pub fn take(&mut self, h: usize) -> (r: Option<T>)
        ensures
            match r {
                Some(v) => {
                    &&& old(self).live().contains_key(h)
                    &&& v == old(self).live()[h]
                    &&& final(self).live() == old(self).live().remove(h)
                    &&& final(self).vacated(h)
                },
                None => !old(self).live().contains_key(h) && *final(self) == *old(self),
            },
            final(self).room() == old(self).room(),
    {
        if h >= 1 && h <= self.slots.len() && self.slots[h - 1].is_some() {
            let v = self.slots.remove(h - 1);
            self.slots.insert(h - 1, None);
            assert(final(self).live() =~= old(self).live().remove(h));
            v
        } else {
            None
        }
    }

    /// Put an object back under the handle it was taken from.
    pub fn put(&mut self, h: usize, value: T)
        requires
            old(self).vacated(h),
        ensures
            final(self).live() == old(self).live().insert(h, value),
            final(self).room() == old(self).room(),
    {
        let _ = self.slots.remove(h - 1);
        self.slots.insert(h - 1, Some(value));
        assert(final(self).live() =~= old(self).live().insert(h, value));
    }
}

} // verus!
