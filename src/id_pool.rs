use vstd::prelude::*;

verus! {

/// Hands out ids below a maximum, reusing freed ones first (last freed first).
#[derive(Debug)]
pub struct IdPool {
    free: Vec<u16>,
    next: u16,
    max: u16,
}

pub struct IdPoolView {
    /// Freed ids, the one handed out next last.
    pub free: Seq<u16>,
    /// The smallest id never handed out.
    pub next: u16,
    pub max: u16,
}

impl View for IdPool {
    type V = IdPoolView;

    closed spec fn view(&self) -> IdPoolView {
        IdPoolView { free: self.free@, next: self.next, max: self.max }
    }
}

impl IdPool {
    pub fn new(max: u16) -> (r: IdPool)
        ensures
            r@.free.len() == 0,
            r@.next == 0,
            r@.max == max,
    {
        IdPool { free: Vec::new(), next: 0, max }
    }

    /// The last freed id if there is one, else a fresh id while any is left below `max`.
    pub fn allocate(&mut self) -> (r: Option<u16>)
        ensures
            final(self)@.max == old(self)@.max,
            old(self)@.free.len() > 0 ==> r == Some(old(self)@.free.last()) && final(self)@.free
                == old(self)@.free.drop_last() && final(self)@.next == old(self)@.next,
            old(self)@.free.len() == 0 && old(self)@.next < old(self)@.max ==> r == Some(
                old(self)@.next,
            ) && final(self)@.next == old(self)@.next + 1 && final(self)@.free.len() == 0,
            old(self)@.free.len() == 0 && old(self)@.next >= old(self)@.max ==> r is None
                && final(self)@ == old(self)@,
    {
        if let Some(id) = self.free.pop() {
            Some(id)
        } else if self.next < self.max {
            let id = self.next;
            self.next = self.next + 1;
            Some(id)
        } else {
            None
        }
    }

    /// Gives an id back for reuse.
    pub fn free(&mut self, id: u16)
        ensures
            final(self)@.free == old(self)@.free.push(id),
            final(self)@.next == old(self)@.next,
            final(self)@.max == old(self)@.max,
    {
        self.free.push(id);
    }
}

} // verus!
