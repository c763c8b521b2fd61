//! A linear undo/redo history: a list of recorded changes and how many of
//! them are applied. Recording a change drops the ones that were undone.
use vstd::prelude::*;

verus! {

pub struct CircleDrawerHistory<T> {
    changes: Vec<T>,
    applied_changes: usize,
}

impl<T> CircleDrawerHistory<T> {
    /// Every recorded change, oldest first.
    pub closed spec fn recorded(&self) -> Seq<T> {
        self.changes@
    }

    /// How many of the recorded changes, from the oldest, are applied.
    pub closed spec fn applied(&self) -> nat {
        self.applied_changes as nat
    }

    pub open spec fn wf(&self) -> bool {
        self.applied() <= self.recorded().len()
    }

    pub fn new() -> (r: CircleDrawerHistory<T>)
        ensures
            r.wf(),
            r.recorded().len() == 0,
            r.applied() == 0,
    {
        CircleDrawerHistory { changes: Vec::new(), applied_changes: 0 }
    }

    /// No changes are applied.
    pub fn is_empty(&self) -> (r: bool)
        ensures
            r == (self.applied() == 0),
    {
        self.applied_changes == 0
    }

    /// All recorded changes are applied.
    pub fn is_full(&self) -> (r: bool)
        ensures
            r == (self.applied() == self.recorded().len()),
    {
        self.changes.len() == self.applied_changes
    }

    /// The number of applied changes.
    pub fn applied_count(&self) -> (r: usize)
        ensures
            r == self.applied(),
    {
        self.applied_changes
    }

    /// The recorded change at position `index`, counted from the oldest.
    pub fn get(&self, index: usize) -> (r: &T)
        requires
            index < self.recorded().len(),
        ensures
            *r == self.recorded()[index as int],
    {
        &self.changes[index]
    }

    /// Records a change after the applied ones; the undone ones are dropped.
    pub fn push(&mut self, change: T)
        requires
            old(self).wf(),
        ensures
            final(self).wf(),
            final(self).recorded() == old(self).recorded().subrange(0, old(self).applied() as int).push(change),
            final(self).applied() == old(self).applied() + 1,
    {
        self.changes.truncate(self.applied_changes);
        self.changes.push(change);
        self.applied_changes = self.changes.len();
    }

    /// Records the creation of a circle.
    pub fn create(&mut self, change: T)
        requires
            old(self).wf(),
        ensures
            final(self).wf(),
            final(self).recorded() == old(self).recorded().subrange(0, old(self).applied() as int).push(change),
            final(self).applied() == old(self).applied() + 1,
    {
        self.push(change);
    }

    /// Records a change to a circle.
    pub fn update(&mut self, change: T)
        requires
            old(self).wf(),
        ensures
            final(self).wf(),
            final(self).recorded() == old(self).recorded().subrange(0, old(self).applied() as int).push(change),
            final(self).applied() == old(self).applied() + 1,
    {
        self.push(change);
    }

    /// Takes back the newest applied change and returns it; returns `None`
    /// when no change is applied.
    pub fn undo(&mut self) -> (r: Option<&T>)
        requires
            old(self).wf(),
        ensures
            final(self).wf(),
            final(self).recorded() == old(self).recorded(),
            old(self).applied() == 0 ==> r is None && final(self).applied() == 0,
            old(self).applied() > 0 ==> final(self).applied() == old(self).applied() - 1 && r
                == Some(&old(self).recorded()[old(self).applied() - 1]),
    {
        if self.applied_changes > 0 {
            self.applied_changes = self.applied_changes - 1;
            return Some(&self.changes[self.applied_changes]);
        }
        None
    }

    /// Applies again the oldest undone change and returns it; returns `None`
    /// when every change is applied.
    pub fn redo(&mut self) -> (r: Option<&T>)
        requires
            old(self).wf(),
        ensures
            final(self).wf(),
            final(self).recorded() == old(self).recorded(),
            old(self).applied() == old(self).recorded().len() ==> r is None && final(self).applied()
                == old(self).applied(),
            old(self).applied() < old(self).recorded().len() ==> final(self).applied() == old(self).applied() + 1
                && r == Some(&old(self).recorded()[old(self).applied() as int]),
    {
        if self.applied_changes < self.changes.len() {
            let change = &self.changes[self.applied_changes];
            self.applied_changes = self.applied_changes + 1;
            return Some(change);
        }
        None
    }
}

} // verus!
