//! The draft store: a committed value and at most one pending copy of it
//! that can be edited, then committed or thrown away.

use vstd::pervasive::cloned;
use vstd::prelude::*;

verus! {

/// What a draft store holds.
pub struct DraftView<T> {
    /// The value that readers see.
    pub committed: T,
    /// The copy that is being edited, if a draft is open.
    pub pending: Option<T>,
}

impl<T> DraftView<T> {
    /// The store after the open draft was given this value.
    pub open spec fn edit(self, value: T) -> DraftView<T> {
        DraftView { committed: self.committed, pending: Some(value) }
    }

    /// The value that an editor finds when it asks for the draft: the
    /// pending copy where a draft is open, else a fresh copy.
    pub open spec fn opened(self, fresh: T) -> T {
        match self.pending {
            Some(pending) => pending,
            None => fresh,
        }
    }

    /// The store after a commit: the pending copy takes the place of the
    /// committed value; without a draft nothing changes.
    pub open spec fn apply(self) -> DraftView<T> {
        match self.pending {
            Some(pending) => DraftView { committed: pending, pending: None },
            None => self,
        }
    }

    /// The store after a discard: the pending copy is gone and the committed
    /// value is what it was.
    pub open spec fn discard(self) -> DraftView<T> {
        DraftView { committed: self.committed, pending: None }
    }

    /// The store after the draft was given these values one after the
    /// other.
    pub open spec fn edits(self, values: Seq<T>) -> DraftView<T>
        decreases values.len(),
    {
        if values.len() == 0 {
            self
        } else {
            self.edits(values.drop_last()).edit(values.last())
        }
    }
}

/// A configuration value with an optional draft of it.
#[derive(Debug)]
pub struct ConfigDraft<T> {
    committed: T,
    pending: Option<T>,
}

impl<T> View for ConfigDraft<T> {
    type V = DraftView<T>;

    closed spec fn view(&self) -> DraftView<T> {
        DraftView { committed: self.committed, pending: self.pending }
    }
}

impl<T> ConfigDraft<T> {
    /// A store with this committed value and no draft.
    pub fn new(data: T) -> (store: Self)
        ensures
            store@ == (DraftView { committed: data, pending: None }),
    {
        ConfigDraft { committed: data, pending: None }
    }

    /// The committed value. An open draft does not show here.
    pub fn latest(&self) -> (data: &T)
        ensures
            *data == self@.committed,
    {
        &self.committed
    }

    /// The pending copy, where a draft is open.
    pub fn pending(&self) -> (data: Option<&T>)
        ensures
            match data {
                Some(data) => self@.pending == Some(*data),
                None => self@.pending is None,
            },
    {
        self.pending.as_ref()
    }

    /// Whether a draft is open.
    pub fn has_draft(&self) -> (open: bool)
        ensures
            open == self@.pending is Some,
    {
        self.pending.is_some()
    }

    /// The draft, for editing. Where none is open the committed value is
    /// cloned into a new one; an open draft is handed out as it is. Whatever
    /// the editor leaves in it is the pending value afterwards; the
    /// committed value is not touched.
    pub fn draft(&mut self) -> (pending: &mut T) where T: Clone
        ensures
            old(self)@.pending is Some ==> *pending == old(self)@.pending->0,
            old(self)@.pending is None ==> cloned(old(self)@.committed, *pending),
            final(self)@ == old(self)@.edit(*final(pending)),
    {
        if self.pending.is_none() {
            let fresh = self.committed.clone();
            self.pending = Some(fresh);
        }
        self.pending.as_mut().unwrap()
    }

    /// Commits the draft and hands out the value it replaced. Without a
    /// draft nothing changes and nothing is handed out.
    pub fn apply(&mut self) -> (replaced: Option<T>)
        ensures
            final(self)@ == old(self)@.apply(),
            replaced == match old(self)@.pending {
                Some(_) => Some(old(self)@.committed),
                None => None,
            },
    {
        match self.pending.take() {
            Some(pending) => {
                let mut replaced = pending;
                core::mem::swap(&mut self.committed, &mut replaced);
                Some(replaced)
            },
            None => None,
        }
    }

    /// Throws the draft away and hands it out. The committed value stays.
    pub fn discard(&mut self) -> (dropped: Option<T>)
        ensures
            final(self)@ == old(self)@.discard(),
            dropped == old(self)@.pending,
    {
        self.pending.take()
    }
}

/// However a draft was edited, a discard leaves the committed value as it
/// was before, with no draft open.
pub proof fn discard_restores_committed<T>(store: DraftView<T>, values: Seq<T>)
    ensures
        store.edits(values).discard() == store.discard(),
        store.edits(values).discard().committed == store.committed,
        store.edits(values).committed == store.committed,
    decreases values.len(),
{
    if values.len() > 0 {
        discard_restores_committed(store, values.drop_last());
    }
}

/// However a draft was edited, a commit makes the last value given to it the
/// committed value, with no draft open.
pub proof fn apply_commits_last_edit<T>(store: DraftView<T>, values: Seq<T>)
    requires
        values.len() > 0,
    ensures
        store.edits(values).apply() == (DraftView { committed: values.last(), pending: None }),
{
}

/// A commit or a discard without a draft changes nothing.
pub proof fn closing_without_draft_is_no_op<T>(store: DraftView<T>)
    requires
        store.pending is None,
    ensures
        store.apply() == store,
        store.discard() == store,
{
}

/// After a commit or a discard no draft is open, so a store never holds more
/// than the one pending copy that its type allows.
pub proof fn closing_leaves_no_draft<T>(store: DraftView<T>)
    ensures
        store.apply().pending is None,
        store.discard().pending is None,
{
}

/// Asking for the draft while one is open hands out that draft with the
/// edits made so far, not a fresh copy of the committed value.
pub proof fn second_draft_reuses_pending<T>(store: DraftView<T>, value: T, fresh: T)
    ensures
        store.edit(value).opened(fresh) == value,
        store.edit(value).edit(store.edit(value).opened(fresh)) == store.edit(value),
{
}

} // verus!
