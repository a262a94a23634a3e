//! A property cell that knows whether its value was set here or taken over.

use vstd::prelude::*;

verus! {

/// What a [`TemplateVariable`] holds, as a mathematical value.
pub ghost struct VariableState<T> {
    /// The current value.
    pub value: T,
    /// Whether the value was set on this instance. A cell that is not modified
    /// mirrors its template.
    pub modified: bool,
    /// Whether the cell was created or set since it was last synchronized.
    pub need_sync: bool,
}

impl<T> VariableState<T> {
    /// A cell as it is created: it holds `value`, mirrors its template and
    /// waits for its first synchronization.
    pub open spec fn fresh(value: T) -> Self {
        VariableState { value, modified: false, need_sync: true }
    }

    /// The cell after `value` was set on it.
    pub open spec fn set(self, value: T) -> Self {
        VariableState { value, modified: true, need_sync: true }
    }

    /// The cell after it resolved its inheritance against `parent`: a modified
    /// cell stays as it is, any other takes the parent's value and nothing else.
    pub open spec fn inherit(self, parent: Self) -> Self {
        if self.modified {
            self
        } else {
            VariableState { value: parent.value, ..self }
        }
    }

    /// The cell after a synchronization.
    pub open spec fn synced(self) -> Self {
        VariableState { need_sync: false, ..self }
    }

    /// What a synchronization hands out: the value, if the cell waits for it.
    pub open spec fn pending(self) -> Option<T> {
        if self.need_sync {
            Some(self.value)
        } else {
            None
        }
    }

    /// The cell after the values of `values` were set on it, first to last.
    pub open spec fn set_all(self, values: Seq<T>) -> Self
        decreases values.len(),
    {
        if values.len() == 0 {
            self
        } else {
            self.set_all(values.drop_last()).set(values.last())
        }
    }

    /// The cell after it resolved its inheritance against each state of
    /// `parents` in turn, first to last.
    pub open spec fn inherit_all(self, parents: Seq<Self>) -> Self
        decreases parents.len(),
    {
        if parents.len() == 0 {
            self
        } else {
            self.inherit_all(parents.drop_last()).inherit(parents.last())
        }
    }
}

/// A value together with two markers: whether it was set on this instance, and
/// whether it has changed hands since the last synchronization.
///
/// An instance made from a template keeps following the template in every
/// property that nobody set on the instance, and keeps for good what was set.
#[derive(Debug)]
pub struct TemplateVariable<T> {
    value: T,
    modified: bool,
    need_sync: bool,
}

impl<T> View for TemplateVariable<T> {
    type V = VariableState<T>;

    closed spec fn view(&self) -> VariableState<T> {
        VariableState { value: self.value, modified: self.modified, need_sync: self.need_sync }
    }
}

impl<T: Copy> Clone for TemplateVariable<T> {
    /// A copy with the same value and the same markers.
    fn clone(&self) -> (copy: Self)
        ensures
            copy@ == self@,
    {
        TemplateVariable { value: self.value, modified: self.modified, need_sync: self.need_sync }
    }
}

impl<T: Copy> TemplateVariable<T> {
    /// A cell that holds `value` and mirrors its template.
    pub fn new(value: T) -> (var: Self)
        ensures
            var@ == VariableState::fresh(value),
    {
        TemplateVariable { value, modified: false, need_sync: true }
    }

    /// The current value.
    pub fn get(&self) -> (value: T)
        ensures
            value == self@.value,
    {
        self.value
    }

    /// Sets `value` on this instance and returns the value held before. The cell
    /// is modified from now on, whether or not the value differs.
    pub fn set(&mut self, value: T) -> (previous: T)
        ensures
            final(self)@ == old(self)@.set(value),
            previous == old(self)@.value,
    {
        let previous = self.value;
        self.value = value;
        self.modified = true;
        self.need_sync = true;
        previous
    }

    /// Whether a value was set on this instance.
    pub fn is_modified(&self) -> (modified: bool)
        ensures
            modified == self@.modified,
    {
        self.modified
    }

    /// Whether the cell was created or set since it was last synchronized.
    pub fn need_sync(&self) -> (need: bool)
        ensures
            need == self@.need_sync,
    {
        self.need_sync
    }

    /// Takes over the parent's value unless a value was set on this instance,
    /// and says whether it did. The markers stay as they are.
    pub fn try_inherit(&mut self, parent: &TemplateVariable<T>) -> (inherited: bool)
        ensures
            final(self)@ == old(self)@.inherit(parent@),
            inherited == !old(self)@.modified,
    {
        if self.modified {
            false
        } else {
            self.value = parent.value;
            true
        }
    }

    /// Hands out the value if the cell waits for synchronization, and records
    /// the synchronization. A cell that does not wait is left alone.
    pub fn try_sync_model(&mut self) -> (pending: Option<T>)
        ensures
            final(self)@ == old(self)@.synced(),
            pending == old(self)@.pending(),
    {
        if self.need_sync {
            self.need_sync = false;
            Some(self.value)
        } else {
            None
        }
    }
}

/// After one or more values were set on a cell, the cell holds the last of them
/// and is modified, and resolving its inheritance against any parent changes
/// nothing.
pub proof fn lemma_last_set_wins<T>(
    start: VariableState<T>,
    values: Seq<T>,
    parent: VariableState<T>,
)
    requires
        values.len() > 0,
    ensures
        start.set_all(values).value == values.last(),
        start.set_all(values).modified,
        start.set_all(values).inherit(parent) == start.set_all(values),
{
}

/// A cell on which a value was set stays modified: neither setting again, nor
/// resolving inheritance, nor a synchronization makes it mirror its template
/// again.
pub proof fn lemma_modified_stays_modified<T>(
    state: VariableState<T>,
    value: T,
    parent: VariableState<T>,
)
    ensures
        state.set(value).modified,
        state.modified ==> state.inherit(parent).modified,
        state.modified ==> state.synced().modified,
{
}

/// A cell on which no value was ever set follows its parent: whatever values
/// were set on the parent, and however many, resolving the inheritance gives the
/// cell the value that the parent holds then, the last one set if there was one.
/// The cell still mirrors afterwards.
pub proof fn lemma_unmodified_follows_parent<T>(
    child: VariableState<T>,
    parent: VariableState<T>,
    changes: Seq<T>,
)
    requires
        !child.modified,
    ensures
        child.inherit(parent.set_all(changes)).value == parent.set_all(changes).value,
        changes.len() > 0 ==> child.inherit(parent.set_all(changes)).value == changes.last(),
        !child.inherit(parent.set_all(changes)).modified,
{
}

/// A cell on which no value was ever set keeps following: after it resolved its
/// inheritance against one or more states of the parent in turn, it holds the
/// value of the last of them.
pub proof fn lemma_unmodified_keeps_following<T>(
    start: VariableState<T>,
    parents: Seq<VariableState<T>>,
)
    requires
        !start.modified,
        parents.len() > 0,
    ensures
        start.inherit_all(parents).value == parents.last().value,
        !start.inherit_all(parents).modified,
{
    lemma_inherit_all_keeps_markers(start, parents.drop_last());
}

/// Resolving inheritance, however often, changes neither marker.
pub proof fn lemma_inherit_all_keeps_markers<T>(
    start: VariableState<T>,
    parents: Seq<VariableState<T>>,
)
    ensures
        start.inherit_all(parents).modified == start.modified,
        start.inherit_all(parents).need_sync == start.need_sync,
        start.modified ==> start.inherit_all(parents) == start,
    decreases parents.len(),
{
    if parents.len() > 0 {
        lemma_inherit_all_keeps_markers(start, parents.drop_last());
    }
}

/// A cell that was synchronized does not wait for synchronization until a value
/// is set on it: resolving inheritance in between, however often, does not make
/// it wait.
pub proof fn lemma_synced_stays_synced<T>(
    state: VariableState<T>,
    parents: Seq<VariableState<T>>,
)
    ensures
        !state.synced().need_sync,
        !state.synced().inherit_all(parents).need_sync,
{
    lemma_inherit_all_keeps_markers(state.synced(), parents);
}

} // verus!
