//! The queue of deferred namespace changes that a call leaves behind.

use vstd::prelude::*;

use crate::registry::{ObjectData, ObjectRecord};

verus! {

/// A change to the namespace, held back until the call that made it is done.
#[derive(Clone, Debug)]
pub enum DeferredAction {
    /// Bind `path` to `data`.
    Add { path: String, data: ObjectData },
    /// Unbind `path`.
    Remove { path: String },
}

/// The mathematical value of a `DeferredAction`.
pub enum ActionView {
    Add(Seq<char>, ObjectRecord),
    Remove(Seq<char>),
}

impl View for DeferredAction {
    type V = ActionView;

    open spec fn view(&self) -> ActionView {
        match self {
            DeferredAction::Add { path, data } => ActionView::Add(path@, data@),
            DeferredAction::Remove { path } => ActionView::Remove(path@),
        }
    }
}

impl DeferredAction {
    /// A copy of this action.
    pub fn copied(&self) -> (r: DeferredAction)
        ensures
            r@ == self@,
    {
        match self {
            DeferredAction::Add { path, data } => DeferredAction::Add {
                path: path.clone(),
                data: data.copied(),
            },
            DeferredAction::Remove { path } => DeferredAction::Remove { path: path.clone() },
        }
    }

    /// The path that the action binds or unbinds.
    pub fn path(&self) -> (r: &String)
        ensures
            r@ == match self@ {
                ActionView::Add(p, _) => p,
                ActionView::Remove(p) => p,
            },
    {
        match self {
            DeferredAction::Add { path, .. } => path,
            DeferredAction::Remove { path } => path,
        }
    }
}

/// The values of a sequence of actions.
pub open spec fn actions_view(s: Seq<DeferredAction>) -> Seq<ActionView> {
    s.map_values(|a: DeferredAction| a@)
}

/// Pending actions, oldest first.
pub struct ActionQueue {
    actions: Vec<DeferredAction>,
}

impl View for ActionQueue {
    type V = Seq<ActionView>;

    closed spec fn view(&self) -> Seq<ActionView> {
        actions_view(self.actions@)
    }
}

impl ActionQueue {
    /// An empty queue.
    pub fn new() -> (r: ActionQueue)
        ensures
            r@ == Seq::<ActionView>::empty(),
    {
        let r = ActionQueue { actions: Vec::new() };
        assert(r@ =~= Seq::<ActionView>::empty());
        r
    }

    /// The number of pending actions.
    pub fn len(&self) -> (r: usize)
        ensures
            r == self@.len(),
    {
        self.actions.len()
    }

    /// Whether no action is pending.
    pub fn is_empty(&self) -> (r: bool)
        ensures
            r == (self@.len() == 0),
    {
        self.actions.len() == 0
    }

    /// Appends an action that binds `path` to `data`.
    pub fn push_add(&mut self, path: String, data: ObjectData)
        ensures
            final(self)@ == old(self)@.push(ActionView::Add(path@, data@)),
    {
        self.actions.push(DeferredAction::Add { path, data });
        assert(final(self)@ =~= old(self)@.push(ActionView::Add(path@, data@)));
    }

    /// Appends an action that unbinds `path`.
    pub fn push_remove(&mut self, path: String)
        ensures
            final(self)@ == old(self)@.push(ActionView::Remove(path@)),
    {
        self.actions.push(DeferredAction::Remove { path });
        assert(final(self)@ =~= old(self)@.push(ActionView::Remove(path@)));
    }

    /// Hands out every pending action, oldest first, and leaves the queue
    /// empty.
    pub fn drain(&mut self) -> (r: Vec<DeferredAction>)
        ensures
            actions_view(r@) == old(self)@,
            final(self)@ == Seq::<ActionView>::empty(),
    {
        let mut taken: Vec<DeferredAction> = Vec::new();
        std::mem::swap(&mut taken, &mut self.actions);
        assert(final(self)@ =~= Seq::<ActionView>::empty());
        taken
    }
}

} // verus!
