//! The application state: the identifier allocator, the task store and the
//! filter state, built once at startup and handed to every handler.

use vstd::prelude::*;
use crate::filter::{FilterKind, FilterState};
use crate::ident::IdAllocator;
use crate::task::{ids_ascending, ids_below, TaskModel, TaskStore};

verus! {

/// The model of the application state.
pub struct AppModel {
    /// The identifier that the next new task gets.
    pub next_id: u32,
    /// The tasks in insertion order.
    pub tasks: Seq<TaskModel>,
    /// The selected filter.
    pub selected: FilterKind,
}

impl AppModel {
    /// The state at startup: no task, the counter at 0, All selected.
    pub open spec fn initial() -> AppModel {
        AppModel { next_id: 0, tasks: Seq::empty(), selected: FilterKind::All }
    }

    /// The state after a session reset: no task and the counter at 0; the
    /// selection stays.
    pub open spec fn reset(self) -> AppModel {
        AppModel { next_id: 0, tasks: Seq::empty(), ..self }
    }
}

/// Everything that the handlers share.
#[derive(Debug)]
pub struct AppState {
    pub ids: IdAllocator,
    pub tasks: TaskStore,
    pub filters: FilterState,
}

impl View for AppState {
    type V = AppModel;

    open spec fn view(&self) -> AppModel {
        AppModel { next_id: self.ids@, tasks: self.tasks@, selected: self.filters@ }
    }
}

impl AppState {
    /// The state at startup.
    pub fn new() -> (r: AppState)
        ensures
            r@ == AppModel::initial(),
    {
        AppState { ids: IdAllocator::new(), tasks: TaskStore::new(), filters: FilterState::new() }
    }

    /// Purges the session's data: empties the store and sets the counter back
    /// to 0, as one step of whoever holds the state.
    pub fn reset(&mut self)
        ensures
            final(self)@ == old(self)@.reset(),
    {
        self.tasks.clear();
        self.ids.reset();
    }
}

/// At startup and after a reset no task is stored and the counter is at 0: the
/// identifiers of the tasks are, for want of any, ascending and below the
/// counter.
pub proof fn law_fresh_state_keeps_ids_apart(state: AppModel)
    ensures
        ids_ascending(AppModel::initial().tasks),
        ids_below(AppModel::initial().tasks, AppModel::initial().next_id as int),
        ids_ascending(state.reset().tasks),
        ids_below(state.reset().tasks, state.reset().next_id as int),
{
}

} // verus!
