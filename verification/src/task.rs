//! Tasks and the task store: the ordered collection of tasks with its
//! operations to create, read, change and delete them. Tasks stay in the order
//! in which they were added.

use vstd::prelude::*;
use crate::filter::FilterKind;
use crate::ident::{exhausted, IdAllocator};
use crate::text::{blank, is_blank};

verus! {

/// The model of a task: its text as a sequence of characters.
pub struct TaskModel {
    pub id: u32,
    pub text: Seq<char>,
    pub done: bool,
    pub editing: bool,
}

impl TaskModel {
    /// A task as `add` creates it: not done, not being edited.
    pub open spec fn fresh(id: u32, text: Seq<char>) -> TaskModel {
        TaskModel { id, text, done: false, editing: false }
    }

    /// The task with `done` flipped.
    pub open spec fn toggled(self) -> TaskModel {
        TaskModel { done: !self.done, ..self }
    }

    /// The task with its text replaced.
    pub open spec fn with_text(self, text: Seq<char>) -> TaskModel {
        TaskModel { text, ..self }
    }

    /// The task marked as being edited.
    pub open spec fn in_edit(self) -> TaskModel {
        TaskModel { editing: true, ..self }
    }

    /// Whether the task belongs to what the filter `kind` lists.
    pub open spec fn shown_under(self, kind: FilterKind) -> bool {
        match kind {
            FilterKind::All => true,
            FilterKind::Active => !self.done,
            FilterKind::Completed => self.done,
        }
    }
}

/// One entry of the task list. `id` never changes once it is assigned;
/// `editing` is a flag for one response and is never stored as `true`.
#[derive(Debug, PartialEq, Eq)]
pub struct Task {
    pub id: u32,
    pub text: String,
    pub done: bool,
    pub editing: bool,
}

impl View for Task {
    type V = TaskModel;

    open spec fn view(&self) -> TaskModel {
        TaskModel { id: self.id, text: self.text@, done: self.done, editing: self.editing }
    }
}

impl Clone for Task {
    fn clone(&self) -> (r: Task)
        ensures
            r@ == self@,
    {
        Task { id: self.id, text: self.text.clone(), done: self.done, editing: self.editing }
    }
}

impl Task {
    /// A task with the next identifier of `ids`, which must have one left.
    pub fn new_id(text: String, done: bool, editing: bool, ids: &mut IdAllocator) -> (r: Task)
        requires
            !exhausted(old(ids)@),
        ensures
            r@ == (TaskModel { id: old(ids)@, text: text@, done, editing }),
            final(ids)@ == old(ids)@ + 1,
    {
        let id = ids.next();
        Task { id, text, done, editing }
    }
}

/// Why a store operation did nothing.
#[derive(Clone, Copy, Debug, PartialEq, Eq, Structural)]
pub enum StoreError {
    /// The text of a new task was blank.
    EmptyInput,
    /// No identifier is left for a new task: every one below the largest
    /// `u32` has been handed out since the last reset.
    Exhausted,
    /// No task has the identifier.
    NotFound,
}

/// What `update` did to the task it found.
#[derive(Debug, PartialEq, Eq)]
pub enum Updated {
    /// The text was replaced; this is the task afterwards.
    Changed(Task),
    /// The new text was blank, so the task was deleted.
    Deleted,
}

/// The models of a sequence of tasks, in order.
pub open spec fn task_models(tasks: Seq<Task>) -> Seq<TaskModel> {
    tasks.map_values(|t: Task| t@)
}

/// The index of the first task with identifier `id`, if there is one.
pub open spec fn position(tasks: Seq<TaskModel>, id: u32) -> Option<int>
    decreases tasks.len(),
{
    if tasks.len() == 0 {
        None
    } else {
        match position(tasks.drop_last(), id) {
            Some(i) => Some(i),
            None => if tasks.last().id == id {
                Some(tasks.len() - 1)
            } else {
                None
            },
        }
    }
}

/// The tasks whose identifier is not `id`, in their order.
pub open spec fn without(tasks: Seq<TaskModel>, id: u32) -> Seq<TaskModel> {
    tasks.filter(|t: TaskModel| t.id != id)
}

/// The tasks that the filter `kind` lists, in their order.
pub open spec fn listed(tasks: Seq<TaskModel>, kind: FilterKind) -> Seq<TaskModel> {
    tasks.filter(|t: TaskModel| t.shown_under(kind))
}

/// The number of tasks that are not done.
pub open spec fn active_count(tasks: Seq<TaskModel>) -> nat {
    listed(tasks, FilterKind::Active).len()
}

/// Whether there is a task and every task is done.
pub open spec fn all_done(tasks: Seq<TaskModel>) -> bool {
    tasks.len() > 0 && active_count(tasks) == 0
}

/// Whether at least one task is done.
pub open spec fn any_completed(tasks: Seq<TaskModel>) -> bool {
    exists|i: int| 0 <= i < tasks.len() && (#[trigger] tasks[i]).done
}

/// Whether `add` takes the text `text` when the counter stands at `next`: the
/// text is not blank and an identifier is left for it.
pub open spec fn adds(next: u32, text: Seq<char>) -> bool {
    !blank(text) && !exhausted(next)
}

/// The store after `add` with the counter at `next`: a text that is taken is
/// appended as a fresh task under the identifier `next`, and any other
/// changes nothing.
pub open spec fn after_add(tasks: Seq<TaskModel>, next: u32, text: Seq<char>) -> Seq<
    TaskModel,
> {
    if adds(next, text) {
        tasks.push(TaskModel::fresh(next, text))
    } else {
        tasks
    }
}

/// The counter after `add`: it moves on by one for a text that is taken and
/// stays for any other.
pub open spec fn counter_after_add(next: u32, text: Seq<char>) -> u32 {
    if adds(next, text) {
        (next + 1) as u32
    } else {
        next
    }
}

/// The store after `toggle`: the first task with that identifier has `done`
/// flipped.
pub open spec fn after_toggle(tasks: Seq<TaskModel>, id: u32) -> Seq<TaskModel> {
    match position(tasks, id) {
        Some(i) => tasks.update(i, tasks[i].toggled()),
        None => tasks,
    }
}

/// The store after `update`: where a task has the identifier, a blank text
/// deletes it and any other text replaces the text of the first such task.
pub open spec fn after_update(tasks: Seq<TaskModel>, id: u32, text: Seq<char>) -> Seq<
    TaskModel,
> {
    match position(tasks, id) {
        Some(i) => if blank(text) {
            without(tasks, id)
        } else {
            tasks.update(i, tasks[i].with_text(text))
        },
        None => tasks,
    }
}

/// `position` returns the first index that holds the identifier, and `None`
/// exactly when no index holds it.
pub proof fn lemma_position(tasks: Seq<TaskModel>, id: u32)
    ensures
        match position(tasks, id) {
            Some(i) => 0 <= i < tasks.len() && tasks[i].id == id && forall|j: int|
                0 <= j < i ==> (#[trigger] tasks[j]).id != id,
            None => forall|j: int| 0 <= j < tasks.len() ==> (#[trigger] tasks[j]).id != id,
        },
    decreases tasks.len(),
{
    if tasks.len() > 0 {
        let front = tasks.drop_last();
        lemma_position(front, id);
        assert(forall|j: int| 0 <= j < front.len() ==> front[j] == tasks[j]);
    }
}

/// An index that holds the identifier, with none before it that does, is the
/// position of the identifier.
pub proof fn lemma_position_is(tasks: Seq<TaskModel>, id: u32, i: int)
    requires
        0 <= i < tasks.len(),
        tasks[i].id == id,
        forall|j: int| 0 <= j < i ==> (#[trigger] tasks[j]).id != id,
    ensures
        position(tasks, id) == Some(i),
{
    lemma_position(tasks, id);
}

/// Where no task has the identifier, `position` is `None`.
pub proof fn lemma_position_none(tasks: Seq<TaskModel>, id: u32)
    requires
        forall|j: int| 0 <= j < tasks.len() ==> (#[trigger] tasks[j]).id != id,
    ensures
        position(tasks, id) is None,
{
    lemma_position(tasks, id);
}

/// A filter that every task passes keeps the sequence as it is.
pub proof fn lemma_filter_all(tasks: Seq<TaskModel>, pred: spec_fn(TaskModel) -> bool)
    requires
        forall|j: int| 0 <= j < tasks.len() ==> pred(#[trigger] tasks[j]),
    ensures
        tasks.filter(pred) == tasks,
    decreases tasks.len(),
{
    reveal(Seq::filter);
    if tasks.len() > 0 {
        let front = tasks.drop_last();
        lemma_filter_all(front, pred);
    }
}

/// Every task that a filter keeps passes the filter and was in the sequence.
pub proof fn lemma_filter_members(tasks: Seq<TaskModel>, pred: spec_fn(TaskModel) -> bool)
    ensures
        forall|j: int|
            0 <= j < tasks.filter(pred).len() ==> pred(#[trigger] tasks.filter(pred)[j])
                && tasks.contains(tasks.filter(pred)[j]),
        tasks.filter(pred).len() <= tasks.len(),
        tasks.filter(pred).len() == 0 <==> forall|j: int|
            0 <= j < tasks.len() ==> !pred(#[trigger] tasks[j]),
    decreases tasks.len(),
{
    reveal(Seq::filter);
    if tasks.len() > 0 {
        let front = tasks.drop_last();
        lemma_filter_members(front, pred);
        assert(forall|j: int| 0 <= j < front.len() ==> front[j] == tasks[j]);
        assert forall|j: int| 0 <= j < tasks.filter(pred).len() implies tasks.contains(
            #[trigger] tasks.filter(pred)[j],
        ) by {
            if j < front.filter(pred).len() {
                let x = front.filter(pred)[j];
                let k = choose|k: int| 0 <= k < front.len() && front[k] == x;
                assert(tasks[k] == x);
            } else {
                assert(tasks[tasks.len() - 1] == tasks.last());
            }
        }
    }
}

/// The task store. Its view is the sequence of its tasks in insertion order.
#[derive(Debug)]
pub struct TaskStore {
    tasks: Vec<Task>,
}

impl View for TaskStore {
    type V = Seq<TaskModel>;

    closed spec fn view(&self) -> Seq<TaskModel> {
        task_models(self.tasks@)
    }
}

impl TaskStore {
    /// The empty store.
    pub fn new() -> (r: TaskStore)
        ensures
            r@ == Seq::<TaskModel>::empty(),
    {
        TaskStore { tasks: Vec::new() }
    }

    /// The number of tasks.
    pub fn len(&self) -> (n: usize)
        ensures
            n == self@.len(),
    {
        self.tasks.len()
    }

    /// Whether the store holds no task.
    pub fn is_empty(&self) -> (r: bool)
        ensures
            r == (self@.len() == 0),
    {
        self.tasks.len() == 0
    }

    /// The index of the first task with identifier `id`.
    fn index_of(&self, id: u32) -> (r: Option<usize>)
        ensures
            match r {
                Some(i) => position(self@, id) == Some(i as int) && i < self.tasks@.len(),
                None => position(self@, id) is None,
            },
    {
        let n = self.tasks.len();
        let mut i: usize = 0;
        while i < n
            invariant
                n == self.tasks@.len(),
                i <= n,
                forall|j: int| 0 <= j < i ==> (#[trigger] self@[j]).id != id,
            decreases n - i,
        {
            if self.tasks[i].id == id {
                proof {
                    lemma_position_is(self@, id, i as int);
                }
                return Some(i);
            }
            i = i + 1;
        }
        proof {
            lemma_position_none(self@, id);
        }
        None
    }

    /// Appends a task with text `text` under the next identifier of `ids` and
    /// returns it. A blank text is refused, and so is any text once `ids` is
    /// exhausted: then nothing is stored and no identifier is used up.
    pub fn add(&mut self, text: String, ids: &mut IdAllocator) -> (r: Result<Task, StoreError>)
        ensures
            final(self)@ == after_add(old(self)@, old(ids)@, text@),
            final(ids)@ == counter_after_add(old(ids)@, text@),
            match r {
                Ok(task) => adds(old(ids)@, text@) && task@ == TaskModel::fresh(old(ids)@, text@),
                Err(StoreError::EmptyInput) => blank(text@),
                Err(StoreError::Exhausted) => !blank(text@) && exhausted(old(ids)@),
                Err(StoreError::NotFound) => false,
            },
    {
        if is_blank(text.as_str()) {
            return Err(StoreError::EmptyInput);
        }
        if ids.is_exhausted() {
            return Err(StoreError::Exhausted);
        }
        let task = Task::new_id(text, false, false, ids);
        let copy = task.clone();
        self.tasks.push(task);
        Ok(copy)
    }

    /// Flips `done` of the task with identifier `id` and returns the task as
    /// it is afterwards.
    pub fn toggle(&mut self, id: u32) -> (r: Result<Task, StoreError>)
        ensures
            final(self)@ == after_toggle(old(self)@, id),
            match r {
                Ok(task) => {
                    &&& position(old(self)@, id) matches Some(i)
                    &&& task@ == old(self)@[i].toggled()
                },
                Err(e) => position(old(self)@, id) is None && e == StoreError::NotFound,
            },
    {
        match self.index_of(id) {
            Some(i) => {
                self.tasks[i].done = !self.tasks[i].done;
                Ok(self.tasks[i].clone())
            },
            None => Err(StoreError::NotFound),
        }
    }

    /// Returns a copy of the task with identifier `id` that is marked as
    /// being edited. The stored task is not touched: the mark lives for one
    /// response only, so two requests to begin editing never conflict.
    pub fn begin_edit(&self, id: u32) -> (r: Result<Task, StoreError>)
        ensures
            match r {
                Ok(task) => position(self@, id) matches Some(i) && task@ == self@[i].in_edit(),
                Err(e) => position(self@, id) is None && e == StoreError::NotFound,
            },
    {
        match self.index_of(id) {
            Some(i) => {
                let mut copy = self.tasks[i].clone();
                copy.editing = true;
                Ok(copy)
            },
            None => Err(StoreError::NotFound),
        }
    }

    /// Returns a copy of the task with identifier `id`.
    pub fn find(&self, id: u32) -> (r: Result<Task, StoreError>)
        ensures
            match r {
                Ok(task) => position(self@, id) matches Some(i) && task@ == self@[i],
                Err(e) => position(self@, id) is None && e == StoreError::NotFound,
            },
    {
        match self.index_of(id) {
            Some(i) => Ok(self.tasks[i].clone()),
            None => Err(StoreError::NotFound),
        }
    }

    /// Gives the task with identifier `id` the text `text` and returns the
    /// task as it is afterwards; a blank `text` deletes the task instead.
    pub fn update(&mut self, id: u32, text: String) -> (r: Result<Updated, StoreError>)
        ensures
            final(self)@ == after_update(old(self)@, id, text@),
            match r {
                Ok(Updated::Changed(task)) => {
                    &&& !blank(text@)
                    &&& position(old(self)@, id) matches Some(i)
                    &&& task@ == old(self)@[i].with_text(text@)
                },
                Ok(Updated::Deleted) => blank(text@) && position(old(self)@, id) is Some,
                Err(e) => position(old(self)@, id) is None && e == StoreError::NotFound,
            },
    {
        match self.index_of(id) {
            Some(i) => {
                if is_blank(text.as_str()) {
                    self.retain_others(id);
                    Ok(Updated::Deleted)
                } else {
                    self.tasks[i].text = text;
                    Ok(Updated::Changed(self.tasks[i].clone()))
                }
            },
            None => Err(StoreError::NotFound),
        }
    }

    /// Deletes the task with identifier `id`. That no task has the identifier
    /// is reported and changes nothing.
    pub fn remove(&mut self, id: u32) -> (r: Result<(), StoreError>)
        ensures
            final(self)@ == without(old(self)@, id),
            match r {
                Ok(_) => position(old(self)@, id) is Some,
                Err(e) => position(old(self)@, id) is None && e == StoreError::NotFound,
            },
    {
        let found = self.index_of(id);
        self.retain_others(id);
        match found {
            Some(_) => Ok(()),
            None => Err(StoreError::NotFound),
        }
    }

    /// Keeps the tasks whose identifier is not `id`, in their order.
    fn retain_others(&mut self, id: u32)
        ensures
            final(self)@ == without(old(self)@, id),
    {
        let mut all: Vec<Task> = Vec::new();
        core::mem::swap(&mut all, &mut self.tasks);
        assert(self@ =~= without(old(self)@.take(0), id)) by {
            reveal(Seq::filter);
        }
        for task in it: all
            invariant
                it.seq() == old(self).tasks@,
                self@ == without(old(self)@.take(it.index() as int), id),
        {
            let ghost i = it.index() as int;
            proof {
                reveal(Seq::filter);
                assert(old(self)@.take(i + 1).drop_last() =~= old(self)@.take(i));
            }
            if task.id != id {
                self.tasks.push(task);
            }
        }
        assert(old(self)@.take(old(self)@.len() as int) =~= old(self)@);
    }

    /// Copies of the tasks that the filter `kind` lists, in store order:
    /// every task under All, the tasks not done under Active, the tasks done
    /// under Completed.
    pub fn list(&self, kind: FilterKind) -> (r: Vec<Task>)
        ensures
            task_models(r@) == listed(self@, kind),
    {
        let mut out: Vec<Task> = Vec::new();
        let n = self.tasks.len();
        let mut i: usize = 0;
        assert(task_models(out@) =~= listed(self@.take(0), kind)) by {
            reveal(Seq::filter);
        }
        while i < n
            invariant
                n == self.tasks@.len(),
                i <= n,
                task_models(out@) == listed(self@.take(i as int), kind),
            decreases n - i,
        {
            proof {
                reveal(Seq::filter);
                assert(self@.take(i + 1).drop_last() =~= self@.take(i as int));
            }
            let task = &self.tasks[i];
            let shown = match kind {
                FilterKind::All => true,
                FilterKind::Active => !task.done,
                FilterKind::Completed => task.done,
            };
            if shown {
                out.push(task.clone());
            }
            i = i + 1;
        }
        assert(self@.take(n as int) =~= self@);
        out
    }

    /// Copies of all tasks in store order: a snapshot of the store.
    pub fn snapshot(&self) -> (r: Vec<Task>)
        ensures
            task_models(r@) == self@,
    {
        proof {
            law_lists_partition(self@);
        }
        self.list(FilterKind::All)
    }

    /// The number of tasks that are not done.
    pub fn count_active(&self) -> (n: usize)
        ensures
            n == active_count(self@),
    {
        let len = self.tasks.len();
        let mut count: usize = 0;
        let mut i: usize = 0;
        assert(active_count(self@.take(0)) == 0) by {
            reveal(Seq::filter);
        }
        while i < len
            invariant
                len == self.tasks@.len(),
                i <= len,
                count <= i,
                count == active_count(self@.take(i as int)),
            decreases len - i,
        {
            proof {
                reveal(Seq::filter);
                assert(self@.take(i + 1).drop_last() =~= self@.take(i as int));
            }
            if !self.tasks[i].done {
                count = count + 1;
            }
            i = i + 1;
        }
        assert(self@.take(len as int) =~= self@);
        count
    }

    /// Whether some task is done.
    pub fn has_completed(&self) -> (r: bool)
        ensures
            r == any_completed(self@),
    {
        let n = self.tasks.len();
        let mut i: usize = 0;
        while i < n
            invariant
                n == self.tasks@.len(),
                i <= n,
                forall|j: int| 0 <= j < i ==> !(#[trigger] self@[j]).done,
            decreases n - i,
        {
            if self.tasks[i].done {
                assert(self@[i as int].done);
                return true;
            }
            i = i + 1;
        }
        false
    }

    /// Whether the store holds a task and every task in it is done.
    pub fn all_done(&self) -> (r: bool)
        ensures
            r == all_done(self@),
    {
        self.count_active() == 0 && !self.is_empty()
    }

    /// Empties the store.
    pub fn clear(&mut self)
        ensures
            final(self)@ == Seq::<TaskModel>::empty(),
    {
        self.tasks.clear();
    }
}

/// Whether the identifiers grow strictly along the sequence. Then no two
/// tasks share an identifier.
pub open spec fn ids_ascending(tasks: Seq<TaskModel>) -> bool {
    forall|i: int, j: int|
        0 <= i < j < tasks.len() ==> (#[trigger] tasks[i]).id < (#[trigger] tasks[j]).id
}

/// Whether every identifier in the sequence is smaller than `bound`.
pub open spec fn ids_below(tasks: Seq<TaskModel>, bound: int) -> bool {
    forall|i: int| 0 <= i < tasks.len() ==> (#[trigger] tasks[i]).id < bound
}

/// The number of texts in `texts` that are not blank.
pub open spec fn count_not_blank(texts: Seq<Seq<char>>) -> nat {
    texts.filter(|t: Seq<char>| !blank(t)).len()
}

/// The store and the counter after `add` was called with each text of `texts`
/// in turn.
pub open spec fn after_adds(tasks: Seq<TaskModel>, next: u32, texts: Seq<Seq<char>>) -> (
    Seq<TaskModel>,
    u32,
)
    decreases texts.len(),
{
    if texts.len() == 0 {
        (tasks, next)
    } else {
        let (before, counter) = after_adds(tasks, next, texts.drop_last());
        (after_add(before, counter, texts.last()), counter_after_add(counter, texts.last()))
    }
}

/// Toggling a task twice leaves the store as it was.
pub proof fn law_toggle_twice(tasks: Seq<TaskModel>, id: u32)
    ensures
        after_toggle(after_toggle(tasks, id), id) == tasks,
{
    lemma_position(tasks, id);
    match position(tasks, id) {
        Some(i) => {
            lemma_position_is(after_toggle(tasks, id), id, i);
        },
        None => {},
    }
}

/// What is left once the tasks with an identifier are deleted holds no task
/// with that identifier.
pub proof fn lemma_without_has_none(tasks: Seq<TaskModel>, id: u32)
    ensures
        position(without(tasks, id), id) is None,
{
    lemma_filter_members(tasks, |t: TaskModel| t.id != id);
    lemma_position_none(without(tasks, id), id);
}

/// An update with a blank text deletes the task: afterwards no task has the
/// identifier, so that `toggle` and `update` on it report `NotFound` and
/// change nothing.
pub proof fn law_blank_update_deletes(tasks: Seq<TaskModel>, id: u32, text: Seq<char>)
    requires
        blank(text),
    ensures
        position(after_update(tasks, id, text), id) is None,
        forall|other: Seq<char>| #[trigger]
            after_update(after_update(tasks, id, text), id, other) == after_update(
                tasks,
                id,
                text,
            ),
        after_toggle(after_update(tasks, id, text), id) == after_update(tasks, id, text),
{
    lemma_without_has_none(tasks, id);
}

/// After `remove` no task has the identifier, and removing again changes
/// nothing.
pub proof fn law_remove_is_idempotent(tasks: Seq<TaskModel>, id: u32)
    ensures
        position(without(tasks, id), id) is None,
        without(without(tasks, id), id) == without(tasks, id),
{
    lemma_without_has_none(tasks, id);
    lemma_filter_members(tasks, |t: TaskModel| t.id != id);
    lemma_filter_all(without(tasks, id), |t: TaskModel| t.id != id);
}

/// No task is left undone exactly when every task is done; so `all_done`
/// holds exactly of a store that is not empty and has only done tasks.
pub proof fn law_none_active(tasks: Seq<TaskModel>)
    ensures
        active_count(tasks) == 0 <==> forall|i: int|
            0 <= i < tasks.len() ==> (#[trigger] tasks[i]).done,
        active_count(tasks) <= tasks.len(),
        all_done(tasks) <==> tasks.len() > 0 && forall|i: int|
            0 <= i < tasks.len() ==> (#[trigger] tasks[i]).done,
{
    lemma_filter_members(tasks, |t: TaskModel| t.shown_under(FilterKind::Active));
}

/// Listing under All gives every task, and the tasks listed under Active and
/// under Completed together are as many as the store holds.
pub proof fn law_lists_partition(tasks: Seq<TaskModel>)
    ensures
        listed(tasks, FilterKind::All) == tasks,
        listed(tasks, FilterKind::Active).len() + listed(tasks, FilterKind::Completed).len()
            == tasks.len(),
    decreases tasks.len(),
{
    lemma_filter_all(tasks, |t: TaskModel| t.shown_under(FilterKind::All));
    reveal(Seq::filter);
    if tasks.len() > 0 {
        law_lists_partition(tasks.drop_last());
    }
}

/// `add` keeps the identifiers ascending and below the counter: the new task
/// gets the counter's value, which is above every stored identifier, and the
/// counter moves on past it.
pub proof fn law_add_keeps_ids_ascending(tasks: Seq<TaskModel>, next: u32, text: Seq<char>)
    requires
        ids_ascending(tasks),
        ids_below(tasks, next as int),
    ensures
        ids_ascending(after_add(tasks, next, text)),
        ids_below(after_add(tasks, next, text), counter_after_add(next, text) as int),
        next <= counter_after_add(next, text),
        after_add(tasks, next, text).len() - tasks.len() == counter_after_add(next, text) - next,
{
}

/// Toggling, updating and removing keep ascending identifiers ascending and
/// never bring in an identifier that was not there.
pub proof fn law_changes_keep_ids_ascending(
    tasks: Seq<TaskModel>,
    bound: int,
    id: u32,
    text: Seq<char>,
)
    requires
        ids_ascending(tasks),
        ids_below(tasks, bound),
    ensures
        ids_ascending(after_toggle(tasks, id)),
        ids_below(after_toggle(tasks, id), bound),
        ids_ascending(after_update(tasks, id, text)),
        ids_below(after_update(tasks, id, text), bound),
        ids_ascending(without(tasks, id)),
        ids_below(without(tasks, id), bound),
{
    lemma_position(tasks, id);
    lemma_without_ascending(tasks, bound, id);
}

/// Deleting tasks keeps ascending identifiers ascending and below their
/// bound.
pub proof fn lemma_without_ascending(tasks: Seq<TaskModel>, bound: int, id: u32)
    requires
        ids_ascending(tasks),
        ids_below(tasks, bound),
    ensures
        ids_ascending(without(tasks, id)),
        ids_below(without(tasks, id), bound),
        forall|i: int|
            0 <= i < without(tasks, id).len() && tasks.len() > 0 ==> (#[trigger] without(
                tasks,
                id,
            )[i]).id <= tasks.last().id,
    decreases tasks.len(),
{
    reveal(Seq::filter);
    if tasks.len() > 0 {
        let front = tasks.drop_last();
        lemma_without_ascending(front, bound, id);
    }
}

/// Any run of `add` calls returns strictly increasing identifiers, in
/// whatever order the calls of several callers reach the store: if the
/// identifiers in the store are ascending and below the counter before, they
/// are so afterwards, hence all different. The store grows by one task for
/// each step of the counter, which is one for each text that is not blank as
/// long as identifiers are left.
pub proof fn law_adds_return_increasing_ids(
    tasks: Seq<TaskModel>,
    next: u32,
    texts: Seq<Seq<char>>,
)
    requires
        ids_ascending(tasks),
        ids_below(tasks, next as int),
    ensures
        ids_ascending(after_adds(tasks, next, texts).0),
        ids_below(after_adds(tasks, next, texts).0, after_adds(tasks, next, texts).1 as int),
        after_adds(tasks, next, texts).0.take(tasks.len() as int) == tasks,
        next <= after_adds(tasks, next, texts).1,
        after_adds(tasks, next, texts).0.len() - tasks.len() == after_adds(tasks, next, texts).1
            - next,
        next + count_not_blank(texts) <= u32::MAX ==> after_adds(tasks, next, texts).1 == next
            + count_not_blank(texts),
    decreases texts.len(),
{
    reveal(Seq::filter);
    if texts.len() > 0 {
        let front = texts.drop_last();
        law_adds_return_increasing_ids(tasks, next, front);
        let (before, counter) = after_adds(tasks, next, front);
        law_add_keeps_ids_ascending(before, counter, texts.last());
    }
}

/// Where the identifiers are ascending, each task is found under its own
/// identifier.
pub proof fn law_ascending_ids_are_unique(tasks: Seq<TaskModel>, i: int)
    requires
        ids_ascending(tasks),
        0 <= i < tasks.len(),
    ensures
        position(tasks, tasks[i].id) == Some(i),
        forall|j: int| 0 <= j < tasks.len() && j != i ==> (#[trigger] tasks[j]).id != tasks[i].id,
{
    lemma_position_is(tasks, tasks[i].id, i);
}

/// The first adds into an empty store with a fresh counter get the
/// identifiers 0, 1, 2 and so on, one for each text: as many adds as are
/// made, in whatever order several callers make them, so many tasks the store
/// holds, each under an identifier of its own. This holds of as many adds as
/// there are identifiers.
pub proof fn law_adds_from_empty(texts: Seq<Seq<char>>)
    requires
        forall|i: int| 0 <= i < texts.len() ==> !blank(#[trigger] texts[i]),
        texts.len() <= u32::MAX,
    ensures
        after_adds(Seq::empty(), 0, texts).0.len() == texts.len(),
        forall|i: int|
            0 <= i < texts.len() ==> (#[trigger] after_adds(Seq::empty(), 0, texts).0[i])
                == TaskModel::fresh(i as u32, texts[i]),
    decreases texts.len(),
{
    if texts.len() > 0 {
        let front = texts.drop_last();
        law_adds_from_empty(front);
        lemma_count_not_blank(front);
        law_adds_return_increasing_ids(Seq::empty(), 0, front);
    }
}

/// Where no text is blank, every text counts.
pub proof fn lemma_count_not_blank(texts: Seq<Seq<char>>)
    requires
        forall|i: int| 0 <= i < texts.len() ==> !blank(#[trigger] texts[i]),
    ensures
        count_not_blank(texts) == texts.len(),
    decreases texts.len(),
{
    reveal(Seq::filter);
    if texts.len() > 0 {
        let front = texts.drop_last();
        lemma_count_not_blank(front);
    }
}

/// Whether no task of the sequence is marked as being edited.
pub open spec fn none_in_edit(tasks: Seq<TaskModel>) -> bool {
    forall|i: int| 0 <= i < tasks.len() ==> !(#[trigger] tasks[i]).editing
}

/// The store never keeps the mark of an edit: no operation on a store without
/// such a mark brings one in. The mark exists on the copy that `begin_edit`
/// returns, and nowhere else.
pub proof fn law_store_keeps_no_edit_mark(
    tasks: Seq<TaskModel>,
    next: u32,
    id: u32,
    text: Seq<char>,
)
    requires
        none_in_edit(tasks),
    ensures
        none_in_edit(after_add(tasks, next, text)),
        none_in_edit(after_toggle(tasks, id)),
        none_in_edit(after_update(tasks, id, text)),
        none_in_edit(without(tasks, id)),
{
    lemma_position(tasks, id);
    lemma_filter_members(tasks, |t: TaskModel| t.id != id);
}

} // verus!
