//! What the fragments of the page show. Each function here works out, from a
//! snapshot of the state, whether a fragment appears and which texts, links
//! and marks it carries; the markup around them is written elsewhere.

use vstd::prelude::*;
use vstd::string::*;
use crate::filter::{filter_models, Filter, FilterKind, FilterModel};
use crate::task::{listed, task_models, Task, TaskModel};
use crate::text::{bool_string, bool_text, decimal, push_decimal};

verus! {

/// The model of a link of the filter bar.
pub struct LinkModel {
    pub class: Seq<char>,
    pub href: Seq<char>,
    pub label: Seq<char>,
}

/// One link of the filter bar: its class, which is `selected` for the
/// selected filter and empty otherwise, its target and its label.
#[derive(Debug, PartialEq, Eq)]
pub struct LinkView {
    pub class: String,
    pub href: String,
    pub label: String,
}

impl View for LinkView {
    type V = LinkModel;

    open spec fn view(&self) -> LinkModel {
        LinkModel { class: self.class@, href: self.href@, label: self.label@ }
    }
}

/// The link that stands for `filter`.
pub open spec fn link_of(filter: FilterModel) -> LinkModel {
    LinkModel {
        class: if filter.selected {
            "selected"@
        } else {
            Seq::<char>::empty()
        },
        href: filter.url,
        label: filter.name,
    }
}

/// The links that stand for `filters`, one for each, in their order.
pub open spec fn links_of(filters: Seq<FilterModel>) -> Seq<LinkModel> {
    filters.map_values(|f: FilterModel| link_of(f))
}

/// The models of a sequence of links, in order.
pub open spec fn link_models(links: Seq<LinkView>) -> Seq<LinkModel> {
    links.map_values(|l: LinkView| l@)
}

/// The links of the filter bar: one for each filter, in their order.
pub fn filter_bar(filters: &[Filter]) -> (links: Vec<LinkView>)
    ensures
        link_models(links@) == links_of(filter_models(filters@)),
{
    let mut links: Vec<LinkView> = Vec::new();
    let n = filters.len();
    let mut i: usize = 0;
    while i < n
        invariant
            n == filters@.len(),
            i <= n,
            links@.len() == i,
            forall|j: int| 0 <= j < i ==> (#[trigger] links@[j])@ == link_of(filters@[j]@),
        decreases n - i,
    {
        let filter = &filters[i];
        let class = if filter.selected() {
            "selected".to_string()
        } else {
            String::new()
        };
        links.push(
            LinkView { class, href: filter.url().to_string(), label: filter.name().to_string() },
        );
        i = i + 1;
    }
    links
}

/// The model of what a task's markup carries.
pub struct ItemModel {
    pub element_id: Seq<char>,
    pub class: Seq<char>,
    pub checked: bool,
    pub toggle_url: Seq<char>,
    pub label: Seq<char>,
    pub edit_url: Seq<char>,
    pub remove_url: Seq<char>,
    pub edit_value: Seq<char>,
}

/// What a task's markup carries: the identifier and the class of the list
/// element, the state of the checkbox and the request that toggles it, the
/// label, the requests that begin an edit and that remove the task, and the
/// value of the input field.
#[derive(Debug, PartialEq, Eq)]
pub struct ItemView {
    pub element_id: String,
    pub class: String,
    pub checked: bool,
    pub toggle_url: String,
    pub label: String,
    pub edit_url: String,
    pub remove_url: String,
    pub edit_value: String,
}

impl View for ItemView {
    type V = ItemModel;

    open spec fn view(&self) -> ItemModel {
        ItemModel {
            element_id: self.element_id@,
            class: self.class@,
            checked: self.checked,
            toggle_url: self.toggle_url@,
            label: self.label@,
            edit_url: self.edit_url@,
            remove_url: self.remove_url@,
            edit_value: self.edit_value@,
        }
    }
}

/// The models of a sequence of items, in order.
pub open spec fn item_models(items: Seq<ItemView>) -> Seq<ItemModel> {
    items.map_values(|v: ItemView| v@)
}

/// The value of the input field of a task: its text while it is being
/// edited, and nothing otherwise.
pub open spec fn edit_value_of(task: TaskModel) -> Seq<char> {
    if task.editing {
        task.text
    } else {
        Seq::<char>::empty()
    }
}

/// The request that toggles a task, as its checkbox sends it.
pub open spec fn toggle_url_of(task: TaskModel) -> Seq<char> {
    "/toggle-todo?id="@ + decimal(task.id as nat) + "&done="@ + bool_text(task.done)
}

/// The class of a task's list element: `todo`, then `completed` for a task
/// that is done, then `editing` for one that is being edited.
pub open spec fn class_of(task: TaskModel) -> Seq<char> {
    "todo "@ + (if task.done {
        "completed "@
    } else {
        Seq::<char>::empty()
    }) + (if task.editing {
        "editing"@
    } else {
        Seq::<char>::empty()
    })
}

/// What the markup of `task` carries.
pub open spec fn item_of(task: TaskModel) -> ItemModel {
    ItemModel {
        element_id: "todo-"@ + decimal(task.id as nat),
        class: class_of(task),
        checked: task.done,
        toggle_url: toggle_url_of(task),
        label: task.text,
        edit_url: "/edit-todo?id="@ + decimal(task.id as nat),
        remove_url: "/remove-todo?id="@ + decimal(task.id as nat),
        edit_value: edit_value_of(task),
    }
}

/// Whether a task appears under the filter called `filter_name`: any task
/// under `All`, a task not yet done under `Active`, a task that is done under
/// `Completed`, and no task under any other name.
pub open spec fn shows(task: TaskModel, filter_name: Seq<char>) -> bool {
    ||| (!task.done && filter_name == "Active"@)
    ||| (task.done && filter_name == "Completed"@)
    ||| filter_name == "All"@
}

/// What the items of the task list carry under the filter called
/// `filter_name`: those of the tasks that appear under it, in store order.
pub open spec fn items_of(tasks: Seq<TaskModel>, filter_name: Seq<char>) -> Seq<ItemModel> {
    tasks.filter(|t: TaskModel| shows(t, filter_name)).map_values(|t: TaskModel| item_of(t))
}

/// The value of the input field in which `task` is edited.
pub fn edit_todo(task: &Task) -> (value: String)
    ensures
        value@ == edit_value_of(task@),
{
    if task.editing {
        task.text.clone()
    } else {
        String::new()
    }
}

/// The request that the checkbox of `task` sends.
pub fn todo_check(task: &Task) -> (url: String)
    ensures
        url@ == toggle_url_of(task@),
{
    let mut url = "/toggle-todo?id=".to_string();
    push_decimal(&mut url, task.id as u64);
    url.append("&done=");
    let done = bool_string(task.done);
    url.append(done.as_str());
    url
}

/// `prefix`, followed by the decimal numeral of `id`.
fn with_id(prefix: &str, id: u32) -> (r: String)
    ensures
        r@ == prefix@ + decimal(id as nat),
{
    let mut r = prefix.to_string();
    push_decimal(&mut r, id as u64);
    r
}

/// Whether `task` appears under the filter called `filter_name`.
fn decide(task: &Task, filter_name: &str) -> (r: bool)
    ensures
        r == shows(task@, filter_name@),
{
    (!task.done && str::eq(filter_name, "Active")) || (task.done && str::eq(
        filter_name,
        "Completed",
    )) || str::eq(filter_name, "All")
}

/// What the markup of `task` carries under the filter called `filter_name`,
/// or `None` where the task does not appear under that filter.
pub fn todo_item(task: &Task, filter_name: &str) -> (r: Option<ItemView>)
    ensures
        r is Some == shows(task@, filter_name@),
        r matches Some(item) ==> item@ == item_of(task@),
{
    if !decide(task, filter_name) {
        return None;
    }
    let mut class = "todo ".to_string();
    if task.done {
        class.append("completed ");
    }
    if task.editing {
        class.append("editing");
    }
    Some(
        ItemView {
            element_id: with_id("todo-", task.id),
            class,
            checked: task.done,
            toggle_url: todo_check(task),
            label: task.text.clone(),
            edit_url: with_id("/edit-todo?id=", task.id),
            remove_url: with_id("/remove-todo?id=", task.id),
            edit_value: edit_todo(task),
        },
    )
}

/// What the task list carries under the filter called `filter_name`: `None`
/// for an empty store, which has no list, and otherwise the items of the
/// tasks that appear under the filter.
pub fn todo_list(tasks: &[Task], filter_name: &str) -> (r: Option<Vec<ItemView>>)
    ensures
        r is Some == (tasks@.len() > 0),
        r matches Some(items) ==> item_models(items@) == items_of(
            task_models(tasks@),
            filter_name@,
        ),
{
    let n = tasks.len();
    if n == 0 {
        return None;
    }
    let ghost all = task_models(tasks@);
    let ghost pred = |t: TaskModel| shows(t, filter_name@);
    let ghost to_item = |t: TaskModel| item_of(t);
    let mut items: Vec<ItemView> = Vec::new();
    let mut i: usize = 0;
    assert(item_models(items@) =~= all.take(0).filter(pred).map_values(to_item)) by {
        reveal(Seq::filter);
    }
    while i < n
        invariant
            n == tasks@.len(),
            i <= n,
            all == task_models(tasks@),
            pred == |t: TaskModel| shows(t, filter_name@),
            to_item == |t: TaskModel| item_of(t),
            item_models(items@) == all.take(i as int).filter(pred).map_values(to_item),
        decreases n - i,
    {
        proof {
            reveal(Seq::filter);
            assert(all.take(i + 1).drop_last() =~= all.take(i as int));
        }
        let ghost before = item_models(items@);
        match todo_item(&tasks[i], filter_name) {
            Some(item) => {
                items.push(item);
                assert(item_models(items@) =~= before.push(item_of(tasks@[i as int]@)));
            },
            None => {},
        }
        i = i + 1;
    }
    assert(all.take(n as int) =~= all);
    Some(items)
}

/// Whether the section with the checkbox that marks every task appears, and
/// the state of that checkbox: `None` for an empty store, else `checked`.
pub fn toggle_main(tasks: &[Task], checked: bool) -> (r: Option<bool>)
    ensures
        r == (if tasks@.len() > 0 {
            Some(checked)
        } else {
            None
        }),
{
    if tasks.len() != 0 {
        Some(checked)
    } else {
        None
    }
}

/// What the footer carries: the links of the filter bar and whether the
/// button that clears the completed tasks appears.
#[derive(Debug, PartialEq, Eq)]
pub struct FooterView {
    pub links: Vec<LinkView>,
    pub clear_completed: bool,
}

/// What the footer carries, or `None` for an empty store, which has no
/// footer.
pub fn footer(tasks: &[Task], filters: &[Filter], has_completed: bool) -> (r: Option<
    FooterView,
>)
    ensures
        r is Some == (tasks@.len() > 0),
        r matches Some(view) ==> {
            &&& view.clear_completed == has_completed
            &&& link_models(view.links@) == links_of(filter_models(filters@))
        },
{
    if tasks.len() != 0 {
        Some(FooterView { links: filter_bar(filters), clear_completed: has_completed })
    } else {
        None
    }
}

/// What the page carries: its title and its three parts, each as its own
/// function gives it.
#[derive(Debug, PartialEq, Eq)]
pub struct PageView {
    pub title: String,
    pub toggle_main: Option<bool>,
    pub list: Option<Vec<ItemView>>,
    pub footer: Option<FooterView>,
}

/// What the page carries for a snapshot of the state.
pub fn page(
    title: &str,
    filters: &[Filter],
    tasks: &[Task],
    checked: bool,
    has_completed: bool,
    filter_name: &str,
) -> (r: PageView)
    ensures
        r.title@ == title@,
        r.toggle_main == (if tasks@.len() > 0 {
            Some(checked)
        } else {
            None
        }),
        r.list is Some == (tasks@.len() > 0),
        r.list matches Some(items) ==> item_models(items@) == items_of(
            task_models(tasks@),
            filter_name@,
        ),
        r.footer is Some == (tasks@.len() > 0),
        r.footer matches Some(view) ==> {
            &&& view.clear_completed == has_completed
            &&& link_models(view.links@) == links_of(filter_models(filters@))
        },
{
    PageView {
        title: title.to_string(),
        toggle_main: toggle_main(tasks, checked),
        list: todo_list(tasks, filter_name),
        footer: footer(tasks, filters, has_completed),
    }
}

/// Under the name of a filter a task appears exactly when the filter lists
/// it.
pub proof fn law_shows_what_is_listed(task: TaskModel, kind: FilterKind)
    ensures
        shows(task, kind.name_of()) == task.shown_under(kind),
{
    reveal_strlit("All");
    reveal_strlit("Active");
    reveal_strlit("Completed");
    assert("All"@.len() == 3 && "Active"@.len() == 6 && "Completed"@.len() == 9);
}

/// The task list of the page shows what the store lists: under the name of
/// a filter its items are those of the tasks that the store lists under the
/// filter, in the same order.
pub proof fn law_list_shows_the_listed(tasks: Seq<TaskModel>, kind: FilterKind)
    ensures
        items_of(tasks, kind.name_of()) == listed(tasks, kind).map_values(
            |t: TaskModel| item_of(t),
        ),
{
    let by_name = |t: TaskModel| shows(t, kind.name_of());
    let by_kind = |t: TaskModel| t.shown_under(kind);
    assert forall|t: TaskModel| #[trigger] by_name(t) == by_kind(t) by {
        law_shows_what_is_listed(t, kind);
    }
    assert(by_name =~= by_kind);
}

} // verus!
