//! The request router: one handler for each route. A handler reads or changes
//! the state and answers with a status and a body; no failure leaves a handler
//! in any other form. Whoever calls a handler holds the state for the length of
//! the call, so that the snapshot in the body is the state that the handler
//! left.

use vstd::prelude::*;
use crate::filter::{filter_bar_of, FilterKind};
use crate::ident::exhausted;
use crate::query::{param, param_of};
use crate::reply::{Body, BodyModel, Reply, ReplyModel, INTERNAL_ERROR_TEXT, NOT_FOUND_TEXT};
use crate::session::{
    cookie_for, is_session_token, new_session_token, session_cookie, session_of, session_state,
    session_state_now, SessionState, Timestamp, TOKEN_LENGTH,
};
use crate::state::{AppModel, AppState};
use crate::task::{
    active_count, after_toggle, after_update, all_done, any_completed, ids_ascending, ids_below,
    law_changes_keep_ids_ascending, lemma_position, position, without, StoreError, Task,
    TaskModel, TaskStore, Updated,
};
use crate::text::{
    blank, bool_string, bool_text, decimal, parse_decimal, parse_u32, push_decimal, text_of,
};

verus! {

/// The model of a request: its texts as sequences of characters.
pub struct RequestModel {
    pub path: Seq<char>,
    pub query: Option<Seq<char>>,
    pub cookie: Option<Seq<char>>,
}

/// What a handler reads of a request: the path, the query string if there is
/// one, and the value of the `Cookie` header if there is one.
#[derive(Debug, PartialEq, Eq)]
pub struct Request {
    pub path: String,
    pub query: Option<String>,
    pub cookie: Option<String>,
}

impl View for Request {
    type V = RequestModel;

    open spec fn view(&self) -> RequestModel {
        RequestModel {
            path: self.path@,
            query: text_of(self.query),
            cookie: text_of(self.cookie),
        }
    }
}

/// The routes.
#[derive(Clone, Copy, Debug, PartialEq, Eq, Structural)]
pub enum Route {
    Root,
    SetHash,
    LearnJson,
    UpdateCounts,
    ToggleAll,
    Completed,
    Footer,
    AddTodo,
    ToggleTodo,
    EditTodo,
    UpdateTodo,
    RemoveTodo,
    ToggleMain,
    TodoList,
    TodoJson,
    TodoItem,
    AxeScript,
    Unknown,
}

/// Where the script of the accessibility tool lies, as a path in the file
/// system and, behind a `/`, as a route.
pub const AXE_SCRIPT_PATH: &'static str = "node_modules/axe-core/axe.min.js";

/// The route that serves `path`.
pub open spec fn route_of(path: Seq<char>) -> Route {
    if path == "/"@ {
        Route::Root
    } else if path == "/set-hash"@ || path == "/get-hash"@ {
        Route::SetHash
    } else if path == "/learn.json"@ {
        Route::LearnJson
    } else if path == "/update-counts"@ {
        Route::UpdateCounts
    } else if path == "/toggle-all"@ {
        Route::ToggleAll
    } else if path == "/completed"@ {
        Route::Completed
    } else if path == "/footer"@ || path == "/toggle-footer"@ {
        Route::Footer
    } else if path == "/add-todo"@ {
        Route::AddTodo
    } else if path == "/toggle-todo"@ {
        Route::ToggleTodo
    } else if path == "/edit-todo"@ {
        Route::EditTodo
    } else if path == "/update-todo"@ {
        Route::UpdateTodo
    } else if path == "/remove-todo"@ {
        Route::RemoveTodo
    } else if path == "/toggle-main"@ {
        Route::ToggleMain
    } else if path == "/todo-list"@ {
        Route::TodoList
    } else if path == "/todo-json"@ {
        Route::TodoJson
    } else if path == "/todo-item"@ {
        Route::TodoItem
    } else if path == "/"@ + AXE_SCRIPT_PATH@ {
        Route::AxeScript
    } else {
        Route::Unknown
    }
}

/// Finds the route that serves `path`.
pub fn route(path: &str) -> (r: Route)
    ensures
        r == route_of(path@),
{
    if str::eq(path, "/") {
        Route::Root
    } else if str::eq(path, "/set-hash") || str::eq(path, "/get-hash") {
        Route::SetHash
    } else if str::eq(path, "/learn.json") {
        Route::LearnJson
    } else if str::eq(path, "/update-counts") {
        Route::UpdateCounts
    } else if str::eq(path, "/toggle-all") {
        Route::ToggleAll
    } else if str::eq(path, "/completed") {
        Route::Completed
    } else if str::eq(path, "/footer") || str::eq(path, "/toggle-footer") {
        Route::Footer
    } else if str::eq(path, "/add-todo") {
        Route::AddTodo
    } else if str::eq(path, "/toggle-todo") {
        Route::ToggleTodo
    } else if str::eq(path, "/edit-todo") {
        Route::EditTodo
    } else if str::eq(path, "/update-todo") {
        Route::UpdateTodo
    } else if str::eq(path, "/remove-todo") {
        Route::RemoveTodo
    } else if str::eq(path, "/toggle-main") {
        Route::ToggleMain
    } else if str::eq(path, "/todo-list") {
        Route::TodoList
    } else if str::eq(path, "/todo-json") {
        Route::TodoJson
    } else if str::eq(path, "/todo-item") {
        Route::TodoItem
    } else {
        let mut axe = "/".to_string();
        axe.append(AXE_SCRIPT_PATH);
        if str::eq(path, axe.as_str()) {
            Route::AxeScript
        } else {
            Route::Unknown
        }
    }
}

/// The identifier that a request names in its parameter `id`, where it names
/// one that reads as a `u32`.
pub open spec fn id_param_of(query: Option<Seq<char>>) -> Option<u32> {
    match param_of(query, "id"@) {
        Some(text) => parse_u32(text),
        None => None,
    }
}

/// Reads the parameter `id` of a request.
pub fn id_param(query: &Option<String>) -> (r: Option<u32>)
    ensures
        r == id_param_of(text_of(*query)),
{
    match param(query, "id") {
        Some(text) => parse_decimal(text.as_str()),
        None => None,
    }
}

/// The filter name that a request gives: its parameter `name`, or else its
/// parameter `hash`.
pub open spec fn hash_param_of(query: Option<Seq<char>>) -> Option<Seq<char>> {
    match param_of(query, "name"@) {
        Some(name) => Some(name),
        None => param_of(query, "hash"@),
    }
}

/// The label of the counter in the footer for `n` tasks left to do.
pub open spec fn counts_label(n: nat) -> Seq<char> {
    "<strong>"@ + decimal(n) + " item"@ + (if n != 1 {
        "s"@
    } else {
        Seq::<char>::empty()
    }) + " left</strong>"@
}

/// The label of the counter in the footer: how many tasks of the store are
/// left to do.
pub fn update_counts(tasks: &TaskStore) -> (label: String)
    ensures
        label@ == counts_label(active_count(tasks@)),
{
    let n = tasks.count_active();
    let mut label = "<strong>".to_string();
    push_decimal(&mut label, n as u64);
    label.append(" item");
    if n != 1 {
        label.append("s");
    }
    label.append(" left</strong>");
    label
}

/// The body of a task's markup in the state `state`.
pub open spec fn item_body(state: AppModel, task: TaskModel) -> BodyModel {
    BodyModel::TodoItem { task, filter_name: state.selected.name_of() }
}

/// The body of the task list in the state `state`.
pub open spec fn list_body(state: AppModel) -> BodyModel {
    BodyModel::TodoList { tasks: state.tasks, filter_name: state.selected.name_of() }
}

/// The body of the footer in the state `state`.
pub open spec fn footer_body(state: AppModel) -> BodyModel {
    BodyModel::Footer {
        tasks: state.tasks,
        filters: filter_bar_of(state.selected),
        has_completed: any_completed(state.tasks),
    }
}

/// The body of the whole page in the state `state`.
pub open spec fn page_body(state: AppModel) -> BodyModel {
    BodyModel::Page {
        filters: filter_bar_of(state.selected),
        tasks: state.tasks,
        checked: all_done(state.tasks),
        has_completed: any_completed(state.tasks),
        filter_name: state.selected.name_of(),
    }
}

/// `/set-hash`: selects the filter that the request names and answers with
/// the filter bar. A request that names none changes nothing and gets an
/// empty body.
pub open spec fn set_hash_outcome(state: AppModel, query: Option<Seq<char>>) -> (
    AppModel,
    ReplyModel,
) {
    match hash_param_of(query) {
        Some(name) => {
            let kind = FilterKind::named_or_all(name);
            (
                AppModel { selected: kind, ..state },
                ReplyModel::html(200, BodyModel::FilterBar { filters: filter_bar_of(kind) }),
            )
        },
        None => (state, ReplyModel::html(200, BodyModel::Empty)),
    }
}

/// `/add-todo`: adds a task with the text of the parameter `task`. The first
/// task of a list is answered with the whole list, any later one with its own
/// markup, a blank text with success and an empty body, a missing parameter
/// with a bad request. Once no identifier is left, a text that is not blank is
/// answered with an internal failure and changes nothing.
pub open spec fn add_todo_outcome(state: AppModel, query: Option<Seq<char>>) -> (
    AppModel,
    ReplyModel,
) {
    match param_of(query, "task"@) {
        Some(text) => if blank(text) {
            (state, ReplyModel::html(200, BodyModel::Empty))
        } else if exhausted(state.next_id) {
            (state, ReplyModel::internal_error())
        } else {
            let task = TaskModel::fresh(state.next_id, text);
            let after = AppModel {
                next_id: (state.next_id + 1) as u32,
                tasks: state.tasks.push(task),
                ..state
            };
            (
                after,
                ReplyModel::html(
                    200,
                    if state.tasks.len() == 0 {
                        list_body(after)
                    } else {
                        item_body(after, task)
                    },
                ),
            )
        },
        None => (state, ReplyModel::bad_request()),
    }
}

/// `/toggle-todo`: flips `done` of the task that the parameter `id` names and
/// answers with its markup.
pub open spec fn toggle_todo_outcome(state: AppModel, query: Option<Seq<char>>) -> (
    AppModel,
    ReplyModel,
) {
    match id_param_of(query) {
        Some(id) => match position(state.tasks, id) {
            Some(i) => (
                AppModel { tasks: after_toggle(state.tasks, id), ..state },
                ReplyModel::html(200, item_body(state, state.tasks[i].toggled())),
            ),
            None => (state, ReplyModel::bad_request()),
        },
        None => (state, ReplyModel::bad_request()),
    }
}

/// `/edit-todo`: answers with the input field for the task that the parameter
/// `id` names. The state stays as it is.
pub open spec fn edit_todo_outcome(state: AppModel, query: Option<Seq<char>>) -> ReplyModel {
    match id_param_of(query) {
        Some(id) => match position(state.tasks, id) {
            Some(i) => ReplyModel::html(
                200,
                BodyModel::EditTodo { task: state.tasks[i].in_edit() },
            ),
            None => ReplyModel::bad_request(),
        },
        None => ReplyModel::bad_request(),
    }
}

/// `/update-todo`: gives the task that the parameter `id` names the text of
/// the parameter `task` and answers with its markup; a blank or missing text
/// deletes the task and is answered with an empty body.
pub open spec fn update_todo_outcome(state: AppModel, query: Option<Seq<char>>) -> (
    AppModel,
    ReplyModel,
) {
    let text = match param_of(query, "task"@) {
        Some(text) => text,
        None => Seq::<char>::empty(),
    };
    match id_param_of(query) {
        Some(id) => match position(state.tasks, id) {
            Some(i) => (
                AppModel { tasks: after_update(state.tasks, id, text), ..state },
                ReplyModel::html(
                    200,
                    if blank(text) {
                        BodyModel::Empty
                    } else {
                        item_body(state, state.tasks[i].with_text(text))
                    },
                ),
            ),
            None => (state, ReplyModel::bad_request()),
        },
        None => (state, ReplyModel::bad_request()),
    }
}

/// `/remove-todo`: deletes the task that the parameter `id` names. That no
/// task has the identifier is no failure.
pub open spec fn remove_todo_outcome(state: AppModel, query: Option<Seq<char>>) -> (
    AppModel,
    ReplyModel,
) {
    match id_param_of(query) {
        Some(id) => (
            AppModel { tasks: without(state.tasks, id), ..state },
            ReplyModel::html(200, BodyModel::Empty),
        ),
        None => (state, ReplyModel::bad_request()),
    }
}

/// `/todo-item`: answers with the markup of the task that the parameter `id`
/// names.
pub open spec fn todo_item_outcome(state: AppModel, query: Option<Seq<char>>) -> ReplyModel {
    match id_param_of(query) {
        Some(id) => match position(state.tasks, id) {
            Some(i) => ReplyModel::html(200, item_body(state, state.tasks[i])),
            None => ReplyModel::bad_request(),
        },
        None => ReplyModel::bad_request(),
    }
}

/// `/completed`: answers with the button that clears the completed tasks
/// where there is a completed task, and with an empty body where there is
/// none.
pub open spec fn completed_outcome(state: AppModel) -> ReplyModel {
    ReplyModel::html(
        200,
        if any_completed(state.tasks) {
            BodyModel::ClearCompleted
        } else {
            BodyModel::Empty
        },
    )
}

/// `/`: the page, sent without a declared content type. A session that has
/// expired is replaced by a new one: the state is reset, the page is built
/// from the state after that, and the response hands the client the cookie of
/// the new session.
pub open spec fn root_outcome(state: AppModel, session: SessionState, token: Seq<char>) -> (
    AppModel,
    ReplyModel,
) {
    match session {
        SessionState::Expired => (
            state.reset(),
            ReplyModel {
                status: 200,
                html: false,
                set_cookie: Some(cookie_for(token)),
                body: page_body(state.reset()),
            },
        ),
        SessionState::Active => (
            state,
            ReplyModel { status: 200, html: false, set_cookie: None, body: page_body(state) },
        ),
    }
}

/// What a request does to the state and what it is answered with, where a
/// request to the page root finds the session in the state `session` and a
/// new session would get the token `token`.
pub open spec fn outcome(
    state: AppModel,
    request: RequestModel,
    session: SessionState,
    token: Seq<char>,
) -> (AppModel, ReplyModel) {
    match route_of(request.path) {
        Route::Root => root_outcome(state, session, token),
        Route::SetHash => set_hash_outcome(state, request.query),
        Route::LearnJson => (state, ReplyModel::html(200, BodyModel::EmptyObject)),
        Route::UpdateCounts => (
            state,
            ReplyModel::html(200, BodyModel::Text(counts_label(active_count(state.tasks)))),
        ),
        Route::ToggleAll => (
            state,
            ReplyModel::html(200, BodyModel::Text(bool_text(all_done(state.tasks)))),
        ),
        Route::Completed => (state, completed_outcome(state)),
        Route::Footer => (state, ReplyModel::html(200, footer_body(state))),
        Route::AddTodo => add_todo_outcome(state, request.query),
        Route::ToggleTodo => toggle_todo_outcome(state, request.query),
        Route::EditTodo => (state, edit_todo_outcome(state, request.query)),
        Route::UpdateTodo => update_todo_outcome(state, request.query),
        Route::RemoveTodo => remove_todo_outcome(state, request.query),
        Route::ToggleMain => (
            state,
            ReplyModel::html(
                200,
                BodyModel::ToggleMain { tasks: state.tasks, checked: all_done(state.tasks) },
            ),
        ),
        Route::TodoList => (state, ReplyModel::html(200, list_body(state))),
        Route::TodoJson => (state, ReplyModel::html(200, BodyModel::TaskArray(state.tasks))),
        Route::TodoItem => (state, todo_item_outcome(state, request.query)),
        Route::AxeScript => (
            state,
            ReplyModel::html(200, BodyModel::Asset { path: AXE_SCRIPT_PATH@ }),
        ),
        Route::Unknown => (state, ReplyModel::html(404, BodyModel::Text(NOT_FOUND_TEXT@))),
    }
}

/// The response that carries the markup of `task`.
fn item_reply(state: &AppState, task: Task) -> (r: Reply)
    ensures
        r@ == ReplyModel::html(200, item_body(state@, task@)),
{
    Reply::html(200, Body::TodoItem { task, filter_name: state.filters.selected_name() })
}

/// The response that carries the task list.
fn list_reply(state: &AppState) -> (r: Reply)
    ensures
        r@ == ReplyModel::html(200, list_body(state@)),
{
    Reply::html(
        200,
        Body::TodoList {
            tasks: state.tasks.snapshot(),
            filter_name: state.filters.selected_name(),
        },
    )
}

/// The response that carries the footer.
fn footer_reply(state: &AppState) -> (r: Reply)
    ensures
        r@ == ReplyModel::html(200, footer_body(state@)),
{
    Reply::html(
        200,
        Body::Footer {
            tasks: state.tasks.snapshot(),
            filters: state.filters.list(),
            has_completed: state.tasks.has_completed(),
        },
    )
}

/// The body that carries the whole page.
fn page_of(state: &AppState) -> (r: Body)
    ensures
        r@ == page_body(state@),
{
    Body::Page {
        filters: state.filters.list(),
        tasks: state.tasks.snapshot(),
        checked: state.tasks.all_done(),
        has_completed: state.tasks.has_completed(),
        filter_name: state.filters.selected_name(),
    }
}

/// Handles `/set-hash`.
pub fn serve_set_hash(state: &mut AppState, query: &Option<String>) -> (r: Reply)
    ensures
        (final(state)@, r@) == set_hash_outcome(old(state)@, text_of(*query)),
{
    let name = match param(query, "name") {
        Some(name) => Some(name),
        None => param(query, "hash"),
    };
    match name {
        Some(name) => {
            state.filters.select(name.as_str());
            Reply::html(200, Body::FilterBar { filters: state.filters.list() })
        },
        None => Reply::html(200, Body::Empty),
    }
}

/// Handles `/add-todo`.
pub fn serve_add_todo(state: &mut AppState, query: &Option<String>) -> (r: Reply)
    ensures
        (final(state)@, r@) == add_todo_outcome(old(state)@, text_of(*query)),
{
    match param(query, "task") {
        Some(text) => {
            let first = state.tasks.is_empty();
            match state.tasks.add(text, &mut state.ids) {
                Ok(task) => if first {
                    list_reply(state)
                } else {
                    item_reply(state, task)
                },
                Err(StoreError::EmptyInput) => Reply::html(200, Body::Empty),
                Err(_) => Reply::internal_error(),
            }
        },
        None => Reply::bad_request(),
    }
}

/// Handles `/toggle-todo`.
pub fn serve_toggle_todo(state: &mut AppState, query: &Option<String>) -> (r: Reply)
    ensures
        (final(state)@, r@) == toggle_todo_outcome(old(state)@, text_of(*query)),
{
    match id_param(query) {
        Some(id) => match state.tasks.toggle(id) {
            Ok(task) => item_reply(state, task),
            Err(_) => Reply::bad_request(),
        },
        None => Reply::bad_request(),
    }
}

/// Handles `/edit-todo`.
pub fn serve_edit_todo(state: &AppState, query: &Option<String>) -> (r: Reply)
    ensures
        r@ == edit_todo_outcome(state@, text_of(*query)),
{
    match id_param(query) {
        Some(id) => match state.tasks.begin_edit(id) {
            Ok(task) => Reply::html(200, Body::EditTodo { task }),
            Err(_) => Reply::bad_request(),
        },
        None => Reply::bad_request(),
    }
}

/// Handles `/update-todo`.
pub fn serve_update_todo(state: &mut AppState, query: &Option<String>) -> (r: Reply)
    ensures
        (final(state)@, r@) == update_todo_outcome(old(state)@, text_of(*query)),
{
    let text = match param(query, "task") {
        Some(text) => text,
        None => String::new(),
    };
    match id_param(query) {
        Some(id) => match state.tasks.update(id, text) {
            Ok(Updated::Changed(task)) => item_reply(state, task),
            Ok(Updated::Deleted) => Reply::html(200, Body::Empty),
            Err(_) => Reply::bad_request(),
        },
        None => Reply::bad_request(),
    }
}

/// Handles `/remove-todo`.
pub fn serve_remove_todo(state: &mut AppState, query: &Option<String>) -> (r: Reply)
    ensures
        (final(state)@, r@) == remove_todo_outcome(old(state)@, text_of(*query)),
{
    match id_param(query) {
        Some(id) => {
            let _ = state.tasks.remove(id);
            Reply::html(200, Body::Empty)
        },
        None => Reply::bad_request(),
    }
}

/// Handles `/todo-item`.
pub fn serve_todo_item(state: &AppState, query: &Option<String>) -> (r: Reply)
    ensures
        r@ == todo_item_outcome(state@, text_of(*query)),
{
    match id_param(query) {
        Some(id) => match state.tasks.find(id) {
            Ok(task) => item_reply(state, task),
            Err(_) => Reply::bad_request(),
        },
        None => Reply::bad_request(),
    }
}

/// Handles `/completed`.
pub fn serve_completed(state: &AppState) -> (r: Reply)
    ensures
        r@ == completed_outcome(state@),
{
    if state.tasks.has_completed() {
        Reply::html(200, Body::ClearCompleted)
    } else {
        Reply::html(200, Body::Empty)
    }
}

/// Handles `/` for a session that is in the state `session`; `token` is the
/// token that a new session gets. After a reset the task list is empty and
/// the next task gets the identifier 0.
pub fn serve_root(state: &mut AppState, session: SessionState, token: &str) -> (r: Reply)
    ensures
        (final(state)@, r@) == root_outcome(old(state)@, session, token@),
        session == SessionState::Expired ==> final(state)@.tasks.len() == 0,
        session == SessionState::Expired ==> final(state)@.next_id == 0,
{
    match session {
        SessionState::Expired => {
            state.reset();
            Reply {
                status: 200,
                html: false,
                set_cookie: Some(session_cookie(token)),
                body: page_of(state),
            }
        },
        SessionState::Active => Reply {
            status: 200,
            html: false,
            set_cookie: None,
            body: page_of(state),
        },
    }
}

/// Handles a request to any route but the page root.
fn dispatch(state: &mut AppState, request: &Request, found: Route) -> (r: Reply)
    requires
        found == route_of(request@.path),
        found != Route::Root,
    ensures
        forall|session: SessionState, token: Seq<char>|
            (final(state)@, r@) == #[trigger] outcome(old(state)@, request@, session, token),
{
    match found {
        Route::SetHash => serve_set_hash(state, &request.query),
        Route::LearnJson => Reply::html(200, Body::EmptyObject),
        Route::UpdateCounts => Reply::html(200, Body::Text(update_counts(&state.tasks))),
        Route::ToggleAll => Reply::html(200, Body::Text(bool_string(state.tasks.all_done()))),
        Route::Completed => serve_completed(state),
        Route::Footer => footer_reply(state),
        Route::AddTodo => serve_add_todo(state, &request.query),
        Route::ToggleTodo => serve_toggle_todo(state, &request.query),
        Route::EditTodo => serve_edit_todo(state, &request.query),
        Route::UpdateTodo => serve_update_todo(state, &request.query),
        Route::RemoveTodo => serve_remove_todo(state, &request.query),
        Route::ToggleMain => Reply::html(
            200,
            Body::ToggleMain { tasks: state.tasks.snapshot(), checked: state.tasks.all_done() },
        ),
        Route::TodoList => list_reply(state),
        Route::TodoJson => Reply::html(200, Body::TaskArray(state.tasks.snapshot())),
        Route::TodoItem => serve_todo_item(state, &request.query),
        Route::AxeScript => Reply::html(200, Body::Asset { path: AXE_SCRIPT_PATH.to_string() }),
        _ => Reply::not_found(),
    }
}

/// Handles a request at the time `now`; `token` is the token that a new
/// session gets. The state afterwards and the response are those of
/// `outcome`.
pub fn respond(state: &mut AppState, request: &Request, now: Timestamp, token: &str) -> (r: Reply)
    ensures
        (final(state)@, r@) == outcome(
            old(state)@,
            request@,
            session_of(request@.cookie, now),
            token@,
        ),
{
    let found = route(request.path.as_str());
    match found {
        Route::Root => {
            let session = session_state(&request.cookie, now);
            serve_root(state, session, token)
        },
        _ => dispatch(state, request, found),
    }
}

/// Handles a request: reads the clock to judge the session of a request to
/// the page root and draws a random token where a new session begins. The
/// state afterwards and the response are those of `outcome` for the time that
/// the clock showed and the token that was drawn; on every other route they
/// depend on neither.
pub fn handle_request(state: &mut AppState, request: &Request) -> (r: Reply)
    ensures
        exists|now: Timestamp, token: Seq<char>|
            is_session_token(token) && (final(state)@, r@) == #[trigger] outcome(
                old(state)@,
                request@,
                session_of(request@.cookie, now),
                token,
            ),
        route_of(request@.path) != Route::Root ==> forall|session: SessionState, token: Seq<char>|
            (final(state)@, r@) == #[trigger] outcome(old(state)@, request@, session, token),
{
    let found = route(request.path.as_str());
    match found {
        Route::Root => {
            let session = session_state_now(&request.cookie);
            let ghost now = choose|now: Timestamp| session == session_of(request@.cookie, now);
            match session {
                SessionState::Expired => {
                    let token = new_session_token();
                    let r = serve_root(state, session, token.as_str());
                    assert((final(state)@, r@) == outcome(
                        old(state)@,
                        request@,
                        session_of(request@.cookie, now),
                        token@,
                    ));
                    r
                },
                SessionState::Active => {
                    let ghost token = Seq::new(TOKEN_LENGTH as nat, |i: int| 'a');
                    let r = serve_root(state, session, "");
                    assert((final(state)@, r@) == outcome(
                        old(state)@,
                        request@,
                        session_of(request@.cookie, now),
                        token,
                    ));
                    r
                },
            }
        },
        _ => {
            let r = dispatch(state, request, found);
            let ghost now = Timestamp { secs: 0, nanos: 0 };
            let ghost token = Seq::new(TOKEN_LENGTH as nat, |i: int| 'a');
            assert((final(state)@, r@) == outcome(
                old(state)@,
                request@,
                session_of(request@.cookie, now),
                token,
            ));
            r
        },
    }
}

/// A request to the page root that finds its session expired leaves an empty
/// task list behind, and the task that is added next gets the identifier 0.
pub proof fn law_expired_session_starts_over(
    state: AppModel,
    token: Seq<char>,
    query: Option<Seq<char>>,
)
    ensures
        root_outcome(state, SessionState::Expired, token).0.tasks.len() == 0,
        root_outcome(state, SessionState::Expired, token).0.next_id == 0,
        param_of(query, "task"@) matches Some(text) ==> !blank(text) ==> add_todo_outcome(
            root_outcome(state, SessionState::Expired, token).0,
            query,
        ).0.tasks == seq![TaskModel::fresh(0, text)],
{
}

/// Whether `body` shows the state `state` and nothing else: the tasks, the
/// filters and what is derived from them are those of `state`, and a single
/// task that the body carries is a task of `state`, or its copy in edit.
pub open spec fn shows_state(body: BodyModel, state: AppModel) -> bool {
    match body {
        BodyModel::Empty => true,
        BodyModel::EmptyObject => true,
        BodyModel::Asset { path } => true,
        BodyModel::Text(text) => {
            ||| text == counts_label(active_count(state.tasks))
            ||| text == bool_text(all_done(state.tasks))
            ||| text == NOT_FOUND_TEXT@
            ||| text == INTERNAL_ERROR_TEXT@
        },
        BodyModel::TaskArray(tasks) => tasks == state.tasks,
        BodyModel::TodoItem { task, filter_name } => {
            &&& state.tasks.contains(task)
            &&& filter_name == state.selected.name_of()
        },
        BodyModel::TodoList { tasks, filter_name } => {
            &&& tasks == state.tasks
            &&& filter_name == state.selected.name_of()
        },
        BodyModel::EditTodo { task } => exists|i: int|
            0 <= i < state.tasks.len() && task == (#[trigger] state.tasks[i]).in_edit(),
        BodyModel::ClearCompleted => any_completed(state.tasks),
        BodyModel::ToggleMain { tasks, checked } => {
            &&& tasks == state.tasks
            &&& checked == all_done(state.tasks)
        },
        BodyModel::Footer { tasks, filters, has_completed } => {
            &&& tasks == state.tasks
            &&& filters == filter_bar_of(state.selected)
            &&& has_completed == any_completed(state.tasks)
        },
        BodyModel::FilterBar { filters } => filters == filter_bar_of(state.selected),
        BodyModel::Page { filters, tasks, checked, has_completed, filter_name } => {
            &&& tasks == state.tasks
            &&& filters == filter_bar_of(state.selected)
            &&& checked == all_done(state.tasks)
            &&& has_completed == any_completed(state.tasks)
            &&& filter_name == state.selected.name_of()
        },
    }
}

/// Every fragment is consistent with the state that its handler left: what a
/// response carries is the state after the request, never the state before
/// it or a mixture of both.
pub proof fn law_fragments_show_the_state_left(
    state: AppModel,
    request: RequestModel,
    session: SessionState,
    token: Seq<char>,
)
    ensures
        shows_state(
            outcome(state, request, session, token).1.body,
            outcome(state, request, session, token).0,
        ),
{
    let after = outcome(state, request, session, token).0;
    match id_param_of(request.query) {
        Some(id) => {
            lemma_position(state.tasks, id);
            match position(state.tasks, id) {
                Some(i) => {
                    // Where the body carries the task that the request names, the
                    // task stands at `i` in the state that is left.
                    assert(after.tasks.len() > i ==> after.tasks.contains(after.tasks[i]));
                },
                None => {},
            }
        },
        None => {},
    }
    if route_of(request.path) == Route::AddTodo && after.tasks.len() > state.tasks.len() {
        assert(after.tasks.contains(after.tasks[state.tasks.len() as int]));
    }
}

/// A request that is refused changes nothing: with any status but 200 the
/// state is as it was, and a bad request is answered with an empty body. No
/// handler answers with a status other than 200, 400, 404 and 500; 404 is for
/// the paths without a route, and 500 for a task that finds no identifier
/// left.
pub proof fn law_refused_requests_change_nothing(
    state: AppModel,
    request: RequestModel,
    session: SessionState,
    token: Seq<char>,
)
    ensures
        outcome(state, request, session, token).1.status != 200 ==> outcome(
            state,
            request,
            session,
            token,
        ).0 == state,
        outcome(state, request, session, token).1.status == 400 ==> outcome(
            state,
            request,
            session,
            token,
        ).1 == ReplyModel::bad_request(),
        outcome(state, request, session, token).1.status == 404 <==> route_of(request.path)
            == Route::Unknown,
        outcome(state, request, session, token).1.status == 500 <==> {
            &&& route_of(request.path) == Route::AddTodo
            &&& exhausted(state.next_id)
            &&& param_of(request.query, "task"@) matches Some(text)
            &&& !blank(text)
        },
        outcome(state, request, session, token).1.status == 200 || outcome(
            state,
            request,
            session,
            token,
        ).1.status == 400 || outcome(state, request, session, token).1.status == 404 || outcome(
            state,
            request,
            session,
            token,
        ).1.status == 500,
{
}

/// No identifier is ever used twice: where the identifiers of the tasks are
/// ascending and below the counter, as they are at startup and after every
/// reset, they are so after any request. So the tasks of a state have
/// identifiers of their own, and a task that is added never takes one that
/// was handed out since the last reset, deleted or not.
pub proof fn law_requests_keep_ids_apart(
    state: AppModel,
    request: RequestModel,
    session: SessionState,
    token: Seq<char>,
)
    requires
        ids_ascending(state.tasks),
        ids_below(state.tasks, state.next_id as int),
    ensures
        ids_ascending(outcome(state, request, session, token).0.tasks),
        ids_below(
            outcome(state, request, session, token).0.tasks,
            outcome(state, request, session, token).0.next_id as int,
        ),
        route_of(request.path) != Route::Root ==> state.next_id <= outcome(
            state,
            request,
            session,
            token,
        ).0.next_id,
{
    let text = match param_of(request.query, "task"@) {
        Some(text) => text,
        None => Seq::<char>::empty(),
    };
    match id_param_of(request.query) {
        Some(id) => {
            law_changes_keep_ids_ascending(state.tasks, state.next_id as int, id, text);
        },
        None => {},
    }
}

/// The routes that only read leave the state as it was, whatever they are
/// asked: the state changes on the page root, on `/set-hash` and on the four
/// routes that add, toggle, update and remove a task, and nowhere else.
pub proof fn law_reading_routes_change_nothing(
    state: AppModel,
    request: RequestModel,
    session: SessionState,
    token: Seq<char>,
)
    ensures
        outcome(state, request, session, token).0 != state ==> {
            ||| route_of(request.path) == Route::Root
            ||| route_of(request.path) == Route::SetHash
            ||| route_of(request.path) == Route::AddTodo
            ||| route_of(request.path) == Route::ToggleTodo
            ||| route_of(request.path) == Route::UpdateTodo
            ||| route_of(request.path) == Route::RemoveTodo
        },
        outcome(state, request, session, token).0.selected != state.selected ==> route_of(
            request.path,
        ) == Route::SetHash,
        outcome(state, request, session, token).0.next_id != state.next_id ==> route_of(
            request.path,
        ) == Route::AddTodo || route_of(request.path) == Route::Root,
{
}

} // verus!
