use todomvc::filter::{Filter, FilterKind};
use todomvc::reply::{Body, Reply, HTML_CONTENT_TYPE};
use todomvc::router::{
    handle_request, id_param, respond, route, serve_add_todo, serve_completed, serve_edit_todo,
    serve_remove_todo, serve_root, serve_set_hash, serve_todo_item, serve_toggle_todo,
    serve_update_todo, update_counts, Request, Route, AXE_SCRIPT_PATH,
};
use todomvc::session::{Timestamp, SessionState};
use todomvc::state::AppState;
use todomvc::task::Task;

const NOW: Timestamp = Timestamp { secs: 1704067200, nanos: 0 };
const LIVE_COOKIE: &str = "expires=2024-01-01 00:10:00";
const STALE_COOKIE: &str = "expires=2023-12-31 23:59:59";

fn task(id: u32, text: &str, done: bool) -> Task {
    Task { id, text: text.to_string(), done, editing: false }
}

fn request(path: &str, query: Option<&str>) -> Request {
    Request { path: path.to_string(), query: query.map(|q| q.to_string()), cookie: None }
}

fn get(state: &mut AppState, path: &str, query: Option<&str>) -> Reply {
    respond(state, &request(path, query), NOW, "token")
}

fn html(status: u16, body: Body) -> Reply {
    Reply { status, html: true, set_cookie: None, body }
}

fn bar(selected: &str) -> Vec<Filter> {
    vec![
        Filter::new("#/", "All", selected == "All"),
        Filter::new("#/active", "Active", selected == "Active"),
        Filter::new("#/completed", "Completed", selected == "Completed"),
    ]
}

fn with_tasks(texts: &[&str]) -> AppState {
    let mut state = AppState::new();
    for text in texts {
        state.tasks.add(text.to_string(), &mut state.ids).unwrap();
    }
    state
}

fn tasks_of(state: &AppState) -> Vec<Task> {
    state.tasks.list(FilterKind::All)
}

#[test]
fn html_content_type_names_the_charset() {
    assert_eq!(HTML_CONTENT_TYPE, "text/html; charset=utf-8");
}

#[test]
fn routes_by_path() {
    assert_eq!(route("/"), Route::Root);
    assert_eq!(route("/set-hash"), Route::SetHash);
    assert_eq!(route("/get-hash"), Route::SetHash);
    assert_eq!(route("/learn.json"), Route::LearnJson);
    assert_eq!(route("/update-counts"), Route::UpdateCounts);
    assert_eq!(route("/toggle-all"), Route::ToggleAll);
    assert_eq!(route("/completed"), Route::Completed);
    assert_eq!(route("/footer"), Route::Footer);
    assert_eq!(route("/toggle-footer"), Route::Footer);
    assert_eq!(route("/add-todo"), Route::AddTodo);
    assert_eq!(route("/toggle-todo"), Route::ToggleTodo);
    assert_eq!(route("/edit-todo"), Route::EditTodo);
    assert_eq!(route("/update-todo"), Route::UpdateTodo);
    assert_eq!(route("/remove-todo"), Route::RemoveTodo);
    assert_eq!(route("/toggle-main"), Route::ToggleMain);
    assert_eq!(route("/todo-list"), Route::TodoList);
    assert_eq!(route("/todo-json"), Route::TodoJson);
    assert_eq!(route("/todo-item"), Route::TodoItem);
    assert_eq!(route("/node_modules/axe-core/axe.min.js"), Route::AxeScript);
    assert_eq!(AXE_SCRIPT_PATH, "node_modules/axe-core/axe.min.js");
}

#[test]
fn unknown_paths_have_no_route() {
    assert_eq!(route(""), Route::Unknown);
    assert_eq!(route("/nothing"), Route::Unknown);
    assert_eq!(route("/add-todo/"), Route::Unknown);
    assert_eq!(route("/ADD-TODO"), Route::Unknown);
    assert_eq!(route("add-todo"), Route::Unknown);
}

#[test]
fn unknown_path_is_answered_with_404() {
    let mut state = with_tasks(&["a"]);
    assert_eq!(
        get(&mut state, "/nothing", None),
        html(404, Body::Text("404 Not Found".to_string()))
    );
    assert_eq!(tasks_of(&state), vec![task(0, "a", false)]);
}

#[test]
fn id_parameter_is_read_as_a_number() {
    assert_eq!(id_param(&Some("id=12".to_string())), Some(12));
    assert_eq!(id_param(&Some("task=x&id=0".to_string())), Some(0));
    assert_eq!(id_param(&Some("id=%31%32".to_string())), Some(12));
    assert_eq!(id_param(&Some("id=".to_string())), None);
    assert_eq!(id_param(&Some("id=-1".to_string())), None);
    assert_eq!(id_param(&Some("id=1.5".to_string())), None);
    assert_eq!(id_param(&Some("id=4294967296".to_string())), None);
    assert_eq!(id_param(&Some("task=x".to_string())), None);
    assert_eq!(id_param(&None), None);
}

#[test]
fn first_task_is_answered_with_the_list() {
    let mut state = AppState::new();
    assert_eq!(
        get(&mut state, "/add-todo", Some("task=buy+milk")),
        html(
            200,
            Body::TodoList {
                tasks: vec![task(0, "buy milk", false)],
                filter_name: "All".to_string(),
            }
        )
    );
    assert_eq!(tasks_of(&state), vec![task(0, "buy milk", false)]);
    assert_eq!(state.ids.peek(), 1);
}

#[test]
fn later_task_is_answered_with_its_item() {
    let mut state = with_tasks(&["buy milk"]);
    state.filters.select("Active");
    assert_eq!(
        get(&mut state, "/add-todo", Some("task=pay%20bills")),
        html(
            200,
            Body::TodoItem { task: task(1, "pay bills", false), filter_name: "Active".to_string() }
        )
    );
    assert_eq!(tasks_of(&state), vec![task(0, "buy milk", false), task(1, "pay bills", false)]);
}

#[test]
fn whitespace_task_is_ignored_with_success() {
    let mut state = with_tasks(&["a"]);
    assert_eq!(get(&mut state, "/add-todo", Some("task=%20%20")), html(200, Body::Empty));
    assert_eq!(get(&mut state, "/add-todo", Some("task=++")), html(200, Body::Empty));
    assert_eq!(get(&mut state, "/add-todo", Some("task=")), html(200, Body::Empty));
    assert_eq!(state.tasks.len(), 1);
    assert_eq!(state.ids.peek(), 1);
}

#[test]
fn add_without_task_is_a_bad_request() {
    let mut state = AppState::new();
    assert_eq!(get(&mut state, "/add-todo", None), html(400, Body::Empty));
    assert_eq!(get(&mut state, "/add-todo", Some("id=1")), html(400, Body::Empty));
    assert_eq!(serve_add_todo(&mut state, &None), Reply::bad_request());
    assert_eq!(state.tasks.len(), 0);
    assert_eq!(state.ids.peek(), 0);
}

#[test]
fn toggle_answers_with_the_toggled_item() {
    let mut state = with_tasks(&["a", "b"]);
    assert_eq!(
        get(&mut state, "/toggle-todo", Some("id=1&done=false")),
        html(200, Body::TodoItem { task: task(1, "b", true), filter_name: "All".to_string() })
    );
    assert_eq!(tasks_of(&state), vec![task(0, "a", false), task(1, "b", true)]);
    assert_eq!(
        serve_toggle_todo(&mut state, &Some("id=1".to_string())),
        html(200, Body::TodoItem { task: task(1, "b", false), filter_name: "All".to_string() })
    );
}

#[test]
fn toggle_with_bad_id_is_a_bad_request() {
    let mut state = with_tasks(&["a"]);
    assert_eq!(get(&mut state, "/toggle-todo", None), html(400, Body::Empty));
    assert_eq!(get(&mut state, "/toggle-todo", Some("id=x")), html(400, Body::Empty));
    assert_eq!(get(&mut state, "/toggle-todo", Some("id=5")), html(400, Body::Empty));
    assert_eq!(tasks_of(&state), vec![task(0, "a", false)]);
}

#[test]
fn edit_answers_with_a_copy_in_edit() {
    let mut state = with_tasks(&["a", "b"]);
    assert_eq!(
        get(&mut state, "/edit-todo", Some("id=1")),
        html(
            200,
            Body::EditTodo {
                task: Task { id: 1, text: "b".to_string(), done: false, editing: true }
            }
        )
    );
    assert_eq!(tasks_of(&state), vec![task(0, "a", false), task(1, "b", false)]);
    assert_eq!(serve_edit_todo(&state, &Some("id=7".to_string())), Reply::bad_request());
    assert_eq!(serve_edit_todo(&state, &Some("id=".to_string())), Reply::bad_request());
    assert_eq!(serve_edit_todo(&state, &None), Reply::bad_request());
}

#[test]
fn update_answers_with_the_changed_item() {
    let mut state = with_tasks(&["a", "b"]);
    assert_eq!(
        get(&mut state, "/update-todo", Some("id=0&task=new+text")),
        html(
            200,
            Body::TodoItem { task: task(0, "new text", false), filter_name: "All".to_string() }
        )
    );
    assert_eq!(tasks_of(&state), vec![task(0, "new text", false), task(1, "b", false)]);
}

#[test]
fn update_with_blank_task_deletes() {
    let mut state = with_tasks(&["a", "b", "c"]);
    assert_eq!(get(&mut state, "/update-todo", Some("id=0&task=")), html(200, Body::Empty));
    assert_eq!(get(&mut state, "/update-todo", Some("id=1")), html(200, Body::Empty));
    assert_eq!(tasks_of(&state), vec![task(2, "c", false)]);
    assert_eq!(get(&mut state, "/update-todo", Some("id=0&task=x")), html(400, Body::Empty));
    assert_eq!(get(&mut state, "/toggle-todo", Some("id=0")), html(400, Body::Empty));
    assert_eq!(tasks_of(&state), vec![task(2, "c", false)]);
}

#[test]
fn update_with_bad_id_is_a_bad_request() {
    let mut state = with_tasks(&["a"]);
    assert_eq!(serve_update_todo(&mut state, &Some("task=x".to_string())), Reply::bad_request());
    let unreadable = Some("id=a&task=x".to_string());
    assert_eq!(serve_update_todo(&mut state, &unreadable), Reply::bad_request());
    let unknown = Some("id=3&task=x".to_string());
    assert_eq!(serve_update_todo(&mut state, &unknown), Reply::bad_request());
    assert_eq!(tasks_of(&state), vec![task(0, "a", false)]);
}

#[test]
fn remove_answers_with_an_empty_body() {
    let mut state = with_tasks(&["a", "b"]);
    assert_eq!(get(&mut state, "/remove-todo", Some("id=0")), html(200, Body::Empty));
    assert_eq!(tasks_of(&state), vec![task(1, "b", false)]);
    assert_eq!(get(&mut state, "/remove-todo", Some("id=0")), html(200, Body::Empty));
    assert_eq!(tasks_of(&state), vec![task(1, "b", false)]);
    assert_eq!(serve_remove_todo(&mut state, &Some("id=zero".to_string())), Reply::bad_request());
    assert_eq!(serve_remove_todo(&mut state, &None), Reply::bad_request());
    assert_eq!(tasks_of(&state), vec![task(1, "b", false)]);
}

#[test]
fn item_route_answers_with_the_item() {
    let mut state = with_tasks(&["a", "b"]);
    state.filters.select("Completed");
    assert_eq!(
        get(&mut state, "/todo-item", Some("id=1")),
        html(
            200,
            Body::TodoItem { task: task(1, "b", false), filter_name: "Completed".to_string() }
        )
    );
    assert_eq!(serve_todo_item(&state, &Some("id=2".to_string())), Reply::bad_request());
    assert_eq!(serve_todo_item(&state, &None), Reply::bad_request());
}

#[test]
fn set_hash_selects_the_named_filter() {
    let mut state = AppState::new();
    assert_eq!(
        get(&mut state, "/set-hash", Some("name=Active")),
        html(200, Body::FilterBar { filters: bar("Active") })
    );
    assert_eq!(state.filters.selected(), FilterKind::Active);
    assert_eq!(
        get(&mut state, "/get-hash", Some("hash=Completed")),
        html(200, Body::FilterBar { filters: bar("Completed") })
    );
    assert_eq!(state.filters.selected_name(), "Completed");
    assert_eq!(
        serve_set_hash(&mut state, &Some("hash=Completed&name=Active".to_string())),
        html(200, Body::FilterBar { filters: bar("Active") })
    );
}

#[test]
fn set_hash_falls_back_to_all() {
    let mut state = AppState::new();
    state.filters.select("Active");
    assert_eq!(
        get(&mut state, "/set-hash", Some("name=")),
        html(200, Body::FilterBar { filters: bar("All") })
    );
    state.filters.select("Completed");
    assert_eq!(
        get(&mut state, "/set-hash", Some("name=completed")),
        html(200, Body::FilterBar { filters: bar("All") })
    );
    assert_eq!(state.filters.selected(), FilterKind::All);
}

#[test]
fn set_hash_without_name_changes_nothing() {
    let mut state = AppState::new();
    state.filters.select("Active");
    assert_eq!(get(&mut state, "/set-hash", None), html(200, Body::Empty));
    assert_eq!(get(&mut state, "/set-hash", Some("other=All")), html(200, Body::Empty));
    assert_eq!(state.filters.selected(), FilterKind::Active);
}

#[test]
fn counts_label_has_singular_and_plural() {
    let mut state = AppState::new();
    assert_eq!(update_counts(&state.tasks), "<strong>0 items left</strong>");
    state.tasks.add("a".to_string(), &mut state.ids).unwrap();
    assert_eq!(update_counts(&state.tasks), "<strong>1 item left</strong>");
    state.tasks.add("b".to_string(), &mut state.ids).unwrap();
    assert_eq!(
        get(&mut state, "/update-counts", None),
        html(200, Body::Text("<strong>2 items left</strong>".to_string()))
    );
    state.tasks.toggle(0).unwrap();
    assert_eq!(update_counts(&state.tasks), "<strong>1 item left</strong>");
}

#[test]
fn toggle_all_reports_whether_all_are_done() {
    let mut state = AppState::new();
    assert_eq!(get(&mut state, "/toggle-all", None), html(200, Body::Text("false".to_string())));
    state.tasks.add("a".to_string(), &mut state.ids).unwrap();
    assert_eq!(get(&mut state, "/toggle-all", None), html(200, Body::Text("false".to_string())));
    state.tasks.toggle(0).unwrap();
    assert_eq!(get(&mut state, "/toggle-all", None), html(200, Body::Text("true".to_string())));
}

#[test]
fn completed_shows_the_button_when_a_task_is_done() {
    let mut state = with_tasks(&["a"]);
    assert_eq!(get(&mut state, "/completed", None), html(200, Body::Empty));
    state.tasks.toggle(0).unwrap();
    assert_eq!(get(&mut state, "/completed", None), html(200, Body::ClearCompleted));
    assert_eq!(serve_completed(&state), html(200, Body::ClearCompleted));
}

#[test]
fn snapshot_routes_carry_the_state() {
    let mut state = with_tasks(&["a", "b"]);
    state.tasks.toggle(0).unwrap();
    state.filters.select("Active");
    let tasks = vec![task(0, "a", true), task(1, "b", false)];
    for path in ["/footer", "/toggle-footer"] {
        assert_eq!(
            get(&mut state, path, None),
            html(
                200,
                Body::Footer { tasks: tasks.clone(), filters: bar("Active"), has_completed: true }
            )
        );
    }
    assert_eq!(
        get(&mut state, "/toggle-main", None),
        html(200, Body::ToggleMain { tasks: tasks.clone(), checked: false })
    );
    assert_eq!(
        get(&mut state, "/todo-list", None),
        html(200, Body::TodoList { tasks: tasks.clone(), filter_name: "Active".to_string() })
    );
    assert_eq!(get(&mut state, "/todo-json", None), html(200, Body::TaskArray(tasks.clone())));
    assert_eq!(get(&mut state, "/learn.json", None), html(200, Body::EmptyObject));
    assert_eq!(tasks_of(&state), tasks);
}

#[test]
fn script_route_names_the_file() {
    let mut state = AppState::new();
    assert_eq!(
        get(&mut state, "/node_modules/axe-core/axe.min.js", None),
        html(200, Body::Asset { path: "node_modules/axe-core/axe.min.js".to_string() })
    );
    assert_eq!(
        Reply::asset(Some("var axe;".to_string())),
        html(200, Body::Text("var axe;".to_string()))
    );
    assert_eq!(
        Reply::asset(None),
        html(500, Body::Text("500 Internal Server Error".to_string()))
    );
    assert_eq!(Reply::internal_error(), Reply::asset(None));
    assert_eq!(Reply::not_found(), html(404, Body::Text("404 Not Found".to_string())));
}

#[test]
fn root_without_cookie_resets_the_session() {
    let mut state = with_tasks(&["a", "b"]);
    state.tasks.toggle(0).unwrap();
    state.filters.select("Completed");
    let reply = get(&mut state, "/", None);
    assert_eq!(
        reply,
        Reply {
            status: 200,
            html: false,
            set_cookie: Some("sessionId=token; Max-Age=600; HttpOnly".to_string()),
            body: Body::Page {
                filters: bar("Completed"),
                tasks: Vec::new(),
                checked: false,
                has_completed: false,
                filter_name: "Completed".to_string(),
            },
        }
    );
    assert!(state.tasks.is_empty());
    assert_eq!(state.ids.peek(), 0);
}

#[test]
fn next_add_after_reset_gets_id_zero() {
    let mut state = with_tasks(&["a", "b", "c"]);
    let mut stale = request("/", None);
    stale.cookie = Some(STALE_COOKIE.to_string());
    let reply = respond(&mut state, &stale, NOW, "t");
    assert_eq!(reply.set_cookie, Some("sessionId=t; Max-Age=600; HttpOnly".to_string()));
    assert_eq!(tasks_of(&state), Vec::<Task>::new());
    assert_eq!(
        get(&mut state, "/add-todo", Some("task=again")),
        html(
            200,
            Body::TodoList { tasks: vec![task(0, "again", false)], filter_name: "All".to_string() }
        )
    );
}

#[test]
fn root_with_live_cookie_keeps_the_state() {
    let mut state = with_tasks(&["a", "b"]);
    state.tasks.toggle(0).unwrap();
    state.tasks.toggle(1).unwrap();
    let mut live = request("/", None);
    live.cookie = Some(LIVE_COOKIE.to_string());
    assert_eq!(
        respond(&mut state, &live, NOW, "unused"),
        Reply {
            status: 200,
            html: false,
            set_cookie: None,
            body: Body::Page {
                filters: bar("All"),
                tasks: vec![task(0, "a", true), task(1, "b", true)],
                checked: true,
                has_completed: true,
                filter_name: "All".to_string(),
            },
        }
    );
    assert_eq!(state.ids.peek(), 2);
    assert_eq!(state.tasks.len(), 2);
}

#[test]
fn root_with_malformed_cookie_resets_the_session() {
    let mut state = with_tasks(&["a"]);
    let mut odd = request("/", None);
    odd.cookie = Some("sessionId=abc".to_string());
    let reply = respond(&mut state, &odd, NOW, "fresh");
    assert_eq!(reply.status, 200);
    assert_eq!(reply.set_cookie, Some("sessionId=fresh; Max-Age=600; HttpOnly".to_string()));
    assert!(state.tasks.is_empty());
}

#[test]
fn cookie_matters_on_the_root_route_only() {
    let mut state = with_tasks(&["a"]);
    let mut stale = request("/todo-json", None);
    stale.cookie = Some(STALE_COOKIE.to_string());
    assert_eq!(
        respond(&mut state, &stale, NOW, "t"),
        html(200, Body::TaskArray(vec![task(0, "a", false)]))
    );
}

#[test]
fn serve_root_follows_the_session_state() {
    let mut state = with_tasks(&["a"]);
    let kept = serve_root(&mut state, SessionState::Active, "t");
    assert_eq!(kept.set_cookie, None);
    assert_eq!(state.tasks.len(), 1);
    let reset = serve_root(&mut state, SessionState::Expired, "t");
    assert_eq!(reset.set_cookie, Some("sessionId=t; Max-Age=600; HttpOnly".to_string()));
    assert_eq!(state.tasks.len(), 0);
    assert_eq!(state.ids.peek(), 0);
}

#[test]
fn handle_request_draws_a_token_for_a_new_session() {
    let mut state = with_tasks(&["a"]);
    let reply = handle_request(&mut state, &request("/", None));
    let cookie = reply.set_cookie.unwrap();
    let token = cookie
        .strip_prefix("sessionId=")
        .unwrap()
        .strip_suffix("; Max-Age=600; HttpOnly")
        .unwrap();
    assert_eq!(token.len(), 128);
    assert!(token.chars().all(|c| c.is_ascii_alphanumeric()));
    assert!(state.tasks.is_empty());
    assert_eq!(state.ids.peek(), 0);
}

#[test]
fn handle_request_reads_the_clock() {
    let mut state = with_tasks(&["a"]);
    let mut live = request("/", None);
    live.cookie = Some("expires=9999-12-31 23:59:59".to_string());
    let reply = handle_request(&mut state, &live);
    assert_eq!(reply.set_cookie, None);
    assert_eq!(state.tasks.len(), 1);
    let mut stale = request("/", None);
    stale.cookie = Some("expires=2000-01-01 00:00:00".to_string());
    let reply = handle_request(&mut state, &stale);
    assert!(reply.set_cookie.is_some());
    assert_eq!(state.tasks.len(), 0);
}

#[test]
fn handle_request_serves_the_other_routes() {
    let mut state = AppState::new();
    assert_eq!(
        handle_request(&mut state, &request("/add-todo", Some("task=a"))),
        html(
            200,
            Body::TodoList { tasks: vec![task(0, "a", false)], filter_name: "All".to_string() }
        )
    );
    assert_eq!(
        handle_request(&mut state, &request("/missing", None)),
        html(404, Body::Text("404 Not Found".to_string()))
    );
}

#[test]
fn state_reset_keeps_the_selection() {
    let mut state = with_tasks(&["a"]);
    state.filters.select("Active");
    state.reset();
    assert!(state.tasks.is_empty());
    assert_eq!(state.ids.peek(), 0);
    assert_eq!(state.filters.selected(), FilterKind::Active);
}

#[test]
fn fragments_carry_the_state_that_was_left() {
    let mut state = with_tasks(&["a", "b", "c"]);
    let replies = [
        get(&mut state, "/toggle-todo", Some("id=1")),
        get(&mut state, "/update-todo", Some("id=2&task=z")),
        get(&mut state, "/add-todo", Some("task=d")),
        get(&mut state, "/todo-item", Some("id=0")),
    ];
    let expected_ids = [1u32, 2, 3, 0];
    for (reply, id) in replies.iter().zip(expected_ids) {
        match &reply.body {
            Body::TodoItem { task, filter_name } => {
                assert_eq!(task.id, id);
                assert_eq!(filter_name, "All");
            }
            other => panic!("unexpected body {:?}", other),
        }
    }
    let toggled = get(&mut state, "/toggle-todo", Some("id=0"));
    assert_eq!(
        toggled.body,
        Body::TodoItem { task: state.tasks.find(0).unwrap(), filter_name: "All".to_string() }
    );
    assert_eq!(get(&mut state, "/todo-json", None).body, Body::TaskArray(tasks_of(&state)));
    assert_eq!(
        get(&mut state, "/remove-todo", Some("id=1")).body,
        Body::Empty
    );
    assert_eq!(
        get(&mut state, "/todo-list", None).body,
        Body::TodoList { tasks: tasks_of(&state), filter_name: "All".to_string() }
    );
    assert_eq!(state.tasks.len(), 3);
}

#[test]
fn refused_requests_leave_the_state() {
    let mut state = with_tasks(&["a", "b"]);
    state.tasks.toggle(0).unwrap();
    let before = tasks_of(&state);
    let refused = [
        ("/add-todo", None),
        ("/toggle-todo", Some("id=9")),
        ("/edit-todo", Some("id=x")),
        ("/update-todo", Some("id=9&task=x")),
        ("/remove-todo", Some("id=")),
        ("/todo-item", Some("id=9")),
    ];
    for (path, query) in refused {
        assert_eq!(get(&mut state, path, query), Reply::bad_request());
        assert_eq!(tasks_of(&state), before);
        assert_eq!(state.ids.peek(), 2);
    }
    assert_eq!(get(&mut state, "/elsewhere", Some("id=0")), Reply::not_found());
    assert_eq!(tasks_of(&state), before);
}

#[test]
fn add_without_an_identifier_left_is_an_internal_failure() {
    let mut state = with_tasks(&["a"]);
    while !state.ids.is_exhausted() {
        state.ids.next();
    }
    assert_eq!(get(&mut state, "/add-todo", Some("task=late")), Reply::internal_error());
    assert_eq!(
        get(&mut state, "/add-todo", Some("task=late")),
        html(500, Body::Text("500 Internal Server Error".to_string()))
    );
    assert_eq!(get(&mut state, "/add-todo", Some("task=+")), html(200, Body::Empty));
    assert_eq!(get(&mut state, "/add-todo", None), Reply::bad_request());
    assert_eq!(tasks_of(&state), vec![task(0, "a", false)]);
    assert_eq!(state.ids.peek(), u32::MAX);
    assert_eq!(
        get(&mut state, "/toggle-todo", Some("id=0")),
        html(200, Body::TodoItem { task: task(0, "a", true), filter_name: "All".to_string() })
    );
    let reset = get(&mut state, "/", None);
    assert_eq!(reset.status, 200);
    assert_eq!(
        get(&mut state, "/add-todo", Some("task=early")),
        html(
            200,
            Body::TodoList { tasks: vec![task(0, "early", false)], filter_name: "All".to_string() }
        )
    );
}

#[test]
fn identifiers_of_deleted_tasks_do_not_come_back() {
    let mut state = with_tasks(&["a", "b", "c"]);
    assert_eq!(get(&mut state, "/remove-todo", Some("id=2")).status, 200);
    assert_eq!(get(&mut state, "/update-todo", Some("id=1&task=")).status, 200);
    assert_eq!(
        get(&mut state, "/add-todo", Some("task=d")),
        html(200, Body::TodoItem { task: task(3, "d", false), filter_name: "All".to_string() })
    );
    let ids: Vec<u32> = tasks_of(&state).iter().map(|t| t.id).collect();
    assert_eq!(ids, vec![0, 3]);
}
