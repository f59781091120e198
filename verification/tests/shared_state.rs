use std::sync::{Arc, Mutex};
use todomvc::filter::FilterKind;
use todomvc::router::{handle_request, Request};
use todomvc::state::AppState;

#[test]
fn adds_through_a_shared_lock_get_distinct_ids() {
    let callers: usize = 8;
    let each: usize = 50;
    let state = Arc::new(Mutex::new(AppState::new()));
    let handles: Vec<Arc<Mutex<AppState>>> = (0..callers).map(|_| Arc::clone(&state)).collect();
    for n in 0..each {
        for (c, handle) in handles.iter().enumerate() {
            let request = Request {
                path: "/add-todo".to_string(),
                query: Some(format!("task=c{}n{}", c, n)),
                cookie: None,
            };
            let reply = handle_request(&mut handle.lock().unwrap(), &request);
            assert_eq!(reply.status, 200);
        }
    }
    let state = state.lock().unwrap();
    let tasks = state.tasks.list(FilterKind::All);
    assert_eq!(tasks.len(), callers * each);
    let mut ids: Vec<u32> = tasks.iter().map(|t| t.id).collect();
    ids.sort();
    ids.dedup();
    assert_eq!(ids.len(), callers * each);
    assert_eq!(state.ids.peek() as usize, callers * each);
}
