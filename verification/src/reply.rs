//! What a handler answers: a status, two headers and a body. The body names
//! the fragment to render and carries the snapshot of the state that the
//! fragment is rendered from, taken while the handler had the state.

use vstd::prelude::*;
use crate::filter::{filter_models, Filter, FilterModel};
use crate::task::{task_models, Task, TaskModel};
use crate::text::text_of;

verus! {

/// The model of a body: texts as sequences of characters, tasks and filters
/// as their models.
pub enum BodyModel {
    Empty,
    Text(Seq<char>),
    EmptyObject,
    TaskArray(Seq<TaskModel>),
    TodoItem { task: TaskModel, filter_name: Seq<char> },
    TodoList { tasks: Seq<TaskModel>, filter_name: Seq<char> },
    EditTodo { task: TaskModel },
    ClearCompleted,
    ToggleMain { tasks: Seq<TaskModel>, checked: bool },
    Footer { tasks: Seq<TaskModel>, filters: Seq<FilterModel>, has_completed: bool },
    FilterBar { filters: Seq<FilterModel> },
    Page {
        filters: Seq<FilterModel>,
        tasks: Seq<TaskModel>,
        checked: bool,
        has_completed: bool,
        filter_name: Seq<char>,
    },
    Asset { path: Seq<char> },
}

/// The body of a response.
#[derive(Debug, PartialEq, Eq)]
pub enum Body {
    /// Nothing.
    Empty,
    /// The text itself, sent as it is.
    Text(String),
    /// The JSON object without members.
    EmptyObject,
    /// The tasks as a JSON array.
    TaskArray(Vec<Task>),
    /// The markup of one task as the filter called `filter_name` shows it.
    TodoItem { task: Task, filter_name: String },
    /// The markup of the task list under the filter called `filter_name`.
    TodoList { tasks: Vec<Task>, filter_name: String },
    /// The input field in which the text of `task` is edited.
    EditTodo { task: Task },
    /// The button that clears the completed tasks.
    ClearCompleted,
    /// The section with the checkbox that marks every task; `checked` is the
    /// state of the checkbox.
    ToggleMain { tasks: Vec<Task>, checked: bool },
    /// The footer: the counter, the filter bar and, where `has_completed`
    /// holds, the button that clears the completed tasks.
    Footer { tasks: Vec<Task>, filters: Vec<Filter>, has_completed: bool },
    /// The filter bar.
    FilterBar { filters: Vec<Filter> },
    /// The whole page.
    Page {
        filters: Vec<Filter>,
        tasks: Vec<Task>,
        checked: bool,
        has_completed: bool,
        filter_name: String,
    },
    /// The content of the file at `path`, which whoever sends the response
    /// has yet to read.
    Asset { path: String },
}

impl View for Body {
    type V = BodyModel;

    open spec fn view(&self) -> BodyModel {
        match self {
            Body::Empty => BodyModel::Empty,
            Body::Text(text) => BodyModel::Text(text@),
            Body::EmptyObject => BodyModel::EmptyObject,
            Body::TaskArray(tasks) => BodyModel::TaskArray(task_models(tasks@)),
            Body::TodoItem { task, filter_name } => BodyModel::TodoItem {
                task: task@,
                filter_name: filter_name@,
            },
            Body::TodoList { tasks, filter_name } => BodyModel::TodoList {
                tasks: task_models(tasks@),
                filter_name: filter_name@,
            },
            Body::EditTodo { task } => BodyModel::EditTodo { task: task@ },
            Body::ClearCompleted => BodyModel::ClearCompleted,
            Body::ToggleMain { tasks, checked } => BodyModel::ToggleMain {
                tasks: task_models(tasks@),
                checked: *checked,
            },
            Body::Footer { tasks, filters, has_completed } => BodyModel::Footer {
                tasks: task_models(tasks@),
                filters: filter_models(filters@),
                has_completed: *has_completed,
            },
            Body::FilterBar { filters } => BodyModel::FilterBar {
                filters: filter_models(filters@),
            },
            Body::Page { filters, tasks, checked, has_completed, filter_name } => BodyModel::Page {
                filters: filter_models(filters@),
                tasks: task_models(tasks@),
                checked: *checked,
                has_completed: *has_completed,
                filter_name: filter_name@,
            },
            Body::Asset { path } => BodyModel::Asset { path: path@ },
        }
    }
}

/// The model of a response.
pub struct ReplyModel {
    pub status: u16,
    pub html: bool,
    pub set_cookie: Option<Seq<char>>,
    pub body: BodyModel,
}

impl ReplyModel {
    /// A response of the given status that is declared as HTML and sets no
    /// cookie.
    pub open spec fn html(status: u16, body: BodyModel) -> ReplyModel {
        ReplyModel { status, html: true, set_cookie: None, body }
    }

    /// The response to a request that lacks a parameter or names no task.
    pub open spec fn bad_request() -> ReplyModel {
        ReplyModel::html(400, BodyModel::Empty)
    }

    /// The response that stands for a failure inside a handler.
    pub open spec fn internal_error() -> ReplyModel {
        ReplyModel::html(500, BodyModel::Text(INTERNAL_ERROR_TEXT@))
    }
}

/// A response: the status, whether it is declared as HTML, which is to carry
/// the header `Content-Type` with the value `HTML_CONTENT_TYPE`, the value of
/// its `Set-Cookie` header if it has one, and the body.
#[derive(Debug, PartialEq, Eq)]
pub struct Reply {
    pub status: u16,
    pub html: bool,
    pub set_cookie: Option<String>,
    pub body: Body,
}

impl View for Reply {
    type V = ReplyModel;

    open spec fn view(&self) -> ReplyModel {
        ReplyModel {
            status: self.status,
            html: self.html,
            set_cookie: text_of(self.set_cookie),
            body: self.body@,
        }
    }
}

/// The value of the header `Content-Type` of a response that is declared as
/// HTML.
pub const HTML_CONTENT_TYPE: &'static str = "text/html; charset=utf-8";

/// The body of the response that reports an internal failure.
pub const INTERNAL_ERROR_TEXT: &'static str = "500 Internal Server Error";

/// The body of the response to a path that no handler serves.
pub const NOT_FOUND_TEXT: &'static str = "404 Not Found";

impl Reply {
    /// A response of the given status that is declared as HTML and sets no
    /// cookie.
    pub fn html(status: u16, body: Body) -> (r: Reply)
        ensures
            r@ == ReplyModel::html(status, body@),
    {
        Reply { status, html: true, set_cookie: None, body }
    }

    /// The response to a request that lacks a parameter or names no task:
    /// status 400 and an empty body.
    pub fn bad_request() -> (r: Reply)
        ensures
            r@ == ReplyModel::bad_request(),
    {
        Reply::html(400, Body::Empty)
    }

    /// The response to a path that no handler serves: status 404 and a plain
    /// text.
    pub fn not_found() -> (r: Reply)
        ensures
            r@ == ReplyModel::html(404, BodyModel::Text(NOT_FOUND_TEXT@)),
    {
        Reply::html(404, Body::Text(NOT_FOUND_TEXT.to_string()))
    }

    /// The response that stands for any failure inside a handler: status 500
    /// and a fixed plain text.
    pub fn internal_error() -> (r: Reply)
        ensures
            r@ == ReplyModel::internal_error(),
    {
        Reply::html(500, Body::Text(INTERNAL_ERROR_TEXT.to_string()))
    }

    /// The response that serves a file once it was read: its content with
    /// status 200, or the internal failure where it could not be read.
    pub fn asset(content: Option<String>) -> (r: Reply)
        ensures
            r@ == (match content {
                Some(text) => ReplyModel::html(200, BodyModel::Text(text@)),
                None => ReplyModel::internal_error(),
            }),
    {
        match content {
            Some(text) => Reply::html(200, Body::Text(text)),
            None => Reply::internal_error(),
        }
    }
}

} // verus!
