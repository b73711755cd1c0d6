//! The tasks of the remote service, the requests that the client makes and the
//! answers that it reads.

use crate::error::{failure, failure_from, result_view, ClientError, ClientErrorView, ErrorKind};
use crate::json::{compact, distinct_keys, compact_text, lookup, member_views, parse, parsed, views, Json, JsonView};
use crate::text::{decimal, format_i64, join, strip_trailing, without_trailing};
use vstd::prelude::*;
use vstd::string::*;

verus! {

/// One task, as the server describes it.
#[derive(Debug, PartialEq, Eq)]
pub struct Todo {
    pub id: i64,
    pub user_id: i64,
    pub title: String,
    pub completed: bool,
    pub created_at: String,
    pub updated_at: String,
}

/// What a `Todo` holds, as mathematical values.
pub struct TodoView {
    pub id: int,
    pub user_id: int,
    pub title: Seq<char>,
    pub completed: bool,
    pub created_at: Seq<char>,
    pub updated_at: Seq<char>,
}

impl View for Todo {
    type V = TodoView;

    open spec fn view(&self) -> TodoView {
        TodoView {
            id: self.id as int,
            user_id: self.user_id as int,
            title: self.title@,
            completed: self.completed,
            created_at: self.created_at@,
            updated_at: self.updated_at@,
        }
    }
}

impl DeepView for Todo {
    type V = TodoView;

    open spec fn deep_view(&self) -> TodoView {
        self@
    }
}

impl Clone for Todo {
    fn clone(&self) -> (r: Todo)
        ensures
            r@ == self@,
    {
        Todo {
            id: self.id,
            user_id: self.user_id,
            title: self.title.clone(),
            completed: self.completed,
            created_at: self.created_at.clone(),
            updated_at: self.updated_at.clone(),
        }
    }
}

/// The document that stands for a task: an object with its six fields.
pub open spec fn todo_document(todo: TodoView) -> JsonView {
    JsonView::Object(
        seq![
            ("id"@, JsonView::Number(Some(todo.id))),
            ("user_id"@, JsonView::Number(Some(todo.user_id))),
            ("title"@, JsonView::Text(todo.title)),
            ("completed"@, JsonView::Bool(todo.completed)),
            ("created_at"@, JsonView::Text(todo.created_at)),
            ("updated_at"@, JsonView::Text(todo.updated_at)),
        ],
    )
}

/// The task that a document describes: an object that holds the six fields,
/// each of its kind. Other members are passed over.
pub open spec fn todo_read(doc: JsonView) -> Option<TodoView> {
    if doc.integer_at("id"@) is Some && doc.integer_at("user_id"@) is Some && doc.text_at("title"@)
        is Some && doc.boolean_at("completed"@) is Some && doc.text_at("created_at"@) is Some
        && doc.text_at("updated_at"@) is Some {
        Some(
            TodoView {
                id: doc.integer_at("id"@)->0,
                user_id: doc.integer_at("user_id"@)->0,
                title: doc.text_at("title"@)->0,
                completed: doc.boolean_at("completed"@)->0,
                created_at: doc.text_at("created_at"@)->0,
                updated_at: doc.text_at("updated_at"@)->0,
            },
        )
    } else {
        None
    }
}

/// The names of a task's fields differ from one another.
pub proof fn lemma_todo_keys_differ()
    ensures
        "id"@ != "user_id"@,
        "id"@ != "title"@,
        "id"@ != "completed"@,
        "id"@ != "created_at"@,
        "id"@ != "updated_at"@,
        "user_id"@ != "title"@,
        "user_id"@ != "completed"@,
        "user_id"@ != "created_at"@,
        "user_id"@ != "updated_at"@,
        "title"@ != "completed"@,
        "title"@ != "created_at"@,
        "title"@ != "updated_at"@,
        "completed"@ != "created_at"@,
        "completed"@ != "updated_at"@,
        "created_at"@ != "updated_at"@,
{
    reveal_strlit("id");
    reveal_strlit("user_id");
    reveal_strlit("title");
    reveal_strlit("completed");
    reveal_strlit("created_at");
    reveal_strlit("updated_at");
    assert("id"@.len() == 2);
    assert("user_id"@.len() == 7);
    assert("title"@.len() == 5);
    assert("completed"@.len() == 9);
    assert("created_at"@.len() == 10);
    assert("created_at"@[0] != "updated_at"@[0]);
}

/// The document of a task can be written out.
pub proof fn lemma_todo_document_well_formed(todo: TodoView)
    ensures
        todo_document(todo).well_formed(),
{
    lemma_todo_keys_differ();
    reveal_with_fuel(JsonView::well_formed, 2);
}

/// A task is read back unchanged from the document that stands for it.
pub proof fn lemma_todo_round_trip(todo: TodoView)
    ensures
        todo_read(todo_document(todo)) == Some(todo),
{
    lemma_todo_keys_differ();
    reveal_with_fuel(lookup, 7);
}

impl Todo {
    /// The document that stands for the task.
    pub fn to_json(&self) -> (r: Json)
        ensures
            r@ == todo_document(self@),
            r@.well_formed(),
    {
        let mut members: Vec<(String, Json)> = Vec::new();
        members.push(Json::entry("id", Json::integer(self.id)));
        members.push(Json::entry("user_id", Json::integer(self.user_id)));
        members.push(Json::entry("title", Json::text(self.title.as_str())));
        members.push(Json::entry("completed", Json::Bool(self.completed)));
        members.push(Json::entry("created_at", Json::text(self.created_at.as_str())));
        members.push(Json::entry("updated_at", Json::text(self.updated_at.as_str())));
        proof {
            assert(member_views(members@) =~= todo_document(self@)->Object_0);
            lemma_todo_document_well_formed(self@);
        }
        Json::object(members)
    }

    /// Reads a task from the document that describes it.
    pub fn from_json(doc: &Json) -> (r: Option<Todo>)
        ensures
            r.deep_view() == todo_read(doc@),
    {
        let id = doc.integer_at("id");
        let user_id = doc.integer_at("user_id");
        let title = doc.text_at("title");
        let completed = doc.boolean_at("completed");
        let created_at = doc.text_at("created_at");
        let updated_at = doc.text_at("updated_at");
        match (id, user_id, title, completed, created_at, updated_at) {
            (
                Some(id),
                Some(user_id),
                Some(title),
                Some(completed),
                Some(created_at),
                Some(updated_at),
            ) => Some(Todo { id, user_id, title, completed, created_at, updated_at }),
            _ => None,
        }
    }
}

/// The document that stands for a list of tasks: the array of their documents.
pub open spec fn todos_document(todos: Seq<TodoView>) -> JsonView {
    JsonView::Array(Seq::new(todos.len(), |i: int| todo_document(todos[i])))
}

/// The tasks that the documents describe, in order; `None` if one of them
/// describes no task.
pub open spec fn todos_read(items: Seq<JsonView>) -> Option<Seq<TodoView>> {
    if forall|i: int| 0 <= i < items.len() ==> (#[trigger] todo_read(items[i])) is Some {
        Some(Seq::new(items.len(), |i: int| todo_read(items[i])->0))
    } else {
        None
    }
}

/// The document of a list of tasks can be written out.
pub proof fn lemma_todos_document_well_formed(todos: Seq<TodoView>)
    ensures
        todos_document(todos).well_formed(),
{
    let items = todos_document(todos)->Array_0;
    assert forall|i: int| 0 <= i < items.len() implies (#[trigger] items[i]).well_formed() by {
        lemma_todo_document_well_formed(todos[i]);
    }
}

/// A list of tasks is read back unchanged from the documents that stand for them.
pub proof fn lemma_todos_round_trip(todos: Seq<TodoView>)
    ensures
        todos_read(todos_document(todos)->Array_0) == Some(todos),
{
    let items = todos_document(todos)->Array_0;
    assert forall|i: int| 0 <= i < items.len() implies (#[trigger] todo_read(items[i])) == Some(
        todos[i],
    ) by {
        lemma_todo_round_trip(todos[i]);
    }
}

/// The document that stands for the tasks in `todos`.
pub fn todos_to_json(todos: &[Todo]) -> (r: Json)
    ensures
        r@ == todos_document(todos.deep_view()),
        r@.well_formed(),
{
    let mut items: Vec<Json> = Vec::new();
    let mut i: usize = 0;
    while i < todos.len()
        invariant
            i <= todos.len(),
            items@.len() == i,
            forall|k: int| 0 <= k < i ==> (#[trigger] items@[k])@ == todo_document(todos@[k]@),
        decreases todos.len() - i,
    {
        items.push(todos[i].to_json());
        i += 1;
    }
    proof {
        assert(views(items@) =~= todos_document(todos.deep_view())->Array_0);
        lemma_todos_document_well_formed(todos.deep_view());
    }
    Json::array(items)
}

/// Reads the tasks that the documents in `items` describe.
pub fn todos_from_json(items: &Vec<Json>) -> (r: Option<Vec<Todo>>)
    ensures
        r.deep_view() == todos_read(views(items@)),
{
    let mut todos: Vec<Todo> = Vec::new();
    let mut i: usize = 0;
    while i < items.len()
        invariant
            i <= items.len(),
            todos@.len() == i,
            forall|k: int| 0 <= k < i ==> todo_read(#[trigger] views(items@)[k]) == Some(todos@[k]@),
        decreases items.len() - i,
    {
        match Todo::from_json(&items[i]) {
            Some(todo) => {
                todos.push(todo);
            },
            None => {
                assert(todo_read(views(items@)[i as int]) is None);
                return None;
            },
        }
        i += 1;
    }
    Some(todos)
}

/// The answer to a request for the list of tasks.
#[derive(Debug, PartialEq, Eq)]
pub struct TodoListResponse {
    pub todos: Vec<Todo>,
    pub total: i32,
}

/// What a `TodoListResponse` holds, as mathematical values.
pub struct TodoListResponseView {
    pub todos: Seq<TodoView>,
    pub total: int,
}

impl View for TodoListResponse {
    type V = TodoListResponseView;

    open spec fn view(&self) -> TodoListResponseView {
        TodoListResponseView { todos: self.todos.deep_view(), total: self.total as int }
    }
}

impl DeepView for TodoListResponse {
    type V = TodoListResponseView;

    open spec fn deep_view(&self) -> TodoListResponseView {
        self@
    }
}

/// The list that a document describes: an object with the tasks under `todos`
/// and their number, which an `i32` holds, under `total`.
pub open spec fn list_read(doc: JsonView) -> Option<TodoListResponseView> {
    match (doc.member("todos"@), doc.integer_at("total"@)) {
        (Some(JsonView::Array(items)), Some(total)) => {
            if todos_read(items) is Some && i32::MIN <= total <= i32::MAX {
                Some(TodoListResponseView { todos: todos_read(items)->0, total })
            } else {
                None
            }
        },
        _ => None,
    }
}

impl TodoListResponse {
    /// Reads a list of tasks from the document that describes it.
    pub fn from_json(doc: &Json) -> (r: Option<TodoListResponse>)
        ensures
            r.deep_view() == list_read(doc@),
    {
        let items = match doc.get("todos") {
            Some(value) => match value.as_array() {
                Some(items) => items,
                None => {
                    return None;
                },
            },
            None => {
                return None;
            },
        };
        let total = match doc.integer_at("total") {
            Some(total) => total,
            None => {
                return None;
            },
        };
        if total < -2147483648 || total > 2147483647 {
            return None;
        }
        match todos_from_json(items) {
            Some(todos) => Some(TodoListResponse { todos, total: total as i32 }),
            None => None,
        }
    }
}

/// The body of a request to log in.
#[derive(Debug, PartialEq, Eq)]
pub struct LoginRequest {
    pub email: String,
    pub password: String,
}

/// The body of a request to register.
#[derive(Debug, PartialEq, Eq)]
pub struct RegisterRequest {
    pub email: String,
    pub password: String,
}

/// The document that carries an address and a password.
pub open spec fn credentials_document(email: Seq<char>, password: Seq<char>) -> JsonView {
    JsonView::Object(
        seq![("email"@, JsonView::Text(email)), ("password"@, JsonView::Text(password))],
    )
}

fn credentials_to_json(email: &str, password: &str) -> (r: Json)
    ensures
        r@ == credentials_document(email@, password@),
        r@.well_formed(),
{
    let mut members: Vec<(String, Json)> = Vec::new();
    members.push(Json::entry("email", Json::text(email)));
    members.push(Json::entry("password", Json::text(password)));
    proof {
        reveal_strlit("email");
        reveal_strlit("password");
        reveal_with_fuel(JsonView::well_formed, 2);
        let expected = credentials_document(email@, password@)->Object_0;
        assert(member_views(members@) =~= expected);
        assert("email"@.len() != "password"@.len());
    }
    Json::object(members)
}

impl LoginRequest {
    /// The document that stands for the request.
    pub fn to_json(&self) -> (r: Json)
        ensures
            r@ == credentials_document(self.email@, self.password@),
            r@.well_formed(),
    {
        credentials_to_json(self.email.as_str(), self.password.as_str())
    }
}

impl RegisterRequest {
    /// The document that stands for the request.
    pub fn to_json(&self) -> (r: Json)
        ensures
            r@ == credentials_document(self.email@, self.password@),
            r@.well_formed(),
    {
        credentials_to_json(self.email.as_str(), self.password.as_str())
    }
}

/// The answer to a successful login or registration.
#[derive(Debug, PartialEq, Eq)]
pub struct AuthResponse {
    pub token: String,
    pub user_id: Option<i64>,
}

/// What an `AuthResponse` holds, as mathematical values.
pub struct AuthResponseView {
    pub token: Seq<char>,
    pub user_id: Option<int>,
}

impl View for AuthResponse {
    type V = AuthResponseView;

    open spec fn view(&self) -> AuthResponseView {
        AuthResponseView {
            token: self.token@,
            user_id: match self.user_id {
                Some(id) => Some(id as int),
                None => None,
            },
        }
    }
}

impl DeepView for AuthResponse {
    type V = AuthResponseView;

    open spec fn deep_view(&self) -> AuthResponseView {
        self@
    }
}

/// The credential that a document describes: an object with a text under
/// `token`. The member `user_id` may be missing or null; where it is neither,
/// it is an integer.
pub open spec fn auth_read(doc: JsonView) -> Option<AuthResponseView> {
    match doc.text_at("token"@) {
        Some(token) => match doc.member("user_id"@) {
            None => Some(AuthResponseView { token, user_id: None }),
            Some(JsonView::Null) => Some(AuthResponseView { token, user_id: None }),
            Some(JsonView::Number(Some(id))) => Some(AuthResponseView { token, user_id: Some(id) }),
            Some(_) => None,
        },
        None => None,
    }
}

impl AuthResponse {
    /// Reads a credential from the document that describes it.
    pub fn from_json(doc: &Json) -> (r: Option<AuthResponse>)
        ensures
            r.deep_view() == auth_read(doc@),
    {
        let token = match doc.text_at("token") {
            Some(token) => token,
            None => {
                return None;
            },
        };
        match doc.get("user_id") {
            None => Some(AuthResponse { token, user_id: None }),
            Some(Json::Null) => Some(AuthResponse { token, user_id: None }),
            Some(Json::Number(Some(id))) => Some(AuthResponse { token, user_id: Some(*id) }),
            Some(_) => None,
        }
    }
}

/// The document that carries the title of a task to create.
pub open spec fn create_document(title: Seq<char>) -> JsonView {
    JsonView::Object(seq![("title"@, JsonView::Text(title))])
}

/// The document that carries the changes to a task: a member for each field
/// that is given, and none for one that is not.
pub open spec fn update_document(title: Option<Seq<char>>, completed: Option<bool>) -> JsonView {
    JsonView::Object(
        (match title {
            Some(t) => seq![("title"@, JsonView::Text(t))],
            None => Seq::empty(),
        }) + (match completed {
            Some(c) => seq![("completed"@, JsonView::Bool(c))],
            None => Seq::empty(),
        }),
    )
}

/// The body of an update carries exactly the fields that are given: a title
/// alone leaves `completed` out, a completion flag alone leaves `title` out,
/// and with neither the object is empty.
pub proof fn lemma_update_carries_what_is_given(title: Option<Seq<char>>, completed: Option<bool>)
    ensures
        update_document(title, completed).text_at("title"@) == title,
        update_document(title, completed).member("title"@) is Some <==> title is Some,
        update_document(title, completed).boolean_at("completed"@) == completed,
        update_document(title, completed).member("completed"@) is Some <==> completed is Some,
        update_document(title, completed)->Object_0.len() == (if title is Some {
            1int
        } else {
            0int
        }) + (if completed is Some {
            1int
        } else {
            0int
        }),
        update_document(title, completed).well_formed(),
{
    lemma_todo_keys_differ();
    reveal_with_fuel(lookup, 3);
    reveal_with_fuel(JsonView::well_formed, 2);
}

fn create_to_json(title: &str) -> (r: Json)
    ensures
        r@ == create_document(title@),
        r@.well_formed(),
{
    let mut members: Vec<(String, Json)> = Vec::new();
    members.push(Json::entry("title", Json::text(title)));
    proof {
        reveal_with_fuel(JsonView::well_formed, 2);
        let expected = create_document(title@)->Object_0;
        assert(member_views(members@) =~= expected);
    }
    Json::object(members)
}

fn update_to_json(title: Option<&str>, completed: Option<bool>) -> (r: Json)
    ensures
        r@ == update_document(title.deep_view(), completed),
        r@.well_formed(),
{
    let mut members: Vec<(String, Json)> = Vec::new();
    match title {
        Some(t) => {
            members.push(Json::entry("title", Json::text(t)));
        },
        None => {},
    }
    match completed {
        Some(c) => {
            members.push(Json::entry("completed", Json::Bool(c)));
        },
        None => {},
    }
    proof {
        lemma_update_carries_what_is_given(title.deep_view(), completed);
        assert(member_views(members@) =~= update_document(title.deep_view(), completed)->Object_0);
    }
    Json::object(members)
}

/// The method of a request.
#[derive(Clone, Copy, Debug, PartialEq, Eq, Structural)]
pub enum Method {
    Get,
    Post,
    Put,
    Delete,
}

/// The seconds after which a request that has not been answered is given up.
pub const TIMEOUT_SECONDS: u64 = 30;

/// A request for the program to send.
#[derive(Debug, PartialEq, Eq)]
pub struct Request {
    pub method: Method,
    pub url: String,
    /// The header fields, each a name and a value.
    pub headers: Vec<(String, String)>,
    /// The body, as JSON text.
    pub body: Option<String>,
    pub timeout_seconds: u64,
}

/// What a `Request` holds, as mathematical values.
pub struct RequestView {
    pub method: Method,
    pub url: Seq<char>,
    pub headers: Seq<(Seq<char>, Seq<char>)>,
    pub body: Option<Seq<char>>,
    pub timeout_seconds: int,
}

impl View for Request {
    type V = RequestView;

    open spec fn view(&self) -> RequestView {
        RequestView {
            method: self.method,
            url: self.url@,
            headers: self.headers.deep_view(),
            body: self.body.deep_view(),
            timeout_seconds: self.timeout_seconds as int,
        }
    }
}

impl DeepView for Request {
    type V = RequestView;

    open spec fn deep_view(&self) -> RequestView {
        self@
    }
}

/// What came of sending a request.
#[derive(Debug, PartialEq, Eq)]
pub enum Exchange {
    /// No answer came: the request could not be sent, or it timed out.
    Failed { cause: String },
    /// The server answered. `body` is `None` where the body could not be read.
    Answered { status: u16, body: Option<Vec<u8>> },
}

/// What an `Exchange` holds, as mathematical values.
pub enum ExchangeView {
    Failed { cause: Seq<char> },
    Answered { status: int, body: Option<Seq<u8>> },
}

impl View for Exchange {
    type V = ExchangeView;

    open spec fn view(&self) -> ExchangeView {
        match self {
            Exchange::Failed { cause } => ExchangeView::Failed { cause: cause@ },
            Exchange::Answered { status, body } => ExchangeView::Answered {
                status: *status as int,
                body: match body {
                    Some(bytes) => Some(bytes@),
                    None => None,
                },
            },
        }
    }
}

/// A client of the service: where the server is, and the credential of the
/// session if there is one.
#[derive(Debug, PartialEq, Eq)]
pub struct ApiClient {
    pub base_url: String,
    pub token: Option<String>,
}

/// What an `ApiClient` holds, as mathematical values.
pub struct ApiClientView {
    pub base_url: Seq<char>,
    pub token: Option<Seq<char>>,
}

impl View for ApiClient {
    type V = ApiClientView;

    open spec fn view(&self) -> ApiClientView {
        ApiClientView { base_url: self.base_url@, token: self.token.deep_view() }
    }
}

/// The value of the header that carries a credential.
pub open spec fn authorization(token: Option<Seq<char>>) -> Option<Seq<char>> {
    match token {
        Some(t) => Some("Bearer "@ + t),
        None => None,
    }
}

/// The header fields of a request: the kind of the body where there is one,
/// then the credential where there is one.
pub open spec fn headers(token: Option<Seq<char>>, with_body: bool) -> Seq<(Seq<char>, Seq<char>)> {
    let content = if with_body {
        seq![("Content-Type"@, "application/json"@)]
    } else {
        Seq::empty()
    };
    match authorization(token) {
        Some(value) => content.push(("Authorization"@, value)),
        None => content,
    }
}

/// The request of `client` with the given method, path and body.
pub open spec fn request(
    client: ApiClientView,
    method: Method,
    path: Seq<char>,
    body: Option<Seq<char>>,
) -> RequestView {
    RequestView {
        method,
        url: client.base_url + path,
        headers: headers(client.token, body is Some),
        body,
        timeout_seconds: TIMEOUT_SECONDS as int,
    }
}

/// The request of `client` whose body is the text of `doc`; a transport
/// failure where that text cannot be written.
pub open spec fn request_with(
    client: ApiClientView,
    method: Method,
    path: Seq<char>,
    doc: JsonView,
    context: Seq<char>,
) -> Result<RequestView, ClientErrorView> {
    match compact_text(doc) {
        Some(body) => Ok(request(client, method, path, Some(body))),
        None => Err(failure(ErrorKind::Transport, context)),
    }
}

/// The path of the task with the given identifier.
pub open spec fn todo_path(id: int) -> Seq<char> {
    "/api/v1/todos/"@ + decimal(id)
}

/// The request that logs in: the address and the password go to
/// `/api/v1/auth/login`.
pub open spec fn login_request(client: ApiClientView, email: Seq<char>, password: Seq<char>) -> Result<
    RequestView,
    ClientErrorView,
> {
    request_with(
        client,
        Method::Post,
        "/api/v1/auth/login"@,
        credentials_document(email, password),
        "Failed to send login request"@,
    )
}

/// The request that registers: the address and the password go to
/// `/api/v1/users`.
pub open spec fn register_request(
    client: ApiClientView,
    email: Seq<char>,
    password: Seq<char>,
) -> Result<RequestView, ClientErrorView> {
    request_with(
        client,
        Method::Post,
        "/api/v1/users"@,
        credentials_document(email, password),
        "Failed to send register request"@,
    )
}

/// The request for the list of tasks.
pub open spec fn list_request(client: ApiClientView) -> RequestView {
    request(client, Method::Get, "/api/v1/todos"@, None)
}

/// The request for the task with the identifier `id`.
pub open spec fn get_request(client: ApiClientView, id: int) -> RequestView {
    request(client, Method::Get, todo_path(id), None)
}

/// The request that creates a task with the given title.
pub open spec fn create_request(client: ApiClientView, title: Seq<char>) -> Result<
    RequestView,
    ClientErrorView,
> {
    request_with(
        client,
        Method::Post,
        "/api/v1/todos"@,
        create_document(title),
        "Failed to create todo"@,
    )
}

/// The request that changes the task with the identifier `id`: its body
/// carries the fields that are given and no others.
pub open spec fn update_request(
    client: ApiClientView,
    id: int,
    title: Option<Seq<char>>,
    completed: Option<bool>,
) -> Result<RequestView, ClientErrorView> {
    request_with(
        client,
        Method::Put,
        todo_path(id),
        update_document(title, completed),
        "Failed to update todo"@,
    )
}

/// The request that deletes the task with the identifier `id`.
pub open spec fn delete_request(client: ApiClientView, id: int) -> RequestView {
    request(client, Method::Delete, todo_path(id), None)
}

/// What came of sending a request, with the body of the answer read as a
/// document.
#[derive(Debug, PartialEq, Eq)]
pub enum Reply {
    /// No answer came.
    Failed { cause: String },
    /// The server answered. `doc` is `None` where the body could not be read
    /// as JSON.
    Answered { status: u16, doc: Option<Json> },
}

/// What a `Reply` holds, as mathematical values.
pub enum ReplyView {
    Failed { cause: Seq<char> },
    Answered { status: int, doc: Option<JsonView> },
}

impl View for Reply {
    type V = ReplyView;

    open spec fn view(&self) -> ReplyView {
        match self {
            Reply::Failed { cause } => ReplyView::Failed { cause: cause@ },
            Reply::Answered { status, doc } => ReplyView::Answered {
                status: *status as int,
                doc: match doc {
                    Some(d) => Some(d@),
                    None => None,
                },
            },
        }
    }
}

/// The reply that an exchange is: the body of an answer is read as JSON.
pub open spec fn reply_of(exchange: ExchangeView) -> ReplyView {
    match exchange {
        ExchangeView::Failed { cause } => ReplyView::Failed { cause },
        ExchangeView::Answered { status, body } => ReplyView::Answered {
            status,
            doc: match body {
                Some(bytes) => parsed(bytes),
                None => None,
            },
        },
    }
}

/// A status from 200 to 299.
pub open spec fn is_success(status: int) -> bool {
    200 <= status < 300
}

/// The message of an answer that reports an error: the text under `error`,
/// or a fixed text where the body is no object with such a member.
pub open spec fn server_message(doc: Option<JsonView>) -> Seq<char> {
    match doc {
        Some(d) => match d.text_at("error"@) {
            Some(message) => message,
            None => "Unknown error"@,
        },
        None => "Unknown error"@,
    }
}

/// The document of a successful answer. A request that was not answered is a
/// transport failure with its cause; an answer with another status is a
/// failure whose message is `prefix` and then the server's message.
pub open spec fn accepted(reply: ReplyView, context: Seq<char>, prefix: Seq<char>) -> Result<
    Option<JsonView>,
    ClientErrorView,
> {
    match reply {
        ReplyView::Failed { cause } => Err(failure_from(ErrorKind::Transport, context, cause)),
        ReplyView::Answered { status, doc } => if is_success(status) {
            Ok(doc)
        } else {
            Err(failure(ErrorKind::Api, prefix + server_message(doc)))
        },
    }
}

/// The credential in the answer to a login or a registration; a parse
/// failure where a successful answer holds none.
pub open spec fn auth_outcome(
    reply: ReplyView,
    context: Seq<char>,
    prefix: Seq<char>,
    parse_context: Seq<char>,
) -> Result<AuthResponseView, ClientErrorView> {
    match accepted(reply, context, prefix) {
        Ok(Some(doc)) => match auth_read(doc) {
            Some(auth) => Ok(auth),
            None => Err(failure(ErrorKind::Parse, parse_context)),
        },
        Ok(None) => Err(failure(ErrorKind::Parse, parse_context)),
        Err(error) => Err(error),
    }
}

/// The task in the answer to a request for one; a parse failure where a
/// successful answer holds none.
pub open spec fn todo_outcome(
    reply: ReplyView,
    context: Seq<char>,
    prefix: Seq<char>,
    parse_context: Seq<char>,
) -> Result<TodoView, ClientErrorView> {
    match accepted(reply, context, prefix) {
        Ok(Some(doc)) => match todo_read(doc) {
            Some(todo) => Ok(todo),
            None => Err(failure(ErrorKind::Parse, parse_context)),
        },
        Ok(None) => Err(failure(ErrorKind::Parse, parse_context)),
        Err(error) => Err(error),
    }
}

/// What a login comes to.
pub open spec fn login_outcome(reply: ReplyView) -> Result<AuthResponseView, ClientErrorView> {
    auth_outcome(
        reply,
        "Failed to send login request"@,
        "Login failed: "@,
        "Failed to parse login response"@,
    )
}

/// What a registration comes to.
pub open spec fn register_outcome(reply: ReplyView) -> Result<AuthResponseView, ClientErrorView> {
    auth_outcome(
        reply,
        "Failed to send register request"@,
        "Registration failed: "@,
        "Failed to parse register response"@,
    )
}

/// What a request for the list of tasks comes to: the tasks, in the order in
/// which the server gives them.
pub open spec fn list_outcome(reply: ReplyView) -> Result<Seq<TodoView>, ClientErrorView> {
    match accepted(reply, "Failed to fetch todos"@, "Failed to list todos: "@) {
        Ok(Some(doc)) => match list_read(doc) {
            Some(list) => Ok(list.todos),
            None => Err(failure(ErrorKind::Parse, "Failed to parse todos"@)),
        },
        Ok(None) => Err(failure(ErrorKind::Parse, "Failed to parse todos"@)),
        Err(error) => Err(error),
    }
}

/// What a request for one task comes to.
pub open spec fn get_outcome(reply: ReplyView) -> Result<TodoView, ClientErrorView> {
    todo_outcome(reply, "Failed to fetch todo"@, "Failed to get todo: "@, "Failed to parse todo"@)
}

/// What the creation of a task comes to.
pub open spec fn create_outcome(reply: ReplyView) -> Result<TodoView, ClientErrorView> {
    todo_outcome(
        reply,
        "Failed to create todo"@,
        "Failed to create todo: "@,
        "Failed to parse created todo"@,
    )
}

/// What the update of a task comes to.
pub open spec fn update_outcome(reply: ReplyView) -> Result<TodoView, ClientErrorView> {
    todo_outcome(
        reply,
        "Failed to update todo"@,
        "Failed to update todo: "@,
        "Failed to parse updated todo"@,
    )
}

/// What the deletion of a task comes to. The body of a successful answer
/// does not count.
pub open spec fn delete_outcome(reply: ReplyView) -> Result<(), ClientErrorView> {
    match accepted(reply, "Failed to delete todo"@, "Failed to delete todo: "@) {
        Ok(_) => Ok(()),
        Err(error) => Err(error),
    }
}

/// An answer with a status outside 200 to 299 whose body cannot be read as
/// JSON is a failure whose message ends in the words "Unknown error",
/// whatever the operation.
pub proof fn lemma_unreadable_error_is_unknown(status: int, body: Option<Seq<u8>>)
    requires
        !is_success(status),
        body is None || parsed(body->0) is None,
    ensures
        reply_of(ExchangeView::Answered { status, body }) == (ReplyView::Answered {
            status,
            doc: None,
        }),
        login_outcome(reply_of(ExchangeView::Answered { status, body })) == Err::<
            AuthResponseView,
            ClientErrorView,
        >(failure(ErrorKind::Api, "Login failed: "@ + "Unknown error"@)),
        register_outcome(reply_of(ExchangeView::Answered { status, body })) == Err::<
            AuthResponseView,
            ClientErrorView,
        >(failure(ErrorKind::Api, "Registration failed: "@ + "Unknown error"@)),
        list_outcome(reply_of(ExchangeView::Answered { status, body })) == Err::<
            Seq<TodoView>,
            ClientErrorView,
        >(failure(ErrorKind::Api, "Failed to list todos: "@ + "Unknown error"@)),
        get_outcome(reply_of(ExchangeView::Answered { status, body })) == Err::<
            TodoView,
            ClientErrorView,
        >(failure(ErrorKind::Api, "Failed to get todo: "@ + "Unknown error"@)),
        create_outcome(reply_of(ExchangeView::Answered { status, body })) == Err::<
            TodoView,
            ClientErrorView,
        >(failure(ErrorKind::Api, "Failed to create todo: "@ + "Unknown error"@)),
        update_outcome(reply_of(ExchangeView::Answered { status, body })) == Err::<
            TodoView,
            ClientErrorView,
        >(failure(ErrorKind::Api, "Failed to update todo: "@ + "Unknown error"@)),
        delete_outcome(reply_of(ExchangeView::Answered { status, body })) == Err::<
            (),
            ClientErrorView,
        >(failure(ErrorKind::Api, "Failed to delete todo: "@ + "Unknown error"@)),
{
}

impl Exchange {
    /// Reads the body of an answer as JSON.
    pub fn read(self) -> (r: Reply)
        ensures
            r@ == reply_of(self@),
    {
        match self {
            Exchange::Failed { cause } => Reply::Failed { cause },
            Exchange::Answered { status, body } => Reply::Answered {
                status,
                doc: match body {
                    Some(bytes) => parse(bytes.as_slice()),
                    None => None,
                },
            },
        }
    }
}

/// The message of an answer that reports an error.
pub fn error_message(doc: &Option<Json>) -> (r: String)
    ensures
        r@ == server_message(
            match doc {
                Some(d) => Some(d@),
                None => None,
            },
        ),
{
    let found = match doc {
        Some(d) => d.text_at("error"),
        None => None,
    };
    match found {
        Some(message) => message,
        None => String::from_str("Unknown error"),
    }
}

/// The document of a successful answer, or the failure that the reply is.
fn accept(reply: Reply, context: &str, prefix: &str) -> (r: Result<Option<Json>, ClientError>)
    ensures
        match r {
            Ok(Some(doc)) => accepted(reply@, context@, prefix@) == Ok::<
                Option<JsonView>,
                ClientErrorView,
            >(Some(doc@)),
            Ok(None) => accepted(reply@, context@, prefix@) == Ok::<
                Option<JsonView>,
                ClientErrorView,
            >(None),
            Err(error) => accepted(reply@, context@, prefix@) == Err::<
                Option<JsonView>,
                ClientErrorView,
            >(error@),
        },
{
    match reply {
        Reply::Failed { cause } => Err(ClientError::caused(ErrorKind::Transport, context, cause)),
        Reply::Answered { status, doc } => {
            if 200 <= status && status < 300 {
                Ok(doc)
            } else {
                let message = error_message(&doc);
                let text = join(prefix, message.as_str());
                Err(ClientError::new(ErrorKind::Api, text.as_str()))
            }
        },
    }
}

/// The credential in the answer to a login or a registration.
fn accept_auth(reply: Reply, context: &str, prefix: &str, parse_context: &str) -> (r: Result<
    AuthResponse,
    ClientError,
>)
    ensures
        result_view(r) == auth_outcome(reply@, context@, prefix@, parse_context@),
{
    match accept(reply, context, prefix) {
        Ok(Some(doc)) => match AuthResponse::from_json(&doc) {
            Some(auth) => Ok(auth),
            None => Err(ClientError::new(ErrorKind::Parse, parse_context)),
        },
        Ok(None) => Err(ClientError::new(ErrorKind::Parse, parse_context)),
        Err(error) => Err(error),
    }
}

/// The task in the answer to a request for one.
fn accept_todo(reply: Reply, context: &str, prefix: &str, parse_context: &str) -> (r: Result<
    Todo,
    ClientError,
>)
    ensures
        result_view(r) == todo_outcome(reply@, context@, prefix@, parse_context@),
{
    match accept(reply, context, prefix) {
        Ok(Some(doc)) => match Todo::from_json(&doc) {
            Some(todo) => Ok(todo),
            None => Err(ClientError::new(ErrorKind::Parse, parse_context)),
        },
        Ok(None) => Err(ClientError::new(ErrorKind::Parse, parse_context)),
        Err(error) => Err(error),
    }
}

impl ApiClient {
    /// A client of the server at `base_url`, which is kept without the
    /// slashes at its end.
    pub fn new(base_url: &str, token: Option<String>) -> (r: ApiClient)
        ensures
            r@.base_url == without_trailing(base_url@, '/'),
            r@.token == token.deep_view(),
    {
        ApiClient { base_url: strip_trailing(base_url, '/'), token }
    }

    /// A client of the same server with the credential `token`.
    pub fn with_token(&self, token: String) -> (r: ApiClient)
        ensures
            r@.base_url == self@.base_url,
            r@.token == Some(token@),
    {
        ApiClient { base_url: self.base_url.clone(), token: Some(token) }
    }

    /// The value of the header that carries the credential, if there is one.
    pub fn auth_header(&self) -> (r: Option<String>)
        ensures
            r.deep_view() == authorization(self@.token),
    {
        match &self.token {
            Some(token) => Some(join("Bearer ", token.as_str())),
            None => None,
        }
    }

    /// The request with the given method, path and body.
    pub fn request(&self, method: Method, path: &str, body: Option<String>) -> (r: Request)
        ensures
            r@ == request(self@, method, path@, body.deep_view()),
    {
        let mut fields: Vec<(String, String)> = Vec::new();
        if body.is_some() {
            fields.push((String::from_str("Content-Type"), String::from_str("application/json")));
        }
        match self.auth_header() {
            Some(value) => {
                fields.push((String::from_str("Authorization"), value));
            },
            None => {},
        }
        let url = join(self.base_url.as_str(), path);
        assert(fields.deep_view() =~= headers(self@.token, body is Some));
        Request { method, url, headers: fields, body, timeout_seconds: TIMEOUT_SECONDS }
    }

    /// The request with the body `body`; a transport failure where `body` is
    /// `None`, which stands for a body that could not be written.
    pub fn request_carrying(
        &self,
        method: Method,
        path: &str,
        body: Option<String>,
        context: &str,
    ) -> (r: Result<Request, ClientError>)
        ensures
            result_view(r) == (match body {
                Some(text) => Ok::<RequestView, ClientErrorView>(
                    request(self@, method, path@, Some(text@)),
                ),
                None => Err::<RequestView, ClientErrorView>(
                    failure(ErrorKind::Transport, context@),
                ),
            }),
    {
        match body {
            Some(text) => Ok(self.request(method, path, Some(text))),
            None => Err(ClientError::new(ErrorKind::Transport, context)),
        }
    }

    /// The request whose body is the text of `doc`.
    fn request_with(&self, method: Method, path: &str, doc: &Json, context: &str) -> (r: Result<
        Request,
        ClientError,
    >)
        requires
            doc@.well_formed(),
        ensures
            result_view(r) == request_with(self@, method, path@, doc@, context@),
    {
        self.request_carrying(method, path, compact(doc), context)
    }

    /// The request that logs in: the address and the password go to
    /// `/api/v1/auth/login`.
    pub fn login(&self, email: &str, password: &str) -> (r: Result<Request, ClientError>)
        ensures
            result_view(r) == login_request(self@, email@, password@),
    {
        let body = LoginRequest {
            email: String::from_str(email),
            password: String::from_str(password),
        };
        let doc = body.to_json();
        self.request_with(Method::Post, "/api/v1/auth/login", &doc, "Failed to send login request")
    }

    /// What a login comes to, given the reply to its request.
    pub fn login_result(reply: Reply) -> (r: Result<AuthResponse, ClientError>)
        ensures
            result_view(r) == login_outcome(reply@),
    {
        accept_auth(
            reply,
            "Failed to send login request",
            "Login failed: ",
            "Failed to parse login response",
        )
    }

    /// The request that registers: the address and the password go to
    /// `/api/v1/users`.
    pub fn register(&self, email: &str, password: &str) -> (r: Result<Request, ClientError>)
        ensures
            result_view(r) == register_request(self@, email@, password@),
    {
        let body = RegisterRequest {
            email: String::from_str(email),
            password: String::from_str(password),
        };
        let doc = body.to_json();
        self.request_with(Method::Post, "/api/v1/users", &doc, "Failed to send register request")
    }

    /// What a registration comes to, given the reply to its request.
    pub fn register_result(reply: Reply) -> (r: Result<AuthResponse, ClientError>)
        ensures
            result_view(r) == register_outcome(reply@),
    {
        accept_auth(
            reply,
            "Failed to send register request",
            "Registration failed: ",
            "Failed to parse register response",
        )
    }

    /// The request for the list of tasks. The filter is accepted and not
    /// sent: the server always answers with every task.
    pub fn list_todos(&self, _completed: Option<bool>) -> (r: Request)
        ensures
            r@ == list_request(self@),
    {
        self.request(Method::Get, "/api/v1/todos", None)
    }

    /// What a request for the list comes to, given the reply to it.
    pub fn list_todos_result(reply: Reply) -> (r: Result<Vec<Todo>, ClientError>)
        ensures
            match r {
                Ok(todos) => list_outcome(reply@) == Ok::<Seq<TodoView>, ClientErrorView>(
                    todos.deep_view(),
                ),
                Err(error) => list_outcome(reply@) == Err::<Seq<TodoView>, ClientErrorView>(
                    error@,
                ),
            },
    {
        match accept(reply, "Failed to fetch todos", "Failed to list todos: ") {
            Ok(Some(doc)) => match TodoListResponse::from_json(&doc) {
                Some(list) => Ok(list.todos),
                None => Err(ClientError::new(ErrorKind::Parse, "Failed to parse todos")),
            },
            Ok(None) => Err(ClientError::new(ErrorKind::Parse, "Failed to parse todos")),
            Err(error) => Err(error),
        }
    }

    /// The request for the task with the identifier `id`.
    pub fn get_todo(&self, id: i64) -> (r: Request)
        ensures
            r@ == get_request(self@, id as int),
    {
        let path = join("/api/v1/todos/", format_i64(id).as_str());
        self.request(Method::Get, path.as_str(), None)
    }

    /// What a request for one task comes to, given the reply to it.
    pub fn get_todo_result(reply: Reply) -> (r: Result<Todo, ClientError>)
        ensures
            result_view(r) == get_outcome(reply@),
    {
        accept_todo(reply, "Failed to fetch todo", "Failed to get todo: ", "Failed to parse todo")
    }

    /// The request that creates a task with the title `title`.
    pub fn create_todo(&self, title: &str) -> (r: Result<Request, ClientError>)
        ensures
            result_view(r) == create_request(self@, title@),
    {
        let doc = create_to_json(title);
        self.request_with(Method::Post, "/api/v1/todos", &doc, "Failed to create todo")
    }

    /// What the creation of a task comes to, given the reply to its request.
    pub fn create_todo_result(reply: Reply) -> (r: Result<Todo, ClientError>)
        ensures
            result_view(r) == create_outcome(reply@),
    {
        accept_todo(
            reply,
            "Failed to create todo",
            "Failed to create todo: ",
            "Failed to parse created todo",
        )
    }

    /// The request that changes the task with the identifier `id`. Its body
    /// carries the fields that are given and no others.
    pub fn update_todo(&self, id: i64, title: Option<&str>, completed: Option<bool>) -> (r: Result<
        Request,
        ClientError,
    >)
        ensures
            result_view(r) == update_request(self@, id as int, title.deep_view(), completed),
    {
        let doc = update_to_json(title, completed);
        let path = join("/api/v1/todos/", format_i64(id).as_str());
        self.request_with(Method::Put, path.as_str(), &doc, "Failed to update todo")
    }

    /// What the update of a task comes to, given the reply to its request.
    pub fn update_todo_result(reply: Reply) -> (r: Result<Todo, ClientError>)
        ensures
            result_view(r) == update_outcome(reply@),
    {
        accept_todo(
            reply,
            "Failed to update todo",
            "Failed to update todo: ",
            "Failed to parse updated todo",
        )
    }

    /// The request that deletes the task with the identifier `id`.
    pub fn delete_todo(&self, id: i64) -> (r: Request)
        ensures
            r@ == delete_request(self@, id as int),
    {
        let path = join("/api/v1/todos/", format_i64(id).as_str());
        self.request(Method::Delete, path.as_str(), None)
    }

    /// What the deletion of a task comes to, given the reply to its request.
    pub fn delete_todo_result(reply: Reply) -> (r: Result<(), ClientError>)
        ensures
            match r {
                Ok(_) => delete_outcome(reply@) == Ok::<(), ClientErrorView>(()),
                Err(error) => delete_outcome(reply@) == Err::<(), ClientErrorView>(error@),
            },
    {
        match accept(reply, "Failed to delete todo", "Failed to delete todo: ") {
            Ok(_) => Ok(()),
            Err(error) => Err(error),
        }
    }
}

} // verus!
