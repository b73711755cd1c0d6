//! One run of the client, step by step.
//!
//! A run begins with `start`. Each step says what to show and what to do
//! next: read the settings, ask the secret store, read a line, send a
//! request or write a file. The program does it and hands what came of it to the
//! state that the step carries, which gives the next step, until one ends
//! the run. At most one request is sent in a run.

use crate::api::{
    create_outcome, create_request, delete_outcome, delete_request, get_outcome, get_request,
    list_outcome, list_request, login_outcome, login_request, register_outcome,
    register_request, update_outcome, update_request, ApiClient, ApiClientView, Reply, ReplyView,
    Request, RequestView, Todo, TodoView,
};
use crate::auth::{
    keep_token, login_banner, login_result, login_stored, login_success, logout, logout_result,
    logout_success, register_banner, register_result, register_stored, register_success, status,
    status_lines, stored,
};
use crate::config::{
    debug_text, loaded, save_outcome, save_plan, settings_lines, store_request, Config,
    ConfigView, FileWrite, FileWriteView, SettingsFile, SettingsFileView, StoreActionView,
    StoreReply, StoreReplyView, StoreRequest, StoreRequestView, WriteOutcome, WriteOutcomeView,
};
use crate::error::{failure, failure_from, result_view, ClientError, ClientErrorView, ErrorKind};
use crate::output::{
    lines_view, plain, print_todo, print_todos, todo_output, todos_output, Line, SpanView,
};
use crate::text::{decimal, format_i64, join, trim, trimmed, without_trailing};
use vstd::prelude::*;
use vstd::string::*;

verus! {

/// What the user asks for.
#[derive(Debug, PartialEq, Eq)]
#[allow(inconsistent_fields)]
pub enum Command {
    /// Log in; the password is asked for where it is not given.
    Login { email: String, password: Option<String> },
    /// Register; the password is asked for where it is not given.
    Register { email: String, password: Option<String> },
    Logout,
    Status,
    List { completed: Option<bool> },
    Get { id: i64 },
    Create { title: String },
    Update { id: i64, title: Option<String>, completed: Option<bool> },
    /// Delete a task; with `force`, without asking.
    Delete { id: i64, force: bool },
    Done { id: i64 },
    Undone { id: i64 },
    ShowConfig,
    SetUrl { url: String },
}

/// What a `Command` holds, as mathematical values.
#[allow(inconsistent_fields)]
pub enum CommandView {
    Login { email: Seq<char>, password: Option<Seq<char>> },
    Register { email: Seq<char>, password: Option<Seq<char>> },
    Logout,
    Status,
    List { completed: Option<bool> },
    Get { id: int },
    Create { title: Seq<char> },
    Update { id: int, title: Option<Seq<char>>, completed: Option<bool> },
    Delete { id: int, force: bool },
    Done { id: int },
    Undone { id: int },
    ShowConfig,
    SetUrl { url: Seq<char> },
}

impl View for Command {
    type V = CommandView;

    open spec fn view(&self) -> CommandView {
        match self {
            Command::Login { email, password } => CommandView::Login {
                email: email@,
                password: password.deep_view(),
            },
            Command::Register { email, password } => CommandView::Register {
                email: email@,
                password: password.deep_view(),
            },
            Command::Logout => CommandView::Logout,
            Command::Status => CommandView::Status,
            Command::List { completed } => CommandView::List { completed: *completed },
            Command::Get { id } => CommandView::Get { id: *id as int },
            Command::Create { title } => CommandView::Create { title: title@ },
            Command::Update { id, title, completed } => CommandView::Update {
                id: *id as int,
                title: title.deep_view(),
                completed: *completed,
            },
            Command::Delete { id, force } => CommandView::Delete { id: *id as int, force: *force },
            Command::Done { id } => CommandView::Done { id: *id as int },
            Command::Undone { id } => CommandView::Undone { id: *id as int },
            Command::ShowConfig => CommandView::ShowConfig,
            Command::SetUrl { url } => CommandView::SetUrl { url: url@ },
        }
    }
}

/// How the program was called: the address of the server, the format of the
/// output and the command.
#[derive(Debug, PartialEq, Eq)]
pub struct Invocation {
    pub url: String,
    pub format: String,
    pub command: Command,
}

/// What an `Invocation` holds, as mathematical values.
pub struct InvocationView {
    pub url: Seq<char>,
    pub format: Seq<char>,
    pub command: CommandView,
}

impl View for Invocation {
    type V = InvocationView;

    open spec fn view(&self) -> InvocationView {
        InvocationView { url: self.url@, format: self.format@, command: self.command@ }
    }
}

/// What a run works with once the settings are loaded.
#[derive(Debug, PartialEq, Eq)]
pub struct Session {
    pub client: ApiClient,
    pub config: Config,
    pub format: String,
}

/// What a `Session` holds, as mathematical values.
pub struct SessionView {
    pub client: ApiClientView,
    pub config: ConfigView,
    pub format: Seq<char>,
}

impl View for Session {
    type V = SessionView;

    open spec fn view(&self) -> SessionView {
        SessionView { client: self.client@, config: self.config@, format: self.format@ }
    }
}

/// A run that waits for the settings file.
#[derive(Debug, PartialEq, Eq)]
pub struct Loading {
    pub invocation: Invocation,
    pub path: String,
}

/// What a `Loading` holds, as mathematical values.
pub struct LoadingView {
    pub invocation: InvocationView,
    pub path: Seq<char>,
}

impl View for Loading {
    type V = LoadingView;

    open spec fn view(&self) -> LoadingView {
        LoadingView { invocation: self.invocation@, path: self.path@ }
    }
}

/// A run that waits for the secret store.
#[derive(Debug, PartialEq, Eq)]
pub enum AwaitingStore {
    /// For the credential, at the start.
    Load { invocation: Invocation, path: String, file: SettingsFile },
    /// For the credential of a login or a registration to be stored.
    Keep { register: bool },
    /// For the credential to be removed.
    Clear,
}

/// What an `AwaitingStore` holds, as mathematical values.
pub enum AwaitingStoreView {
    Load { invocation: InvocationView, path: Seq<char>, file: SettingsFileView },
    Keep { register: bool },
    Clear,
}

impl View for AwaitingStore {
    type V = AwaitingStoreView;

    open spec fn view(&self) -> AwaitingStoreView {
        match self {
            AwaitingStore::Load { invocation, path, file } => AwaitingStoreView::Load {
                invocation: invocation@,
                path: path@,
                file: file@,
            },
            AwaitingStore::Keep { register } => AwaitingStoreView::Keep { register: *register },
            AwaitingStore::Clear => AwaitingStoreView::Clear,
        }
    }
}

/// A run that waits for a line from the user.
#[derive(Debug, PartialEq, Eq)]
pub enum AwaitingLine {
    /// For the password of a login or a registration.
    Password { session: Session, register: bool, email: String },
    /// For the word on whether to delete a task.
    Confirmation { session: Session, id: i64 },
}

/// What an `AwaitingLine` holds, as mathematical values.
pub enum AwaitingLineView {
    Password { session: SessionView, register: bool, email: Seq<char> },
    Confirmation { session: SessionView, id: int },
}

impl View for AwaitingLine {
    type V = AwaitingLineView;

    open spec fn view(&self) -> AwaitingLineView {
        match self {
            AwaitingLine::Password { session, register, email } => AwaitingLineView::Password {
                session: session@,
                register: *register,
                email: email@,
            },
            AwaitingLine::Confirmation { session, id } => AwaitingLineView::Confirmation {
                session: session@,
                id: *id as int,
            },
        }
    }
}

/// The request whose answer a run waits for.
#[derive(Clone, Copy, Debug, PartialEq, Eq)]
pub enum Expect {
    Login,
    Register,
    List,
    Get,
    Create,
    Update,
    Done,
    Undone,
    Delete { id: i64 },
}

/// What an `Expect` holds, as mathematical values.
pub enum ExpectView {
    Login,
    Register,
    List,
    Get,
    Create,
    Update,
    Done,
    Undone,
    Delete { id: int },
}

impl View for Expect {
    type V = ExpectView;

    open spec fn view(&self) -> ExpectView {
        match self {
            Expect::Login => ExpectView::Login,
            Expect::Register => ExpectView::Register,
            Expect::List => ExpectView::List,
            Expect::Get => ExpectView::Get,
            Expect::Create => ExpectView::Create,
            Expect::Update => ExpectView::Update,
            Expect::Done => ExpectView::Done,
            Expect::Undone => ExpectView::Undone,
            Expect::Delete { id } => ExpectView::Delete { id: *id as int },
        }
    }
}

/// A run that waits for the answer to a request.
#[derive(Debug, PartialEq, Eq)]
pub struct AwaitingReply {
    pub format: String,
    pub expect: Expect,
}

/// What an `AwaitingReply` holds, as mathematical values.
pub struct AwaitingReplyView {
    pub format: Seq<char>,
    pub expect: ExpectView,
}

impl View for AwaitingReply {
    type V = AwaitingReplyView;

    open spec fn view(&self) -> AwaitingReplyView {
        AwaitingReplyView { format: self.format@, expect: self.expect@ }
    }
}

/// A run that waits for the settings file to be written.
#[derive(Debug, PartialEq, Eq)]
pub struct AwaitingWrite {
    pub url: String,
}

/// What an `AwaitingWrite` holds, as mathematical values.
pub struct AwaitingWriteView {
    pub url: Seq<char>,
}

impl View for AwaitingWrite {
    type V = AwaitingWriteView;

    open spec fn view(&self) -> AwaitingWriteView {
        AwaitingWriteView { url: self.url@ }
    }
}

/// What the program does next.
#[derive(Debug, PartialEq, Eq)]
#[allow(inconsistent_fields)]
pub enum Next {
    /// End the run: with success, or by reporting the failure.
    Finish { result: Result<(), ClientError> },
    /// Read the settings file at `path`, if there is one.
    ReadSettings { path: String, then: Loading },
    /// Ask the secret store.
    Store { request: StoreRequest, then: AwaitingStore },
    /// Show `prompt`, if there is one, without ending the line, and read a
    /// line from the user.
    ReadLine { prompt: Option<String>, then: AwaitingLine },
    /// Send the request.
    Send { request: Request, then: AwaitingReply },
    /// Write the file.
    Write { write: FileWrite, then: AwaitingWrite },
}

/// What a `Next` holds, as mathematical values.
#[allow(inconsistent_fields)]
pub enum NextView {
    Finish { result: Result<(), ClientErrorView> },
    ReadSettings { path: Seq<char>, then: LoadingView },
    Store { request: StoreRequestView, then: AwaitingStoreView },
    ReadLine { prompt: Option<Seq<char>>, then: AwaitingLineView },
    Send { request: RequestView, then: AwaitingReplyView },
    Write { write: FileWriteView, then: AwaitingWriteView },
}

impl View for Next {
    type V = NextView;

    open spec fn view(&self) -> NextView {
        match self {
            Next::Finish { result } => NextView::Finish {
                result: match result {
                    Ok(_) => Ok(()),
                    Err(error) => Err(error@),
                },
            },
            Next::ReadSettings { path, then } => NextView::ReadSettings {
                path: path@,
                then: then@,
            },
            Next::Store { request, then } => NextView::Store { request: request@, then: then@ },
            Next::ReadLine { prompt, then } => NextView::ReadLine {
                prompt: prompt.deep_view(),
                then: then@,
            },
            Next::Send { request, then } => NextView::Send { request: request@, then: then@ },
            Next::Write { write, then } => NextView::Write { write: write@, then: then@ },
        }
    }
}

/// One step of a run: the lines to show, then what to do.
#[derive(Debug, PartialEq, Eq)]
pub struct Step {
    pub output: Vec<Line>,
    pub next: Next,
}

/// What a `Step` holds, as mathematical values.
pub struct StepView {
    pub output: Seq<Seq<SpanView>>,
    pub next: NextView,
}

impl View for Step {
    type V = StepView;

    open spec fn view(&self) -> StepView {
        StepView { output: self.output.deep_view(), next: self.next@ }
    }
}

/// The step that shows `output` and ends the run with success.
pub open spec fn finish(output: Seq<Seq<SpanView>>) -> StepView {
    StepView { output, next: NextView::Finish { result: Ok(()) } }
}

/// The step that ends the run with a failure.
pub open spec fn fail(error: ClientErrorView) -> StepView {
    StepView { output: Seq::empty(), next: NextView::Finish { result: Err(error) } }
}

/// The step that shows `output` and sends the request, if there is one, and
/// else shows `output` and ends the run with the failure.
pub open spec fn send(
    output: Seq<Seq<SpanView>>,
    request: Result<RequestView, ClientErrorView>,
    then: AwaitingReplyView,
) -> StepView {
    match request {
        Ok(r) => StepView { output, next: NextView::Send { request: r, then } },
        Err(error) => StepView { output, next: NextView::Finish { result: Err(error) } },
    }
}

/// The step that shows the lines and then `closing`, if there are lines, and
/// else ends the run with the failure.
pub open spec fn show(
    lines: Result<Seq<Seq<SpanView>>, ClientErrorView>,
    closing: Seq<Seq<SpanView>>,
) -> StepView {
    match lines {
        Ok(l) => finish(l + closing),
        Err(error) => fail(error),
    }
}

/// A line without its end: a line feed, and a carriage return before it.
pub open spec fn without_line_end(line: Seq<char>) -> Seq<char> {
    if line.len() > 0 && line.last() == '\n' {
        let rest = line.drop_last();
        if rest.len() > 0 && rest.last() == '\r' {
            rest.drop_last()
        } else {
            rest
        }
    } else {
        line
    }
}

/// The line, without its end, is exactly `y` or `Y`.
pub open spec fn confirms(line: Seq<char>) -> bool {
    without_line_end(line) == seq!['y'] || without_line_end(line) == seq!['Y']
}

/// The step that begins a login or a registration with the given password:
/// it announces it and sends the request.
pub open spec fn authenticate(
    session: SessionView,
    register: bool,
    email: Seq<char>,
    password: Seq<char>,
) -> StepView {
    if register {
        send(
            seq![register_banner(email)],
            register_request(session.client, email, password),
            AwaitingReplyView { format: session.format, expect: ExpectView::Register },
        )
    } else {
        send(
            seq![login_banner(email)],
            login_request(session.client, email, password),
            AwaitingReplyView { format: session.format, expect: ExpectView::Login },
        )
    }
}

/// The step that begins a login or a registration: with the password where
/// it is given, and else by asking for it.
pub open spec fn enter(
    session: SessionView,
    register: bool,
    email: Seq<char>,
    password: Option<Seq<char>>,
) -> StepView {
    match password {
        Some(p) => authenticate(session, register, email, p),
        None => StepView {
            output: Seq::empty(),
            next: NextView::ReadLine {
                prompt: Some("Password: "@),
                then: AwaitingLineView::Password { session, register, email },
            },
        },
    }
}

/// The step that sends the request to delete a task.
pub open spec fn delete(session: SessionView, id: int) -> StepView {
    send(
        Seq::empty(),
        Ok(delete_request(session.client, id)),
        AwaitingReplyView { format: session.format, expect: ExpectView::Delete { id } },
    )
}

/// The question before a task is deleted.
pub open spec fn delete_question(id: int) -> Seq<Seq<SpanView>> {
    seq![seq![plain("Are you sure you want to delete todo #"@ + decimal(id) + "? [y/N]"@)]]
}

/// The line after the address of the server was set.
pub open spec fn url_set(url: Seq<char>) -> Seq<Seq<SpanView>> {
    seq![seq![plain("✅ API URL set to: "@ + url)]]
}

/// The line after a task was deleted.
pub open spec fn deleted(id: int) -> Seq<Seq<SpanView>> {
    seq![seq![plain("✅ Todo #"@ + decimal(id) + " deleted successfully!"@)]]
}

/// The first step of a command.
pub open spec fn dispatch(session: SessionView, command: CommandView) -> StepView {
    let awaiting = |expect: ExpectView| AwaitingReplyView { format: session.format, expect };
    match command {
        CommandView::Login { email, password } => enter(session, false, email, password),
        CommandView::Register { email, password } => enter(session, true, email, password),
        CommandView::Logout => StepView {
            output: Seq::empty(),
            next: NextView::Store {
                request: store_request(StoreActionView::Delete),
                then: AwaitingStoreView::Clear,
            },
        },
        CommandView::Status => finish(status_lines(session.config.token is Some)),
        CommandView::List { completed } => send(
            Seq::empty(),
            Ok(list_request(session.client)),
            awaiting(ExpectView::List),
        ),
        CommandView::Get { id } => send(
            Seq::empty(),
            Ok(get_request(session.client, id)),
            awaiting(ExpectView::Get),
        ),
        CommandView::Create { title } => send(
            Seq::empty(),
            create_request(session.client, title),
            awaiting(ExpectView::Create),
        ),
        CommandView::Update { id, title, completed } => send(
            Seq::empty(),
            update_request(session.client, id, title, completed),
            awaiting(ExpectView::Update),
        ),
        CommandView::Delete { id, force } => if force {
            delete(session, id)
        } else {
            StepView {
                output: delete_question(id),
                next: NextView::ReadLine {
                    prompt: None,
                    then: AwaitingLineView::Confirmation { session, id },
                },
            }
        },
        CommandView::Done { id } => send(
            Seq::empty(),
            update_request(session.client, id, None, Some(true)),
            awaiting(ExpectView::Done),
        ),
        CommandView::Undone { id } => send(
            Seq::empty(),
            update_request(session.client, id, None, Some(false)),
            awaiting(ExpectView::Undone),
        ),
        CommandView::ShowConfig => finish(
            settings_lines(session.config, debug_text(session.config.config_path)),
        ),
        CommandView::SetUrl { url } => match save_plan(
            ConfigView { api_url: Some(url), ..session.config },
        ) {
            Ok(Some(write)) => StepView {
                output: Seq::empty(),
                next: NextView::Write { write, then: AwaitingWriteView { url } },
            },
            Ok(None) => finish(url_set(url)),
            Err(error) => fail(error),
        },
    }
}

/// The first step of a run: to read the settings file, if there is a place
/// for it.
pub open spec fn first_step(invocation: InvocationView, found: Option<Seq<char>>) -> StepView {
    match found {
        Some(path) => StepView {
            output: Seq::empty(),
            next: NextView::ReadSettings { path, then: LoadingView { invocation, path } },
        },
        None => fail(failure(ErrorKind::ConfigIo, "Failed to determine config directory"@)),
    }
}

/// The step after the settings file was read: to ask for the credential,
/// unless the file is there and could not be read.
pub open spec fn after_settings(state: LoadingView, file: SettingsFileView) -> StepView {
    match file {
        SettingsFileView::Unreadable { cause } => fail(
            failure_from(ErrorKind::ConfigIo, "Failed to read config file"@, cause),
        ),
        _ => StepView {
            output: Seq::empty(),
            next: NextView::Store {
                request: store_request(StoreActionView::Get),
                then: AwaitingStoreView::Load {
                    invocation: state.invocation,
                    path: state.path,
                    file,
                },
            },
        },
    }
}

/// The session of a run: the client of the server that was named, with the
/// credential of the settings.
pub open spec fn session_of(invocation: InvocationView, config: ConfigView) -> SessionView {
    SessionView {
        client: ApiClientView {
            base_url: without_trailing(invocation.url, '/'),
            token: config.token,
        },
        config,
        format: invocation.format,
    }
}

/// The step after the secret store answered.
pub open spec fn after_store(state: AwaitingStoreView, reply: StoreReplyView) -> StepView {
    match state {
        AwaitingStoreView::Load { invocation, path, file } => match loaded(
            Some(path),
            file,
            reply,
        ) {
            Ok(config) => dispatch(session_of(invocation, config), invocation.command),
            Err(error) => fail(error),
        },
        AwaitingStoreView::Keep { register } => show(
            stored(
                reply,
                if register {
                    register_success()
                } else {
                    login_success()
                },
            ),
            Seq::empty(),
        ),
        AwaitingStoreView::Clear => finish(logout_success()),
    }
}

/// The step after the user gave a line. A password is taken without the
/// white space around it. A task is deleted only if the line confirms it;
/// any other line ends the run, with success.
pub open spec fn after_line(state: AwaitingLineView, line: Seq<char>) -> StepView {
    match state {
        AwaitingLineView::Password { session, register, email } => authenticate(
            session,
            register,
            email,
            trim(line),
        ),
        AwaitingLineView::Confirmation { session, id } => if confirms(line) {
            delete(session, id)
        } else {
            finish(seq![seq![plain("Cancelled."@)]])
        },
    }
}

/// The step that stores the credential of an answer.
pub open spec fn keep(request: Result<StoreRequestView, ClientErrorView>, register: bool) -> StepView {
    match request {
        Ok(r) => StepView {
            output: Seq::empty(),
            next: NextView::Store { request: r, then: AwaitingStoreView::Keep { register } },
        },
        Err(error) => fail(error),
    }
}

/// The step that shows a task in the given format, and then `closing`.
pub open spec fn show_todo(
    outcome: Result<TodoView, ClientErrorView>,
    format: Seq<char>,
    closing: Seq<char>,
) -> StepView {
    match outcome {
        Ok(todo) => show(todo_output(todo, format), seq![seq![plain(closing)]]),
        Err(error) => fail(error),
    }
}

/// The step after the reply to a request: the last of the run, but for a
/// login or a registration, whose credential is then stored.
pub open spec fn after_reply(state: AwaitingReplyView, reply: ReplyView) -> StepView {
    match state.expect {
        ExpectView::Login => keep(keep_token(login_outcome(reply)), false),
        ExpectView::Register => keep(keep_token(register_outcome(reply)), true),
        ExpectView::List => match list_outcome(reply) {
            Ok(todos) => show(todos_output(todos, state.format), Seq::empty()),
            Err(error) => fail(error),
        },
        ExpectView::Get => match get_outcome(reply) {
            Ok(todo) => show(todo_output(todo, state.format), Seq::empty()),
            Err(error) => fail(error),
        },
        ExpectView::Create => show_todo(
            create_outcome(reply),
            state.format,
            "✅ Todo created successfully!"@,
        ),
        ExpectView::Update => show_todo(
            update_outcome(reply),
            state.format,
            "✅ Todo updated successfully!"@,
        ),
        ExpectView::Done => show_todo(
            update_outcome(reply),
            state.format,
            "✅ Todo marked as completed!"@,
        ),
        ExpectView::Undone => show_todo(
            update_outcome(reply),
            state.format,
            "✅ Todo marked as incomplete!"@,
        ),
        ExpectView::Delete { id } => match delete_outcome(reply) {
            Ok(_) => finish(deleted(id)),
            Err(error) => fail(error),
        },
    }
}

/// The step after the settings file was written.
pub open spec fn after_write(state: AwaitingWriteView, outcome: WriteOutcomeView) -> StepView {
    match save_outcome(outcome) {
        Ok(_) => finish(url_set(state.url)),
        Err(error) => fail(error),
    }
}

/// Without the word to skip the question, a task is deleted only on a line
/// that is exactly `y` or `Y`: the request to delete goes out then, and on
/// any other line, the empty one too, none goes out and the run ends with
/// success.
pub proof fn lemma_delete_asks_first(session: SessionView, id: int, line: Seq<char>)
    ensures
        dispatch(session, CommandView::Delete { id, force: false }).next == (NextView::ReadLine {
            prompt: None,
            then: AwaitingLineView::Confirmation { session, id },
        }),
        line == seq!['y'] || line == seq!['Y'] ==> confirms(line),
        confirms(line) ==> after_line(AwaitingLineView::Confirmation { session, id }, line).next
            == (NextView::Send {
            request: delete_request(session.client, id),
            then: AwaitingReplyView { format: session.format, expect: ExpectView::Delete { id } },
        }),
        !confirms(line) ==> after_line(AwaitingLineView::Confirmation { session, id }, line)
            == finish(seq![seq![plain("Cancelled."@)]]),
        !confirms(Seq::<char>::empty()),
{
}

/// A logout asks the secret store to remove the credential and ends with
/// success whatever the store answers: whether one was stored or not.
pub proof fn lemma_logout_succeeds(session: SessionView, reply: StoreReplyView)
    ensures
        dispatch(session, CommandView::Logout).next == (NextView::Store {
            request: store_request(StoreActionView::Delete),
            then: AwaitingStoreView::Clear,
        }),
        after_store(AwaitingStoreView::Clear, reply) == finish(logout_success()),
        after_store(AwaitingStoreView::Clear, reply).next == (NextView::Finish {
            result: Ok::<(), ClientErrorView>(()),
        }),
{
}

/// A run sends at most one request. The step after the reply to a request
/// ends the run or stores a credential, and the step after that ends the
/// run. A logout, the status and the settings send none.
pub proof fn lemma_at_most_one_request(
    state: AwaitingReplyView,
    reply: ReplyView,
    answer: StoreReplyView,
    session: SessionView,
    url: Seq<char>,
    written: WriteOutcomeView,
)
    ensures
        after_reply(state, reply).next is Finish || after_reply(state, reply).next is Store,
        after_reply(state, reply).next matches NextView::Store { then, .. } ==> after_store(
            then,
            answer,
        ).next is Finish,
        !(dispatch(session, CommandView::Logout).next is Send),
        after_store(AwaitingStoreView::Clear, answer).next is Finish,
        dispatch(session, CommandView::Status).next is Finish,
        dispatch(session, CommandView::ShowConfig).next is Finish,
        dispatch(session, CommandView::SetUrl { url }).next is Finish || dispatch(
            session,
            CommandView::SetUrl { url },
        ).next is Write,
        after_write(AwaitingWriteView { url }, written).next is Finish,
{
}

/// Tells whether the line, without its end, is exactly `y` or `Y`.
pub fn confirmed(line: &str) -> (r: bool)
    ensures
        r == confirms(line@),
{
    let n = line.unicode_len();
    let mut end = n;
    if end > 0 && line.get_char(end - 1) == '\n' {
        end -= 1;
        if end > 0 && line.get_char(end - 1) == '\r' {
            end -= 1;
        }
    }
    if end != 1 {
        assert(seq!['y'].len() == 1 && seq!['Y'].len() == 1);
        return false;
    }
    let c = line.get_char(0);
    proof {
        let kept = without_line_end(line@);
        assert(kept =~= seq![c]);
        assert(seq!['y'][0] == 'y' && seq!['Y'][0] == 'Y');
    }
    c == 'y' || c == 'Y'
}

fn finish_with(output: Vec<Line>) -> (r: Step)
    ensures
        r@ == finish(output.deep_view()),
{
    Step { output, next: Next::Finish { result: Ok(()) } }
}

fn fail_with(error: ClientError) -> (r: Step)
    ensures
        r@ == fail(error@),
{
    let output: Vec<Line> = Vec::new();
    assert(output.deep_view() =~= Seq::<Seq<SpanView>>::empty());
    Step { output, next: Next::Finish { result: Err(error) } }
}

fn no_lines() -> (r: Vec<Line>)
    ensures
        r.deep_view() == Seq::<Seq<SpanView>>::empty(),
{
    let output: Vec<Line> = Vec::new();
    output
}

fn one_line(text: &str) -> (r: Vec<Line>)
    ensures
        r.deep_view() == seq![seq![plain(text@)]],
{
    let mut output: Vec<Line> = Vec::new();
    output.push(Line::plain(text));
    output
}

fn send_step(output: Vec<Line>, request: Result<Request, ClientError>, format: &String, expect: Expect) -> (r:
    Step)
    ensures
        r@ == send(
            output.deep_view(),
            result_view(request),
            AwaitingReplyView { format: format@, expect: expect@ },
        ),
{
    match request {
        Ok(request) => Step {
            output,
            next: Next::Send { request, then: AwaitingReply { format: format.clone(), expect } },
        },
        Err(error) => Step { output, next: Next::Finish { result: Err(error) } },
    }
}

fn show_step(lines: Result<Vec<Line>, ClientError>, closing: Option<&str>) -> (r: Step)
    ensures
        r@ == show(
            lines_view(lines),
            match closing {
                Some(text) => seq![seq![plain(text@)]],
                None => Seq::empty(),
            },
        ),
{
    match lines {
        Ok(mut output) => {
            let ghost before = output.deep_view();
            match closing {
                Some(text) => {
                    output.push(Line::plain(text));
                    assert(output.deep_view() =~= before + seq![seq![plain(text@)]]);
                },
                None => {},
            }
            finish_with(output)
        },
        Err(error) => fail_with(error),
    }
}

fn show_todo_step(outcome: Result<Todo, ClientError>, format: &str, closing: &str) -> (r: Step)
    ensures
        r@ == show_todo(result_view(outcome), format@, closing@),
{
    match outcome {
        Ok(todo) => show_step(print_todo(&todo, format), Some(closing)),
        Err(error) => fail_with(error),
    }
}

fn keep_step(request: Result<StoreRequest, ClientError>, register: bool) -> (r: Step)
    ensures
        r@ == keep(result_view(request), register),
{
    match request {
        Ok(request) => Step {
            output: no_lines(),
            next: Next::Store { request, then: AwaitingStore::Keep { register } },
        },
        Err(error) => fail_with(error),
    }
}

impl Session {
    /// Begins a login or a registration with the given password.
    fn authenticate(self, register: bool, email: &str, password: &str) -> (r: Step)
        ensures
            r@ == authenticate(self@, register, email@, password@),
    {
        if register {
            let (banner, request) = crate::auth::register(&self.client, email, password);
            let mut output: Vec<Line> = Vec::new();
            output.push(banner);
            assert(output.deep_view() =~= seq![register_banner(email@)]);
            send_step(output, request, &self.format, Expect::Register)
        } else {
            let (banner, request) = crate::auth::login(&self.client, email, password);
            let mut output: Vec<Line> = Vec::new();
            output.push(banner);
            assert(output.deep_view() =~= seq![login_banner(email@)]);
            send_step(output, request, &self.format, Expect::Login)
        }
    }

    /// Begins a login or a registration, asking for the password where it
    /// is not given.
    fn enter(self, register: bool, email: String, password: Option<String>) -> (r: Step)
        ensures
            r@ == enter(self@, register, email@, password.deep_view()),
    {
        match password {
            Some(p) => self.authenticate(register, email.as_str(), p.as_str()),
            None => Step {
                output: no_lines(),
                next: Next::ReadLine {
                    prompt: Some(String::from_str("Password: ")),
                    then: AwaitingLine::Password { session: self, register, email },
                },
            },
        }
    }

    /// Sends the request to delete a task.
    fn delete(self, id: i64) -> (r: Step)
        ensures
            r@ == delete(self@, id as int),
    {
        send_step(no_lines(), Ok(self.client.delete_todo(id)), &self.format, Expect::Delete { id })
    }

    /// The first step of a command.
    pub fn dispatch(self, command: Command) -> (r: Step)
        ensures
            r@ == dispatch(self@, command@),
    {
        match command {
            Command::Login { email, password } => self.enter(false, email, password),
            Command::Register { email, password } => self.enter(true, email, password),
            Command::Logout => Step {
                output: no_lines(),
                next: Next::Store { request: logout(), then: AwaitingStore::Clear },
            },
            Command::Status => finish_with(status(&self.config)),
            Command::List { completed } => send_step(
                no_lines(),
                Ok(self.client.list_todos(completed)),
                &self.format,
                Expect::List,
            ),
            Command::Get { id } => send_step(
                no_lines(),
                Ok(self.client.get_todo(id)),
                &self.format,
                Expect::Get,
            ),
            Command::Create { title } => send_step(
                no_lines(),
                self.client.create_todo(title.as_str()),
                &self.format,
                Expect::Create,
            ),
            Command::Update { id, title, completed } => {
                let request = match &title {
                    Some(t) => self.client.update_todo(id, Some(t.as_str()), completed),
                    None => self.client.update_todo(id, None, completed),
                };
                send_step(no_lines(), request, &self.format, Expect::Update)
            },
            Command::Delete { id, force } => {
                if force {
                    self.delete(id)
                } else {
                    let mut question = String::from_str("Are you sure you want to delete todo #");
                    question.append(format_i64(id).as_str());
                    question.append("? [y/N]");
                    Step {
                        output: one_line(question.as_str()),
                        next: Next::ReadLine {
                            prompt: None,
                            then: AwaitingLine::Confirmation { session: self, id },
                        },
                    }
                }
            },
            Command::Done { id } => send_step(
                no_lines(),
                self.client.update_todo(id, None, Some(true)),
                &self.format,
                Expect::Done,
            ),
            Command::Undone { id } => send_step(
                no_lines(),
                self.client.update_todo(id, None, Some(false)),
                &self.format,
                Expect::Undone,
            ),
            Command::ShowConfig => finish_with(self.config.print()),
            Command::SetUrl { url } => {
                let mut config = self.config;
                match config.set_url(url.as_str()) {
                    Ok(Some(write)) => Step {
                        output: no_lines(),
                        next: Next::Write { write, then: AwaitingWrite { url } },
                    },
                    Ok(None) => finish_with(
                        one_line(join("✅ API URL set to: ", url.as_str()).as_str()),
                    ),
                    Err(error) => fail_with(error),
                }
            },
        }
    }
}

/// The first step of a run, given how the program was called and the place
/// that the system names for the settings file.
pub fn start(invocation: Invocation, found: Option<String>) -> (r: Step)
    ensures
        r@ == first_step(invocation@, found.deep_view()),
{
    match Config::config_path(found) {
        Ok(path) => Step {
            output: no_lines(),
            next: Next::ReadSettings { path: path.clone(), then: Loading { invocation, path } },
        },
        Err(error) => fail_with(error),
    }
}

impl Loading {
    /// The step after the settings file was read.
    pub fn resume(self, file: SettingsFile) -> (r: Step)
        ensures
            r@ == after_settings(self@, file@),
    {
        match file {
            SettingsFile::Unreadable { cause } => fail_with(
                ClientError::caused(ErrorKind::ConfigIo, "Failed to read config file", cause),
            ),
            _ => Step {
                output: no_lines(),
                next: Next::Store {
                    request: Config::load_token_from_keyring(),
                    then: AwaitingStore::Load {
                        invocation: self.invocation,
                        path: self.path,
                        file,
                    },
                },
            },
        }
    }
}

impl AwaitingStore {
    /// The step after the secret store answered.
    pub fn resume(self, reply: StoreReply) -> (r: Step)
        ensures
            r@ == after_store(self@, reply@),
    {
        match self {
            AwaitingStore::Load { invocation, path, file } => {
                match Config::load(Some(path), file, reply) {
                    Ok(config) => {
                        let client = ApiClient::new(invocation.url.as_str(), config.get_token());
                        let session = Session { client, config, format: invocation.format };
                        session.dispatch(invocation.command)
                    },
                    Err(error) => fail_with(error),
                }
            },
            AwaitingStore::Keep { register } => {
                if register {
                    show_step(register_stored(reply), None)
                } else {
                    show_step(login_stored(reply), None)
                }
            },
            AwaitingStore::Clear => show_step(logout_result(reply), None),
        }
    }
}

impl AwaitingLine {
    /// The step after the user gave a line.
    pub fn resume(self, line: &str) -> (r: Step)
        ensures
            r@ == after_line(self@, line@),
    {
        match self {
            AwaitingLine::Password { session, register, email } => {
                let password = trimmed(line);
                session.authenticate(register, email.as_str(), password.as_str())
            },
            AwaitingLine::Confirmation { session, id } => {
                if confirmed(line) {
                    session.delete(id)
                } else {
                    finish_with(one_line("Cancelled."))
                }
            },
        }
    }
}

impl AwaitingReply {
    /// The step after the reply to the request.
    pub fn resume(self, reply: Reply) -> (r: Step)
        ensures
            r@ == after_reply(self@, reply@),
    {
        match self.expect {
            Expect::Login => keep_step(login_result(reply), false),
            Expect::Register => keep_step(register_result(reply), true),
            Expect::List => match ApiClient::list_todos_result(reply) {
                Ok(todos) => show_step(print_todos(todos.as_slice(), self.format.as_str()), None),
                Err(error) => fail_with(error),
            },
            Expect::Get => match ApiClient::get_todo_result(reply) {
                Ok(todo) => show_step(print_todo(&todo, self.format.as_str()), None),
                Err(error) => fail_with(error),
            },
            Expect::Create => show_todo_step(
                ApiClient::create_todo_result(reply),
                self.format.as_str(),
                "✅ Todo created successfully!",
            ),
            Expect::Update => show_todo_step(
                ApiClient::update_todo_result(reply),
                self.format.as_str(),
                "✅ Todo updated successfully!",
            ),
            Expect::Done => show_todo_step(
                ApiClient::update_todo_result(reply),
                self.format.as_str(),
                "✅ Todo marked as completed!",
            ),
            Expect::Undone => show_todo_step(
                ApiClient::update_todo_result(reply),
                self.format.as_str(),
                "✅ Todo marked as incomplete!",
            ),
            Expect::Delete { id } => match ApiClient::delete_todo_result(reply) {
                Ok(_) => {
                    let mut text = String::from_str("✅ Todo #");
                    text.append(format_i64(id).as_str());
                    text.append(" deleted successfully!");
                    finish_with(one_line(text.as_str()))
                },
                Err(error) => fail_with(error),
            },
        }
    }
}

impl AwaitingWrite {
    /// The step after the settings file was written.
    pub fn resume(self, outcome: WriteOutcome) -> (r: Step)
        ensures
            r@ == after_write(self@, outcome@),
    {
        match Config::save_result(outcome) {
            Ok(_) => finish_with(
                one_line(join("✅ API URL set to: ", self.url.as_str()).as_str()),
            ),
            Err(error) => fail_with(error),
        }
    }
}

} // verus!
