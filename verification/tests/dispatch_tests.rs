use todo_cli::api::{ApiClient, Exchange, Reply};
use todo_cli::config::{
    Config, FileRead, FileWrite, SettingsFile, StoreAction, StoreReply, StoreRequest, WriteOutcome,
};
use todo_cli::dispatch::{
    confirmed, start, AwaitingLine, AwaitingReply, AwaitingStore, AwaitingWrite, Command, Expect,
    Invocation, Loading, Next, Session, Step,
};
use todo_cli::error::{ClientError, ErrorKind};
use todo_cli::output::{print_todo, print_todos, Line, Span, Style};

const PATH: &str = "/home/u/.config/todo-cli/config.toml";

const TASK: &str = "{\"id\":7,\"user_id\":3,\"title\":\"Buy milk\",\"completed\":false,\"created_at\":\"2024-01-15T10:30:00Z\",\"updated_at\":\"2024-01-16T08:00:00Z\"}";

fn invocation(command: Command) -> Invocation {
    Invocation { url: String::from("http://h:1/"), format: String::from("text"), command }
}

fn store(action: StoreAction) -> StoreRequest {
    StoreRequest { service: String::from("todo-cli"), account: String::from("api_token"), action }
}

fn client(token: Option<&str>) -> ApiClient {
    ApiClient::new("http://h:1", token.map(String::from))
}

fn config(token: Option<&str>) -> Config {
    Config::load(
        Some(String::from(PATH)),
        SettingsFile::Missing,
        StoreReply::Done { secret: token.map(String::from) },
    )
    .unwrap()
}

fn session(token: Option<&str>, format: &str) -> Session {
    Session { client: client(token), config: config(token), format: String::from(format) }
}

fn awaiting(format: &str, expect: Expect) -> AwaitingReply {
    AwaitingReply { format: String::from(format), expect }
}

fn answered(status: u16, body: &str) -> Reply {
    Exchange::Answered { status, body: Some(body.as_bytes().to_vec()) }.read()
}

fn finish(output: Vec<Line>) -> Step {
    Step { output, next: Next::Finish { result: Ok(()) } }
}

fn fail(kind: ErrorKind, message: &str, cause: Option<&str>) -> Step {
    Step {
        output: vec![],
        next: Next::Finish {
            result: Err(ClientError {
                kind,
                message: String::from(message),
                cause: cause.map(String::from),
            }),
        },
    }
}

fn green(text: &str) -> Line {
    Line::single(Span::styled(text, Style::Green))
}

/// Runs the steps before the command: the settings file is missing and the
/// secret store gives `token`.
fn begin(command: Command, token: Option<&str>) -> Step {
    let step = start(invocation(command), Some(String::from(PATH)));
    assert_eq!(step.output, vec![]);
    let loading = match step.next {
        Next::ReadSettings { path, then } => {
            assert_eq!(path, PATH);
            then
        }
        other => panic!("unexpected step: {:?}", other),
    };
    let step = loading.resume(FileRead::Missing.read());
    assert_eq!(step.output, vec![]);
    match step.next {
        Next::Store { request, then } => {
            assert_eq!(request, store(StoreAction::Get));
            then.resume(StoreReply::Done { secret: token.map(String::from) })
        }
        other => panic!("unexpected step: {:?}", other),
    }
}

#[test]
fn a_run_without_a_place_for_the_settings_fails_at_once() {
    assert_eq!(
        start(invocation(Command::Status), None),
        fail(ErrorKind::ConfigIo, "Failed to determine config directory", None)
    );
}

#[test]
fn a_run_begins_by_reading_the_settings() {
    let step = start(invocation(Command::Status), Some(String::from(PATH)));
    assert_eq!(
        step,
        Step {
            output: vec![],
            next: Next::ReadSettings {
                path: String::from(PATH),
                then: Loading { invocation: invocation(Command::Status), path: String::from(PATH) },
            },
        }
    );
}

#[test]
fn a_settings_file_that_cannot_be_read_ends_the_run() {
    let loading = Loading { invocation: invocation(Command::Status), path: String::from(PATH) };
    assert_eq!(
        loading.resume(FileRead::Unreadable { cause: String::from("denied") }.read()),
        fail(ErrorKind::ConfigIo, "Failed to read config file", Some("denied"))
    );
}

#[test]
fn after_the_settings_the_credential_is_asked_for() {
    let loading = Loading { invocation: invocation(Command::Status), path: String::from(PATH) };
    let file = || FileRead::Content { text: String::from("api_url = \"u\"\n") }.read();
    assert_eq!(
        loading.resume(file()),
        Step {
            output: vec![],
            next: Next::Store {
                request: store(StoreAction::Get),
                then: AwaitingStore::Load {
                    invocation: invocation(Command::Status),
                    path: String::from(PATH),
                    file: file(),
                },
            },
        }
    );
}

#[test]
fn the_client_is_made_from_the_address_given_and_the_credential_found() {
    let step = begin(Command::Get { id: 5 }, Some("tok"));
    assert_eq!(
        step,
        Step {
            output: vec![],
            next: Next::Send {
                request: client(Some("tok")).get_todo(5),
                then: awaiting("text", Expect::Get),
            },
        }
    );
    match step.next {
        Next::Send { request, .. } => {
            assert_eq!(request.url, "http://h:1/api/v1/todos/5");
            assert_eq!(
                request.headers,
                vec![(String::from("Authorization"), String::from("Bearer tok"))]
            );
        }
        other => panic!("unexpected step: {:?}", other),
    }
}

#[test]
fn a_store_that_fails_at_the_start_means_no_credential() {
    let state = AwaitingStore::Load {
        invocation: invocation(Command::Status),
        path: String::from(PATH),
        file: SettingsFile::Missing,
    };
    assert_eq!(
        state.resume(StoreReply::Unavailable { cause: String::from("no store") }),
        finish(vec![
            Line::single(Span::styled("❌ Not authenticated", Style::Red)),
            Line::plain("Run 'todo auth login' to authenticate."),
        ])
    );
}

#[test]
fn status_with_a_credential() {
    assert_eq!(
        begin(Command::Status, Some("t")),
        finish(vec![
            green("✅ Authenticated"),
            Line::plain("You are logged in and can access the API."),
        ])
    );
}

#[test]
fn login_with_a_password_sends_at_once() {
    let command =
        Command::Login { email: String::from("a@b.c"), password: Some(String::from(" pw ")) };
    assert_eq!(
        begin(command, None),
        Step {
            output: vec![Line::plain("🔑 Logging in as a@b.c...")],
            next: Next::Send {
                request: client(None).login("a@b.c", " pw ").unwrap(),
                then: awaiting("text", Expect::Login),
            },
        }
    );
}

#[test]
fn login_without_a_password_asks_for_it() {
    let command = Command::Login { email: String::from("a@b.c"), password: None };
    let step = begin(command, None);
    assert_eq!(
        step,
        Step {
            output: vec![],
            next: Next::ReadLine {
                prompt: Some(String::from("Password: ")),
                then: AwaitingLine::Password {
                    session: session(None, "text"),
                    register: false,
                    email: String::from("a@b.c"),
                },
            },
        }
    );
    let then = match step.next {
        Next::ReadLine { then, .. } => then,
        other => panic!("unexpected step: {:?}", other),
    };
    assert_eq!(
        then.resume("  pw \n"),
        Step {
            output: vec![Line::plain("🔑 Logging in as a@b.c...")],
            next: Next::Send {
                request: client(None).login("a@b.c", "pw").unwrap(),
                then: awaiting("text", Expect::Login),
            },
        }
    );
}

#[test]
fn register_without_a_password_asks_for_it() {
    let command = Command::Register { email: String::from("a@b.c"), password: None };
    let then = match begin(command, None).next {
        Next::ReadLine { prompt, then } => {
            assert_eq!(prompt, Some(String::from("Password: ")));
            then
        }
        other => panic!("unexpected step: {:?}", other),
    };
    assert_eq!(
        then.resume("pw\r\n"),
        Step {
            output: vec![Line::plain("📝 Registering a@b.c...")],
            next: Next::Send {
                request: client(None).register("a@b.c", "pw").unwrap(),
                then: awaiting("text", Expect::Register),
            },
        }
    );
}

#[test]
fn a_login_that_is_answered_stores_the_credential() {
    let step = awaiting("text", Expect::Login).resume(answered(200, "{\"token\":\"abc\"}"));
    assert_eq!(
        step,
        Step {
            output: vec![],
            next: Next::Store {
                request: store(StoreAction::Put { secret: String::from("abc") }),
                then: AwaitingStore::Keep { register: false },
            },
        }
    );
    assert_eq!(
        AwaitingStore::Keep { register: false }.resume(StoreReply::Done { secret: None }),
        finish(vec![
            green("✅ Login successful!"),
            Line::plain("Token has been securely stored."),
        ])
    );
}

#[test]
fn a_registration_that_is_answered_stores_the_credential() {
    let step = awaiting("json", Expect::Register).resume(answered(201, "{\"token\":\"abc\"}"));
    assert_eq!(
        step,
        Step {
            output: vec![],
            next: Next::Store {
                request: store(StoreAction::Put { secret: String::from("abc") }),
                then: AwaitingStore::Keep { register: true },
            },
        }
    );
    assert_eq!(
        AwaitingStore::Keep { register: true }.resume(StoreReply::Done { secret: None }),
        finish(vec![green("✅ Registration successful!"), Line::plain("You are now logged in.")])
    );
}

#[test]
fn a_login_that_is_refused_ends_the_run() {
    assert_eq!(
        awaiting("text", Expect::Login).resume(answered(401, "{\"error\":\"no\"}")),
        fail(ErrorKind::Api, "Login failed: no", None)
    );
    assert_eq!(
        awaiting("text", Expect::Register).resume(answered(500, "")),
        fail(ErrorKind::Api, "Registration failed: Unknown error", None)
    );
}

#[test]
fn a_credential_that_cannot_be_stored_ends_the_run() {
    assert_eq!(
        AwaitingStore::Keep { register: false }
            .resume(StoreReply::Failed { cause: String::from("locked") }),
        fail(ErrorKind::StoreAccess, "Failed to save token to keyring", Some("locked"))
    );
    assert_eq!(
        AwaitingStore::Keep { register: true }
            .resume(StoreReply::Unavailable { cause: String::from("none") }),
        fail(ErrorKind::StoreAccess, "Failed to create keyring entry", Some("none"))
    );
}

#[test]
fn logout_succeeds_whether_or_not_a_credential_was_stored() {
    for token in [None, Some("t")] {
        let step = begin(Command::Logout, token);
        assert_eq!(
            step,
            Step {
                output: vec![],
                next: Next::Store {
                    request: store(StoreAction::Delete),
                    then: AwaitingStore::Clear,
                },
            }
        );
    }
    for reply in [
        StoreReply::Done { secret: None },
        StoreReply::Failed { cause: String::from("no entry") },
        StoreReply::Unavailable { cause: String::from("no store") },
    ] {
        assert_eq!(
            AwaitingStore::Clear.resume(reply),
            finish(vec![green("✅ Logged out successfully!")])
        );
    }
}

#[test]
fn list_sends_one_request_and_shows_the_tasks() {
    let step = begin(Command::List { completed: Some(true) }, Some("t"));
    assert_eq!(
        step,
        Step {
            output: vec![],
            next: Next::Send {
                request: client(Some("t")).list_todos(None),
                then: awaiting("text", Expect::List),
            },
        }
    );
    let body = format!("{{\"todos\":[{}],\"total\":1}}", TASK);
    let todos = ApiClient::list_todos_result(answered(200, &body)).unwrap();
    assert_eq!(
        awaiting("text", Expect::List).resume(answered(200, &body)),
        finish(print_todos(&todos, "text").unwrap())
    );
    assert_eq!(
        awaiting("json", Expect::List).resume(answered(200, &body)),
        finish(print_todos(&todos, "json").unwrap())
    );
    assert_eq!(
        awaiting("text", Expect::List).resume(answered(200, "{\"todos\":[],\"total\":0}")),
        finish(vec![Line::single(Span::styled("No todos found.", Style::Dimmed))])
    );
}

#[test]
fn get_shows_the_task() {
    let todo = ApiClient::get_todo_result(answered(200, TASK)).unwrap();
    assert_eq!(
        awaiting("text", Expect::Get).resume(answered(200, TASK)),
        finish(print_todo(&todo, "text").unwrap())
    );
    assert_eq!(
        awaiting("json", Expect::Get).resume(answered(200, TASK)),
        finish(print_todo(&todo, "json").unwrap())
    );
    assert_eq!(
        awaiting("text", Expect::Get).resume(answered(404, "{\"error\":\"gone\"}")),
        fail(ErrorKind::Api, "Failed to get todo: gone", None)
    );
}

#[test]
fn create_update_done_and_undone_send_their_requests() {
    let c = client(None);
    assert_eq!(
        begin(Command::Create { title: String::from("T") }, None),
        Step {
            output: vec![],
            next: Next::Send {
                request: c.create_todo("T").unwrap(),
                then: awaiting("text", Expect::Create),
            },
        }
    );
    assert_eq!(
        begin(
            Command::Update { id: 3, title: Some(String::from("T")), completed: None },
            None
        ),
        Step {
            output: vec![],
            next: Next::Send {
                request: c.update_todo(3, Some("T"), None).unwrap(),
                then: awaiting("text", Expect::Update),
            },
        }
    );
    assert_eq!(
        begin(Command::Update { id: 3, title: None, completed: Some(false) }, None),
        Step {
            output: vec![],
            next: Next::Send {
                request: c.update_todo(3, None, Some(false)).unwrap(),
                then: awaiting("text", Expect::Update),
            },
        }
    );
    assert_eq!(
        begin(Command::Done { id: 3 }, None),
        Step {
            output: vec![],
            next: Next::Send {
                request: c.update_todo(3, None, Some(true)).unwrap(),
                then: awaiting("text", Expect::Done),
            },
        }
    );
    assert_eq!(
        begin(Command::Undone { id: 3 }, None),
        Step {
            output: vec![],
            next: Next::Send {
                request: c.update_todo(3, None, Some(false)).unwrap(),
                then: awaiting("text", Expect::Undone),
            },
        }
    );
}

#[test]
fn done_and_undone_send_only_the_flag() {
    match begin(Command::Done { id: 3 }, None).next {
        Next::Send { request, .. } => {
            assert_eq!(request.body, Some(String::from("{\"completed\":true}")))
        }
        other => panic!("unexpected step: {:?}", other),
    }
    match begin(Command::Undone { id: 3 }, None).next {
        Next::Send { request, .. } => {
            assert_eq!(request.body, Some(String::from("{\"completed\":false}")))
        }
        other => panic!("unexpected step: {:?}", other),
    }
}

#[test]
fn a_changed_task_is_shown_with_a_closing_line() {
    let todo = ApiClient::get_todo_result(answered(200, TASK)).unwrap();
    for (expect, closing) in [
        (Expect::Create, "✅ Todo created successfully!"),
        (Expect::Update, "✅ Todo updated successfully!"),
        (Expect::Done, "✅ Todo marked as completed!"),
        (Expect::Undone, "✅ Todo marked as incomplete!"),
    ] {
        for format in ["text", "json"] {
            let mut output = print_todo(&todo, format).unwrap();
            output.push(Line::plain(closing));
            assert_eq!(awaiting(format, expect).resume(answered(200, TASK)), finish(output));
        }
    }
}

#[test]
fn a_change_that_fails_shows_nothing() {
    assert_eq!(
        awaiting("text", Expect::Create).resume(answered(400, "{\"error\":\"title\"}")),
        fail(ErrorKind::Api, "Failed to create todo: title", None)
    );
    assert_eq!(
        awaiting("text", Expect::Update).resume(answered(200, "{}")),
        fail(ErrorKind::Parse, "Failed to parse updated todo", None)
    );
    assert_eq!(
        awaiting("text", Expect::Done)
            .resume(Exchange::Failed { cause: String::from("timeout") }.read()),
        fail(ErrorKind::Transport, "Failed to update todo", Some("timeout"))
    );
    assert_eq!(
        awaiting("text", Expect::Undone).resume(answered(500, "x")),
        fail(ErrorKind::Api, "Failed to update todo: Unknown error", None)
    );
}

#[test]
fn delete_with_force_sends_at_once() {
    assert_eq!(
        begin(Command::Delete { id: 9, force: true }, Some("t")),
        Step {
            output: vec![],
            next: Next::Send {
                request: client(Some("t")).delete_todo(9),
                then: awaiting("text", Expect::Delete { id: 9 }),
            },
        }
    );
}

#[test]
fn delete_without_force_asks_first() {
    assert_eq!(
        begin(Command::Delete { id: 9, force: false }, Some("t")),
        Step {
            output: vec![Line::plain("Are you sure you want to delete todo #9? [y/N]")],
            next: Next::ReadLine {
                prompt: None,
                then: AwaitingLine::Confirmation { session: session(Some("t"), "text"), id: 9 },
            },
        }
    );
}

#[test]
fn delete_goes_on_after_y() {
    for line in ["y", "Y", "y\n", "Y\n", "y\r\n"] {
        let state = AwaitingLine::Confirmation { session: session(Some("t"), "text"), id: 9 };
        assert_eq!(
            state.resume(line),
            Step {
                output: vec![],
                next: Next::Send {
                    request: client(Some("t")).delete_todo(9),
                    then: awaiting("text", Expect::Delete { id: 9 }),
                },
            },
            "line {:?}",
            line
        );
    }
}

#[test]
fn delete_is_cancelled_after_anything_else() {
    for line in ["", "\n", "n", "N\n", "yes\n", "yy", " y\n", "y \n", "y\n\n", "\r\n", "y\r", "j"] {
        let state = AwaitingLine::Confirmation { session: session(Some("t"), "text"), id: 9 };
        assert_eq!(state.resume(line), finish(vec![Line::plain("Cancelled.")]), "line {:?}", line);
    }
}

#[test]
fn confirmed_takes_exactly_y() {
    assert!(confirmed("y"));
    assert!(confirmed("Y"));
    assert!(confirmed("y\n"));
    assert!(confirmed("Y\r\n"));
    assert!(!confirmed(""));
    assert!(!confirmed("\n"));
    assert!(!confirmed("n"));
    assert!(!confirmed("yes"));
    assert!(!confirmed(" y"));
    assert!(!confirmed("y\r"));
    assert!(!confirmed("ｙ"));
}

#[test]
fn a_deleted_task_is_reported() {
    assert_eq!(
        awaiting("text", Expect::Delete { id: -4 }).resume(answered(204, "")),
        finish(vec![Line::plain("✅ Todo #-4 deleted successfully!")])
    );
    assert_eq!(
        awaiting("json", Expect::Delete { id: 9 }).resume(answered(404, "{\"error\":\"gone\"}")),
        fail(ErrorKind::Api, "Failed to delete todo: gone", None)
    );
}

#[test]
fn the_settings_are_shown() {
    assert_eq!(
        begin(Command::ShowConfig, Some("t")),
        finish(vec![
            Line::plain("Configuration:"),
            Line::plain("  Config file: Some(\"/home/u/.config/todo-cli/config.toml\")"),
            Line::plain("  API URL: (default)"),
            Line::plain("  Token: ✓ stored"),
        ])
    );
}

#[test]
fn setting_the_address_writes_the_settings() {
    let step = begin(Command::SetUrl { url: String::from("http://new") }, None);
    assert_eq!(
        step,
        Step {
            output: vec![],
            next: Next::Write {
                write: FileWrite {
                    path: String::from(PATH),
                    content: String::from("api_url = \"http://new\"\n"),
                },
                then: AwaitingWrite { url: String::from("http://new") },
            },
        }
    );
    assert_eq!(
        AwaitingWrite { url: String::from("http://new") }.resume(WriteOutcome::Done),
        finish(vec![Line::plain("✅ API URL set to: http://new")])
    );
    assert_eq!(
        AwaitingWrite { url: String::from("http://new") }
            .resume(WriteOutcome::NotWritten { cause: String::from("full") }),
        fail(ErrorKind::ConfigIo, "Failed to write config file", Some("full"))
    );
    assert_eq!(
        AwaitingWrite { url: String::from("http://new") }
            .resume(WriteOutcome::NoDirectory { cause: String::from("ro") }),
        fail(ErrorKind::ConfigIo, "Failed to create config directory", Some("ro"))
    );
}

#[test]
fn setting_the_address_without_a_place_writes_nothing() {
    let session =
        Session { client: client(None), config: Config::default(), format: String::from("text") };
    assert_eq!(
        session.dispatch(Command::SetUrl { url: String::from("u") }),
        finish(vec![Line::plain("✅ API URL set to: u")])
    );
}

#[test]
fn the_address_in_the_settings_does_not_move_the_client() {
    let step = start(invocation(Command::Get { id: 1 }), Some(String::from(PATH)));
    let loading = match step.next {
        Next::ReadSettings { then, .. } => then,
        other => panic!("unexpected step: {:?}", other),
    };
    let step =
        loading.resume(FileRead::Content { text: String::from("api_url = \"http://other\"\n") }.read());
    let step = match step.next {
        Next::Store { then, .. } => then.resume(StoreReply::Done { secret: None }),
        other => panic!("unexpected step: {:?}", other),
    };
    match step.next {
        Next::Send { request, .. } => assert_eq!(request.url, "http://h:1/api/v1/todos/1"),
        other => panic!("unexpected step: {:?}", other),
    }
}
