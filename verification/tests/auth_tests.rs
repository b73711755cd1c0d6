use todo_cli::api::{ApiClient, Exchange, Method};
use todo_cli::auth::{
    login, login_result, login_stored, logout, logout_result, register, register_result,
    register_stored, status,
};
use todo_cli::config::{Config, SettingsFile, StoreAction, StoreReply, StoreRequest};
use todo_cli::error::{ClientError, ErrorKind};
use todo_cli::output::{Line, Span, Style};

fn green(text: &str) -> Line {
    Line::single(Span::styled(text, Style::Green))
}

fn put(secret: &str) -> StoreRequest {
    StoreRequest {
        service: String::from("todo-cli"),
        account: String::from("api_token"),
        action: StoreAction::Put { secret: String::from(secret) },
    }
}

fn answered(status: u16, body: &str) -> todo_cli::api::Reply {
    Exchange::Answered { status, body: Some(body.as_bytes().to_vec()) }.read()
}

#[test]
fn login_announces_itself_and_builds_the_request() {
    let client = ApiClient::new("http://h", None);
    let (banner, request) = login(&client, "a@b.c", "pw");
    assert_eq!(banner, Line::plain("🔑 Logging in as a@b.c..."));
    let request = request.unwrap();
    assert_eq!(request, client.login("a@b.c", "pw").unwrap());
    assert_eq!(request.method, Method::Post);
    assert_eq!(request.url, "http://h/api/v1/auth/login");
}

#[test]
fn register_announces_itself_and_builds_the_request() {
    let client = ApiClient::new("http://h", None);
    let (banner, request) = register(&client, "a@b.c", "pw");
    assert_eq!(banner, Line::plain("📝 Registering a@b.c..."));
    assert_eq!(request.unwrap(), client.register("a@b.c", "pw").unwrap());
}

#[test]
fn the_credential_of_an_answer_is_to_be_stored() {
    assert_eq!(login_result(answered(200, "{\"token\":\"abc\"}")), Ok(put("abc")));
    assert_eq!(
        register_result(answered(201, "{\"token\":\"xyz\",\"user_id\":4}")),
        Ok(put("xyz"))
    );
}

#[test]
fn a_refused_login_stores_nothing() {
    assert_eq!(
        login_result(answered(401, "{\"error\":\"bad password\"}")),
        Err(ClientError {
            kind: ErrorKind::Api,
            message: String::from("Login failed: bad password"),
            cause: None,
        })
    );
    assert_eq!(
        register_result(answered(409, "taken")),
        Err(ClientError {
            kind: ErrorKind::Api,
            message: String::from("Registration failed: Unknown error"),
            cause: None,
        })
    );
}

#[test]
fn a_stored_credential_ends_the_login() {
    assert_eq!(
        login_stored(StoreReply::Done { secret: None }),
        Ok(vec![green("✅ Login successful!"), Line::plain("Token has been securely stored.")])
    );
    assert_eq!(
        register_stored(StoreReply::Done { secret: None }),
        Ok(vec![green("✅ Registration successful!"), Line::plain("You are now logged in.")])
    );
}

#[test]
fn a_store_that_fails_ends_the_login_with_its_failure() {
    let failed = || StoreReply::Failed { cause: String::from("locked") };
    let error = ClientError {
        kind: ErrorKind::StoreAccess,
        message: String::from("Failed to save token to keyring"),
        cause: Some(String::from("locked")),
    };
    assert_eq!(login_stored(failed()), Err(error));
    assert_eq!(
        register_stored(StoreReply::Unavailable { cause: String::from("none") }),
        Err(ClientError {
            kind: ErrorKind::StoreAccess,
            message: String::from("Failed to create keyring entry"),
            cause: Some(String::from("none")),
        })
    );
}

#[test]
fn logout_removes_the_credential_and_always_succeeds() {
    assert_eq!(
        logout(),
        StoreRequest {
            service: String::from("todo-cli"),
            account: String::from("api_token"),
            action: StoreAction::Delete,
        }
    );
    let lines = vec![green("✅ Logged out successfully!")];
    assert_eq!(logout_result(StoreReply::Done { secret: None }), Ok(lines));
    let lines = vec![green("✅ Logged out successfully!")];
    assert_eq!(logout_result(StoreReply::Failed { cause: String::from("no entry") }), Ok(lines));
    let lines = vec![green("✅ Logged out successfully!")];
    assert_eq!(logout_result(StoreReply::Unavailable { cause: String::from("x") }), Ok(lines));
}

#[test]
fn status_tells_whether_there_is_a_credential() {
    let path = || Some(String::from("/c/config.toml"));
    let with = Config::load(
        path(),
        SettingsFile::Missing,
        StoreReply::Done { secret: Some(String::from("t")) },
    )
    .unwrap();
    assert_eq!(
        status(&with),
        vec![
            green("✅ Authenticated"),
            Line::plain("You are logged in and can access the API."),
        ]
    );
    let without =
        Config::load(path(), SettingsFile::Missing, StoreReply::Done { secret: None }).unwrap();
    assert_eq!(
        status(&without),
        vec![
            Line::single(Span::styled("❌ Not authenticated", Style::Red)),
            Line::plain("Run 'todo auth login' to authenticate."),
        ]
    );
}
