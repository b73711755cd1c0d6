//! Logging in and out: what is said, what is sent and what is stored.

use crate::api::{
    login_outcome, login_request, register_outcome, register_request, ApiClient, AuthResponseView,
    Reply, Request,
};
use crate::config::{
    set_token_outcome, store_request, Config, StoreActionView, StoreReply, StoreReplyView,
    StoreRequest, StoreRequestView,
};
use crate::error::{result_view, ClientError, ClientErrorView};
use crate::output::{lines_view, plain, styled, Line, Span, SpanView, Style};
use vstd::prelude::*;
use vstd::string::*;

verus! {

/// The line that announces a login.
pub open spec fn login_banner(email: Seq<char>) -> Seq<SpanView> {
    seq![plain("🔑 Logging in as "@ + email + "..."@)]
}

/// The line that announces a registration.
pub open spec fn register_banner(email: Seq<char>) -> Seq<SpanView> {
    seq![plain("📝 Registering "@ + email + "..."@)]
}

/// The lines after a login.
pub open spec fn login_success() -> Seq<Seq<SpanView>> {
    seq![
        seq![styled("✅ Login successful!"@, Style::Green)],
        seq![plain("Token has been securely stored."@)],
    ]
}

/// The lines after a registration.
pub open spec fn register_success() -> Seq<Seq<SpanView>> {
    seq![
        seq![styled("✅ Registration successful!"@, Style::Green)],
        seq![plain("You are now logged in."@)],
    ]
}

/// The line after a logout.
pub open spec fn logout_success() -> Seq<Seq<SpanView>> {
    seq![seq![styled("✅ Logged out successfully!"@, Style::Green)]]
}

/// The lines that tell whether there is a credential.
pub open spec fn status_lines(authenticated: bool) -> Seq<Seq<SpanView>> {
    if authenticated {
        seq![
            seq![styled("✅ Authenticated"@, Style::Green)],
            seq![plain("You are logged in and can access the API."@)],
        ]
    } else {
        seq![
            seq![styled("❌ Not authenticated"@, Style::Red)],
            seq![plain("Run 'todo auth login' to authenticate."@)],
        ]
    }
}

/// The request that stores the credential of an answer; the failure of the
/// answer where it holds none.
pub open spec fn keep_token(outcome: Result<AuthResponseView, ClientErrorView>) -> Result<
    StoreRequestView,
    ClientErrorView,
> {
    match outcome {
        Ok(auth) => Ok(store_request(StoreActionView::Put { secret: auth.token })),
        Err(error) => Err(error),
    }
}

/// The lines to show once the credential is stored; the failure of the
/// store where it is not.
pub open spec fn stored(reply: StoreReplyView, lines: Seq<Seq<SpanView>>) -> Result<
    Seq<Seq<SpanView>>,
    ClientErrorView,
> {
    match set_token_outcome(reply) {
        Ok(_) => Ok(lines),
        Err(error) => Err(error),
    }
}

fn announce(before: &str, email: &str) -> (r: Line)
    ensures
        r@ == seq![plain(before@ + email@ + "..."@)],
{
    let mut text = String::from_str(before);
    text.append(email);
    text.append("...");
    Line::plain(text.as_str())
}

fn two_lines(first: &str, second: &str) -> (r: Vec<Line>)
    ensures
        r.deep_view() == seq![seq![styled(first@, Style::Green)], seq![plain(second@)]],
{
    let mut lines: Vec<Line> = Vec::new();
    lines.push(Line::single(Span::styled(first, Style::Green)));
    lines.push(Line::plain(second));
    lines
}

/// Starts a login: the line that announces it, and the request to send.
pub fn login(client: &ApiClient, email: &str, password: &str) -> (r: (
    Line,
    Result<Request, ClientError>,
))
    ensures
        r.0@ == login_banner(email@),
        result_view(r.1) == login_request(client@, email@, password@),
{
    (announce("🔑 Logging in as ", email), client.login(email, password))
}

/// Reads the reply to a login: the request that stores the credential.
pub fn login_result(reply: Reply) -> (r: Result<StoreRequest, ClientError>)
    ensures
        result_view(r) == keep_token(login_outcome(reply@)),
{
    match ApiClient::login_result(reply) {
        Ok(auth) => Ok(Config::set_token(auth.token.as_str())),
        Err(error) => Err(error),
    }
}

/// Ends a login: the lines to show once the credential is stored.
pub fn login_stored(reply: StoreReply) -> (r: Result<Vec<Line>, ClientError>)
    ensures
        lines_view(r) == stored(reply@, login_success()),
{
    match Config::set_token_result(reply) {
        Ok(_) => Ok(two_lines("✅ Login successful!", "Token has been securely stored.")),
        Err(error) => Err(error),
    }
}

/// Starts a registration: the line that announces it, and the request to send.
pub fn register(client: &ApiClient, email: &str, password: &str) -> (r: (
    Line,
    Result<Request, ClientError>,
))
    ensures
        r.0@ == register_banner(email@),
        result_view(r.1) == register_request(client@, email@, password@),
{
    (announce("📝 Registering ", email), client.register(email, password))
}

/// Reads the reply to a registration: the request that stores the credential.
pub fn register_result(reply: Reply) -> (r: Result<StoreRequest, ClientError>)
    ensures
        result_view(r) == keep_token(register_outcome(reply@)),
{
    match ApiClient::register_result(reply) {
        Ok(auth) => Ok(Config::set_token(auth.token.as_str())),
        Err(error) => Err(error),
    }
}

/// Ends a registration: the lines to show once the credential is stored.
pub fn register_stored(reply: StoreReply) -> (r: Result<Vec<Line>, ClientError>)
    ensures
        lines_view(r) == stored(reply@, register_success()),
{
    match Config::set_token_result(reply) {
        Ok(_) => Ok(two_lines("✅ Registration successful!", "You are now logged in.")),
        Err(error) => Err(error),
    }
}

/// Starts a logout: the request that removes the credential.
pub fn logout() -> (r: StoreRequest)
    ensures
        r@ == store_request(StoreActionView::Delete),
{
    Config::clear_token()
}

/// Ends a logout. Whatever the secret store answered, the logout succeeds.
pub fn logout_result(reply: StoreReply) -> (r: Result<Vec<Line>, ClientError>)
    ensures
        lines_view(r) == Ok::<Seq<Seq<SpanView>>, ClientErrorView>(logout_success()),
{
    match Config::clear_token_result(reply) {
        Ok(_) => {
            let mut lines: Vec<Line> = Vec::new();
            lines.push(Line::single(Span::styled("✅ Logged out successfully!", Style::Green)));
            assert(lines.deep_view() =~= logout_success());
            Ok(lines)
        },
        Err(error) => Err(error),
    }
}

/// The lines that tell whether a credential was found at the start.
pub fn status(config: &Config) -> (r: Vec<Line>)
    ensures
        r.deep_view() == status_lines(config@.token is Some),
{
    let mut lines: Vec<Line> = Vec::new();
    if config.has_token() {
        lines.push(Line::single(Span::styled("✅ Authenticated", Style::Green)));
        lines.push(Line::plain("You are logged in and can access the API."));
    } else {
        lines.push(Line::single(Span::styled("❌ Not authenticated", Style::Red)));
        lines.push(Line::plain("Run 'todo auth login' to authenticate."));
    }
    lines
}

} // verus!
