//! The settings of the client and the credential of the session.
//!
//! The settings live in a TOML file, the credential in the secret store of
//! the operating system. The program reads and writes both; this module says
//! what to read and write, and what each outcome means.

use crate::error::{failure, failure_from, ClientError, ClientErrorView, ErrorKind};
use crate::output::{plain, Line, SpanView};
use crate::text::join;
use vstd::prelude::*;
use vstd::string::*;

verus! {

/// The name of the application: its directory of settings and its service in
/// the secret store go by it.
pub const APP_NAME: &'static str = "todo-cli";

/// The name of the organisation in the path of the settings.
pub const ORG_NAME: &'static str = "go-api-starter";

/// The name of the settings file in the directory of settings.
pub const CONFIG_FILE: &'static str = "config.toml";

/// The account under which the credential is stored.
pub const TOKEN_ACCOUNT: &'static str = "api_token";

/// What came of reading the settings file.
#[derive(Debug, PartialEq, Eq)]
pub enum FileRead {
    /// There is no such file.
    Missing,
    /// The file is there and could not be read.
    Unreadable { cause: String },
    Content { text: String },
}

/// What a `FileRead` holds, as mathematical values.
pub enum FileReadView {
    Missing,
    Unreadable { cause: Seq<char> },
    Content { text: Seq<char> },
}

impl View for FileRead {
    type V = FileReadView;

    open spec fn view(&self) -> FileReadView {
        match self {
            FileRead::Missing => FileReadView::Missing,
            FileRead::Unreadable { cause } => FileReadView::Unreadable { cause: cause@ },
            FileRead::Content { text } => FileReadView::Content { text: text@ },
        }
    }
}

/// The settings file, with its text read as TOML.
#[derive(Debug, PartialEq, Eq)]
pub enum SettingsFile {
    Missing,
    Unreadable { cause: String },
    /// The entries at the top of the file, each with its value where that is
    /// a string; `None` where the text is no TOML.
    Read { entries: Option<Vec<(String, Option<String>)>> },
}

/// What a `SettingsFile` holds, as mathematical values.
pub enum SettingsFileView {
    Missing,
    Unreadable { cause: Seq<char> },
    Read { entries: Option<Seq<(Seq<char>, Option<Seq<char>>)>> },
}

impl View for SettingsFile {
    type V = SettingsFileView;

    open spec fn view(&self) -> SettingsFileView {
        match self {
            SettingsFile::Missing => SettingsFileView::Missing,
            SettingsFile::Unreadable { cause } => SettingsFileView::Unreadable { cause: cause@ },
            SettingsFile::Read { entries } => SettingsFileView::Read {
                entries: entries.deep_view(),
            },
        }
    }
}

/// The entries at the top of the table that `toml::from_str` reads from
/// `text`, in the order of the table, each with its value where that is a
/// string; `None` where it reports an error.
pub uninterp spec fn toml_parsed(text: Seq<char>) -> Option<Seq<(Seq<char>, Option<Seq<char>>)>>;

/// What `toml::to_string_pretty` writes for a table that holds each of
/// `entries` as a string; `None` where it reports an error.
pub uninterp spec fn toml_text(entries: Seq<(Seq<char>, Seq<char>)>) -> Option<Seq<char>>;

/// What formatting with `{:?}` writes for a path that may be missing.
pub uninterp spec fn debug_text(path: Option<Seq<char>>) -> Seq<char>;

/// Calls `toml::from_str` for a `Table` and copies its entries out: the key,
/// and what `Value::as_str` gives for the value. The contract claims only
/// that the outcome is a function of the text.
#[verifier::external_body]
fn toml_entries(text: &str) -> (r: Option<Vec<(String, Option<String>)>>)
    ensures
        r.deep_view() == toml_parsed(text@),
{
    let table = toml::from_str::<toml::Table>(text).ok()?;
    Some(table.iter().map(|(k, v)| (k.clone(), v.as_str().map(String::from))).collect())
}

/// Collects the entries into a `toml::Table`, each value a string, and calls
/// `toml::to_string_pretty`. The contract claims only that the outcome is a
/// function of the entries.
#[verifier::external_body]
fn toml_write(entries: &Vec<(String, String)>) -> (r: Option<String>)
    ensures
        r.deep_view() == toml_text(entries.deep_view()),
{
    let table: toml::Table = entries.iter().map(
        |e| (e.0.clone(), toml::Value::String(e.1.clone())),
    ).collect();
    toml::to_string_pretty(&table).ok()
}

/// Formats the path, as a `PathBuf`, with `{:?}`. The contract claims only
/// that the outcome is a function of the path.
#[verifier::external_body]
fn debug_path(path: &Option<String>) -> (r: String)
    ensures
        r@ == debug_text(path.deep_view()),
{
    format!("{:?}", path.as_ref().map(std::path::PathBuf::from))
}

/// The settings file that a reading is: its text is read as TOML.
pub open spec fn settings_of(file: FileReadView) -> SettingsFileView {
    match file {
        FileReadView::Missing => SettingsFileView::Missing,
        FileReadView::Unreadable { cause } => SettingsFileView::Unreadable { cause },
        FileReadView::Content { text } => SettingsFileView::Read { entries: toml_parsed(text) },
    }
}

impl FileRead {
    /// Reads the text of the file as TOML.
    pub fn read(self) -> (r: SettingsFile)
        ensures
            r@ == settings_of(self@),
    {
        match self {
            FileRead::Missing => SettingsFile::Missing,
            FileRead::Unreadable { cause } => SettingsFile::Unreadable { cause },
            FileRead::Content { text } => SettingsFile::Read { entries: toml_entries(text.as_str()) },
        }
    }
}

/// What to do with the entry of the secret store.
#[derive(Debug, PartialEq, Eq)]
pub enum StoreAction {
    Put { secret: String },
    Get,
    Delete,
}

/// What a `StoreAction` holds, as mathematical values.
pub enum StoreActionView {
    Put { secret: Seq<char> },
    Get,
    Delete,
}

impl View for StoreAction {
    type V = StoreActionView;

    open spec fn view(&self) -> StoreActionView {
        match self {
            StoreAction::Put { secret } => StoreActionView::Put { secret: secret@ },
            StoreAction::Get => StoreActionView::Get,
            StoreAction::Delete => StoreActionView::Delete,
        }
    }
}

/// A request to the secret store: the entry, by service and account, and
/// what to do with it.
#[derive(Debug, PartialEq, Eq)]
pub struct StoreRequest {
    pub service: String,
    pub account: String,
    pub action: StoreAction,
}

/// What a `StoreRequest` holds, as mathematical values.
pub struct StoreRequestView {
    pub service: Seq<char>,
    pub account: Seq<char>,
    pub action: StoreActionView,
}

impl View for StoreRequest {
    type V = StoreRequestView;

    open spec fn view(&self) -> StoreRequestView {
        StoreRequestView { service: self.service@, account: self.account@, action: self.action@ }
    }
}

/// The request on the entry of this application.
pub open spec fn store_request(action: StoreActionView) -> StoreRequestView {
    StoreRequestView { service: APP_NAME@, account: TOKEN_ACCOUNT@, action }
}

/// What came of a request to the secret store.
#[derive(Debug, PartialEq, Eq)]
pub enum StoreReply {
    /// The store gave no entry for the service and the account.
    Unavailable { cause: String },
    /// The entry is there and the action on it failed; so it does where a
    /// secret is asked for or deleted and none is stored.
    Failed { cause: String },
    /// The action was carried out; `secret` is what was asked for.
    Done { secret: Option<String> },
}

/// What a `StoreReply` holds, as mathematical values.
pub enum StoreReplyView {
    Unavailable { cause: Seq<char> },
    Failed { cause: Seq<char> },
    Done { secret: Option<Seq<char>> },
}

impl View for StoreReply {
    type V = StoreReplyView;

    open spec fn view(&self) -> StoreReplyView {
        match self {
            StoreReply::Unavailable { cause } => StoreReplyView::Unavailable { cause: cause@ },
            StoreReply::Failed { cause } => StoreReplyView::Failed { cause: cause@ },
            StoreReply::Done { secret } => StoreReplyView::Done { secret: secret.deep_view() },
        }
    }
}

/// A file to write: the directories above it are made where they are missing.
#[derive(Debug, PartialEq, Eq)]
pub struct FileWrite {
    pub path: String,
    pub content: String,
}

/// What a `FileWrite` holds, as mathematical values.
pub struct FileWriteView {
    pub path: Seq<char>,
    pub content: Seq<char>,
}

impl View for FileWrite {
    type V = FileWriteView;

    open spec fn view(&self) -> FileWriteView {
        FileWriteView { path: self.path@, content: self.content@ }
    }
}

impl DeepView for FileWrite {
    type V = FileWriteView;

    open spec fn deep_view(&self) -> FileWriteView {
        self@
    }
}

/// What came of writing a file.
#[derive(Debug, PartialEq, Eq)]
pub enum WriteOutcome {
    /// The directories above the file could not be made.
    NoDirectory { cause: String },
    /// The file could not be written.
    NotWritten { cause: String },
    Done,
}

/// What a `WriteOutcome` holds, as mathematical values.
pub enum WriteOutcomeView {
    NoDirectory { cause: Seq<char> },
    NotWritten { cause: Seq<char> },
    Done,
}

impl View for WriteOutcome {
    type V = WriteOutcomeView;

    open spec fn view(&self) -> WriteOutcomeView {
        match self {
            WriteOutcome::NoDirectory { cause } => WriteOutcomeView::NoDirectory { cause: cause@ },
            WriteOutcome::NotWritten { cause } => WriteOutcomeView::NotWritten { cause: cause@ },
            WriteOutcome::Done => WriteOutcomeView::Done,
        }
    }
}

/// The settings, the credential that was found at the start, and the place
/// of the settings file.
#[derive(Debug, PartialEq, Eq)]
pub struct Config {
    pub api_url: Option<String>,
    token: Option<String>,
    config_path: Option<String>,
}

/// What a `Config` holds, as mathematical values.
pub struct ConfigView {
    pub api_url: Option<Seq<char>>,
    pub token: Option<Seq<char>>,
    pub config_path: Option<Seq<char>>,
}

impl View for Config {
    type V = ConfigView;

    closed spec fn view(&self) -> ConfigView {
        ConfigView {
            api_url: self.api_url.deep_view(),
            token: self.token.deep_view(),
            config_path: self.config_path.deep_view(),
        }
    }
}

impl Default for Config {
    fn default() -> (r: Config)
        ensures
            r@ == (ConfigView { api_url: None, token: None, config_path: None }),
    {
        Config { api_url: None, token: None, config_path: None }
    }
}

/// The string under `key` among the entries from index `from` on: that of
/// the first entry with this key, if it is a string.
pub open spec fn setting(
    entries: Seq<(Seq<char>, Option<Seq<char>>)>,
    key: Seq<char>,
    from: int,
) -> Option<Seq<char>>
    decreases entries.len() - from,
{
    if from < 0 || from >= entries.len() {
        None
    } else if entries[from].0 == key {
        entries[from].1
    } else {
        setting(entries, key, from + 1)
    }
}

/// The address of the server in the settings file: the string under
/// `api_url`. A file that is missing or no TOML holds none.
pub open spec fn stored_url(file: SettingsFileView) -> Option<Seq<char>> {
    match file {
        SettingsFileView::Read { entries: Some(entries) } => setting(entries, "api_url"@, 0),
        _ => None,
    }
}

/// The credential in the answer of the secret store to a request for it.
/// That none is stored, or that the store fails, is no error: there is none.
pub open spec fn stored_token(reply: StoreReplyView) -> Option<Seq<char>> {
    match reply {
        StoreReplyView::Done { secret } => secret,
        _ => None,
    }
}

/// The settings at the start of a run. There must be a place for the
/// settings file, and a file that is there must be readable; what it holds
/// need not be TOML.
pub open spec fn loaded(
    found: Option<Seq<char>>,
    file: SettingsFileView,
    stored: StoreReplyView,
) -> Result<ConfigView, ClientErrorView> {
    match found {
        None => Err(failure(ErrorKind::ConfigIo, "Failed to determine config directory"@)),
        Some(path) => match file {
            SettingsFileView::Unreadable { cause } => Err(
                failure_from(ErrorKind::ConfigIo, "Failed to read config file"@, cause),
            ),
            _ => Ok(
                ConfigView {
                    api_url: stored_url(file),
                    token: stored_token(stored),
                    config_path: Some(path),
                },
            ),
        },
    }
}

/// The entries of the settings file: the address of the server, if one is set.
pub open spec fn entries_of(config: ConfigView) -> Seq<(Seq<char>, Seq<char>)> {
    match config.api_url {
        Some(url) => seq![("api_url"@, url)],
        None => Seq::empty(),
    }
}

/// The file to write for the settings, given their text: nothing where the
/// place of the file is not known, a failure where there is no text.
pub open spec fn save_plan_for(config: ConfigView, text: Option<Seq<char>>) -> Result<
    Option<FileWriteView>,
    ClientErrorView,
> {
    match config.config_path {
        None => Ok(None),
        Some(path) => match text {
            Some(content) => Ok(Some(FileWriteView { path, content })),
            None => Err(failure(ErrorKind::ConfigIo, "Failed to write config as TOML"@)),
        },
    }
}

/// The file to write for the settings.
pub open spec fn save_plan(config: ConfigView) -> Result<Option<FileWriteView>, ClientErrorView> {
    save_plan_for(config, toml_text(entries_of(config)))
}

/// What the writing of the settings file comes to.
pub open spec fn save_outcome(outcome: WriteOutcomeView) -> Result<(), ClientErrorView> {
    match outcome {
        WriteOutcomeView::NoDirectory { cause } => Err(
            failure_from(ErrorKind::ConfigIo, "Failed to create config directory"@, cause),
        ),
        WriteOutcomeView::NotWritten { cause } => Err(
            failure_from(ErrorKind::ConfigIo, "Failed to write config file"@, cause),
        ),
        WriteOutcomeView::Done => Ok(()),
    }
}

/// What the storing of a credential comes to.
pub open spec fn set_token_outcome(reply: StoreReplyView) -> Result<(), ClientErrorView> {
    match reply {
        StoreReplyView::Unavailable { cause } => Err(
            failure_from(ErrorKind::StoreAccess, "Failed to create keyring entry"@, cause),
        ),
        StoreReplyView::Failed { cause } => Err(
            failure_from(ErrorKind::StoreAccess, "Failed to save token to keyring"@, cause),
        ),
        StoreReplyView::Done { .. } => Ok(()),
    }
}

/// What the removal of the credential comes to. The removal is done as far
/// as it can be: that it fails, as it does where none is stored, is no error.
pub open spec fn clear_token_outcome(reply: StoreReplyView) -> Result<(), ClientErrorView> {
    Ok(())
}

/// The lines that show the settings, given the text that shows the place of
/// the file.
pub open spec fn settings_lines(config: ConfigView, place: Seq<char>) -> Seq<Seq<SpanView>> {
    seq![
        seq![plain("Configuration:"@)],
        seq![plain("  Config file: "@ + place)],
        seq![
            plain(
                "  API URL: "@ + (match config.api_url {
                    Some(url) => url,
                    None => "(default)"@,
                }),
            ),
        ],
        seq![
            plain(
                "  Token: "@ + (if config.token is Some {
                    "✓ stored"@
                } else {
                    "✗ not set"@
                }),
            ),
        ],
    ]
}

fn clone_text(text: &Option<String>) -> (r: Option<String>)
    ensures
        r.deep_view() == text.deep_view(),
{
    match text {
        Some(t) => Some(t.clone()),
        None => None,
    }
}

/// The string under `key` among the entries.
fn find_setting(entries: &Vec<(String, Option<String>)>, key: &str) -> (r: Option<String>)
    ensures
        r.deep_view() == setting(entries.deep_view(), key@, 0),
{
    let wanted = String::from_str(key);
    let ghost all = entries.deep_view();
    let mut i: usize = 0;
    while i < entries.len()
        invariant
            i <= entries.len(),
            wanted@ == key@,
            all == entries.deep_view(),
            setting(all, key@, 0) == setting(all, key@, i as int),
        decreases entries.len() - i,
    {
        if entries[i].0 == wanted {
            return clone_text(&entries[i].1);
        }
        i += 1;
    }
    None
}

impl Config {
    /// The place of the settings file, given what the system names as such.
    pub fn config_path(found: Option<String>) -> (r: Result<String, ClientError>)
        ensures
            match r {
                Ok(path) => found.deep_view() == Some(path@),
                Err(error) => found is None && error@ == failure(
                    ErrorKind::ConfigIo,
                    "Failed to determine config directory"@,
                ),
            },
    {
        match found {
            Some(path) => Ok(path),
            None => Err(ClientError::new(ErrorKind::ConfigIo, "Failed to determine config directory")),
        }
    }

    /// The address of the server in the settings file.
    pub fn stored_url(file: &SettingsFile) -> (r: Option<String>)
        ensures
            r.deep_view() == stored_url(file@),
    {
        match file {
            SettingsFile::Read { entries: Some(entries) } => find_setting(entries, "api_url"),
            _ => None,
        }
    }

    /// The request for the stored credential.
    pub fn load_token_from_keyring() -> (r: StoreRequest)
        ensures
            r@ == store_request(StoreActionView::Get),
    {
        StoreRequest {
            service: String::from_str(APP_NAME),
            account: String::from_str(TOKEN_ACCOUNT),
            action: StoreAction::Get,
        }
    }

    /// The settings at the start of a run: from the place of the settings
    /// file, what the file holds and what the secret store answered.
    pub fn load(found: Option<String>, file: SettingsFile, stored: StoreReply) -> (r: Result<
        Config,
        ClientError,
    >)
        ensures
            match r {
                Ok(config) => loaded(found.deep_view(), file@, stored@) == Ok::<
                    ConfigView,
                    ClientErrorView,
                >(config@),
                Err(error) => loaded(found.deep_view(), file@, stored@) == Err::<
                    ConfigView,
                    ClientErrorView,
                >(error@),
            },
    {
        let path = match Config::config_path(found) {
            Ok(path) => path,
            Err(error) => {
                return Err(error);
            },
        };
        let api_url = Config::stored_url(&file);
        match file {
            SettingsFile::Unreadable { cause } => Err(
                ClientError::caused(ErrorKind::ConfigIo, "Failed to read config file", cause),
            ),
            _ => {
                let token = match stored {
                    StoreReply::Done { secret } => secret,
                    _ => None,
                };
                Ok(Config { api_url, token, config_path: Some(path) })
            },
        }
    }

    /// The file to write for the settings, given their text as TOML.
    pub fn save_as(&self, text: Option<String>) -> (r: Result<Option<FileWrite>, ClientError>)
        ensures
            match r {
                Ok(write) => save_plan_for(self@, text.deep_view()) == Ok::<
                    Option<FileWriteView>,
                    ClientErrorView,
                >(write.deep_view()),
                Err(error) => save_plan_for(self@, text.deep_view()) == Err::<
                    Option<FileWriteView>,
                    ClientErrorView,
                >(error@),
            },
    {
        match &self.config_path {
            None => Ok(None),
            Some(path) => match text {
                Some(content) => Ok(Some(FileWrite { path: path.clone(), content })),
                None => Err(ClientError::new(ErrorKind::ConfigIo, "Failed to write config as TOML")),
            },
        }
    }

    /// The file to write for the settings: the whole of them, as TOML.
    pub fn save(&self) -> (r: Result<Option<FileWrite>, ClientError>)
        ensures
            match r {
                Ok(write) => save_plan(self@) == Ok::<Option<FileWriteView>, ClientErrorView>(
                    write.deep_view(),
                ),
                Err(error) => save_plan(self@) == Err::<Option<FileWriteView>, ClientErrorView>(
                    error@,
                ),
            },
    {
        let mut entries: Vec<(String, String)> = Vec::new();
        match &self.api_url {
            Some(url) => {
                entries.push((String::from_str("api_url"), url.clone()));
            },
            None => {},
        }
        assert(entries.deep_view() =~= entries_of(self@));
        self.save_as(toml_write(&entries))
    }

    /// What the writing of the settings file comes to.
    pub fn save_result(outcome: WriteOutcome) -> (r: Result<(), ClientError>)
        ensures
            match r {
                Ok(_) => save_outcome(outcome@) == Ok::<(), ClientErrorView>(()),
                Err(error) => save_outcome(outcome@) == Err::<(), ClientErrorView>(error@),
            },
    {
        match outcome {
            WriteOutcome::NoDirectory { cause } => Err(
                ClientError::caused(ErrorKind::ConfigIo, "Failed to create config directory", cause),
            ),
            WriteOutcome::NotWritten { cause } => Err(
                ClientError::caused(ErrorKind::ConfigIo, "Failed to write config file", cause),
            ),
            WriteOutcome::Done => Ok(()),
        }
    }

    /// The credential that was found at the start.
    pub fn get_token(&self) -> (r: Option<String>)
        ensures
            r.deep_view() == self@.token,
    {
        clone_text(&self.token)
    }

    /// The request that stores `token` as the credential.
    pub fn set_token(token: &str) -> (r: StoreRequest)
        ensures
            r@ == store_request(StoreActionView::Put { secret: token@ }),
    {
        StoreRequest {
            service: String::from_str(APP_NAME),
            account: String::from_str(TOKEN_ACCOUNT),
            action: StoreAction::Put { secret: String::from_str(token) },
        }
    }

    /// What the storing of a credential comes to.
    pub fn set_token_result(reply: StoreReply) -> (r: Result<(), ClientError>)
        ensures
            match r {
                Ok(_) => set_token_outcome(reply@) == Ok::<(), ClientErrorView>(()),
                Err(error) => set_token_outcome(reply@) == Err::<(), ClientErrorView>(error@),
            },
    {
        match reply {
            StoreReply::Unavailable { cause } => Err(
                ClientError::caused(ErrorKind::StoreAccess, "Failed to create keyring entry", cause),
            ),
            StoreReply::Failed { cause } => Err(
                ClientError::caused(ErrorKind::StoreAccess, "Failed to save token to keyring", cause),
            ),
            StoreReply::Done { .. } => Ok(()),
        }
    }

    /// The request that removes the credential.
    pub fn clear_token() -> (r: StoreRequest)
        ensures
            r@ == store_request(StoreActionView::Delete),
    {
        StoreRequest {
            service: String::from_str(APP_NAME),
            account: String::from_str(TOKEN_ACCOUNT),
            action: StoreAction::Delete,
        }
    }

    /// What the removal of the credential comes to.
    pub fn clear_token_result(reply: StoreReply) -> (r: Result<(), ClientError>)
        ensures
            match r {
                Ok(_) => clear_token_outcome(reply@) == Ok::<(), ClientErrorView>(()),
                Err(error) => clear_token_outcome(reply@) == Err::<(), ClientErrorView>(error@),
            },
    {
        match reply {
            StoreReply::Unavailable { .. } => Ok(()),
            StoreReply::Failed { .. } => Ok(()),
            StoreReply::Done { .. } => Ok(()),
        }
    }

    /// Sets the address of the server and gives the file to write for the
    /// settings as they then are.
    pub fn set_url(&mut self, url: &str) -> (r: Result<Option<FileWrite>, ClientError>)
        ensures
            final(self)@ == (ConfigView { api_url: Some(url@), ..old(self)@ }),
            match r {
                Ok(write) => save_plan(final(self)@) == Ok::<Option<FileWriteView>, ClientErrorView>(
                    write.deep_view(),
                ),
                Err(error) => save_plan(final(self)@) == Err::<
                    Option<FileWriteView>,
                    ClientErrorView,
                >(error@),
            },
    {
        self.api_url = Some(String::from_str(url));
        self.save()
    }

    /// The lines that show the settings, given the text that shows the place
    /// of the file.
    pub fn print_with(&self, place: &str) -> (r: Vec<Line>)
        ensures
            r.deep_view() == settings_lines(self@, place@),
    {
        let mut lines: Vec<Line> = Vec::new();
        lines.push(Line::plain("Configuration:"));
        lines.push(Line::plain(join("  Config file: ", place).as_str()));
        let url = match &self.api_url {
            Some(url) => join("  API URL: ", url.as_str()),
            None => join("  API URL: ", "(default)"),
        };
        lines.push(Line::plain(url.as_str()));
        let token = if self.token.is_some() {
            join("  Token: ", "✓ stored")
        } else {
            join("  Token: ", "✗ not set")
        };
        lines.push(Line::plain(token.as_str()));
        lines
    }

    /// The lines that show the settings.
    pub fn print(&self) -> (r: Vec<Line>)
        ensures
            r.deep_view() == settings_lines(self@, debug_text(self@.config_path)),
    {
        let place = debug_path(&self.config_path);
        self.print_with(place.as_str())
    }

    /// Tells whether a credential was found at the start.
    pub fn has_token(&self) -> (r: bool)
        ensures
            r == (self@.token is Some),
    {
        self.token.is_some()
    }
}

} // verus!
