//! The login command as a machine that never acts itself.
//!
//! The machine hands out a [`Directive`]: lines to print and one [`Request`]
//! to carry out. The caller carries it out and reports what came of it as an
//! [`Event`], which moves the machine to its next [`Phase`]. The device-code
//! flow passes through `RequestingCode` and `AwaitingAuthorization`; it is
//! authorized when the credential goes to the store, and timed out when the
//! machine fails with [`LoginError::Timeout`].

use crate::client::{client_id, client_id_of, uuid_value, SPIN_CLIENT_ID};
use crate::command::{Intent, IntentView, LoginCommand, LoginCommandView};
use crate::error::{LoginError, LoginErrorView};
use crate::json::{parsed_members, pretty_text};
use crate::model::{
    check_once, checked, AuthMethod, DeviceCodeItem, DeviceCodeItemView, LoginConnection,
    LoginConnectionView, TokenInfo, TokenInfoView, TokenReadiness, TokenReadinessView,
};
use crate::password::{described_error, format_login_error, login_error_text};
use crate::selector::{auth_method_from_answer, choice_of, Selection};
use crate::store::{
    cannot_create, cannot_create_message, ensure, ensured, RootAction, RootStatus,
};
use crate::text::{joined, joined3, trim, trimmed};
use vstd::prelude::*;
use vstd::string::*;

verus! {

/// The question about the method of authentication.
pub const METHOD_PROMPT: &'static str =
    "What authentication method does this server support?\n\n1. Sign in with GitHub\n2. Sign in with a username and password\n\nEnter a number: ";

/// What is said to an answer that names no method.
pub const INVALID_CHOICE: &'static str = "invalid input. Please enter either 1 or 2.";

/// The question about the user name.
pub const USERNAME_PROMPT: &'static str = "Hippo username: ";

/// The question about the password.
pub const PASSWORD_PROMPT: &'static str = "Hippo pasword: ";

/// What is said while the device code is not authorized yet.
pub const WAITING_NOTICE: &'static str = "Waiting for device authorization...";

/// What is said once the device code is authorized.
pub const AUTHORIZED_NOTICE: &'static str = "Device authorized!";

/// What a single check prints for a device code that is not authorized yet.
pub const WAITING_MARKER: &'static str = "{\"status\":\"waiting\"}";

/// The message where the user has no configuration directory.
pub const NO_CONFIG_DIRECTORY: &'static str = "Cannot find configuration directory";

/// The message where the credential file cannot be read.
pub const CANNOT_DISPLAY: &'static str = "Cannnot display login information";

/// The message where a value cannot be printed as JSON.
pub const CANNOT_RENDER: &'static str = "Cannot write login information as JSON";

/// What stands for the error's text where a reply does not answer the
/// request.
pub const UNEXPECTED_REPLY: &'static str = "unexpected reply";

/// How often the authorization server is asked and for how long.
#[derive(Clone, Copy, Debug, PartialEq, Eq, Structural)]
pub struct PollPolicy {
    /// The seconds to wait after a check that found no token.
    pub interval_secs: u64,
    /// The seconds of waiting after which no further check is made.
    pub timeout_secs: u64,
}

impl PollPolicy {
    /// A check every ten seconds, for fifteen minutes.
    pub fn nominal() -> (policy: PollPolicy)
        ensures
            policy == (PollPolicy { interval_secs: 10, timeout_secs: 900 }),
    {
        PollPolicy { interval_secs: 10, timeout_secs: 900 }
    }
}

/// What the store is located for.
#[derive(Clone, Debug, PartialEq, Eq)]
pub enum Pending {
    /// To show the credential.
    Read,
    /// To keep this credential.
    Write(LoginConnection),
}

pub enum PendingView {
    Read,
    Write(LoginConnectionView),
}

impl View for Pending {
    type V = PendingView;

    open spec fn view(&self) -> PendingView {
        match self {
            Pending::Read => PendingView::Read,
            Pending::Write(connection) => PendingView::Write(connection@),
        }
    }
}

/// Where the machine stands: what it has asked for and is waiting on.
#[derive(Clone, Debug, PartialEq, Eq)]
pub enum Phase {
    /// Asked where the configuration root is and what is there.
    LocatingStore(Pending),
    /// Asked for the configuration root to be created.
    CreatingStore { pending: Pending, root: String },
    /// Asked for the credential file's text.
    Reading,
    /// Asked for the credential file to be written.
    Writing,
    /// Asked for a device code that is only to be shown.
    FetchingCode,
    /// Asked once about a device code that the options gave.
    CheckingCode,
    /// Asked the user for the method.
    ChoosingMethod,
    /// Asked for a device code to sign in with.
    RequestingCode,
    /// Asked whether the device code is authorized, after `elapsed_secs`
    /// seconds of waiting.
    AwaitingAuthorization { device_code: String, elapsed_secs: u64 },
    /// Asked for a pause before the next check.
    Pausing { device_code: String, elapsed_secs: u64 },
    /// Asked the user for the user name.
    AskingUsername,
    /// Asked the user for the password.
    AskingPassword { username: String },
    /// Asked the identity service for a token.
    SigningIn,
    /// Done; nothing is asked any more.
    Finished,
    /// Failed; nothing is asked any more.
    Failed(LoginError),
}

pub enum PhaseView {
    LocatingStore(PendingView),
    CreatingStore { pending: PendingView, root: Seq<char> },
    Reading,
    Writing,
    FetchingCode,
    CheckingCode,
    ChoosingMethod,
    RequestingCode,
    AwaitingAuthorization { device_code: Seq<char>, elapsed_secs: int },
    Pausing { device_code: Seq<char>, elapsed_secs: int },
    AskingUsername,
    AskingPassword { username: Seq<char> },
    SigningIn,
    Finished,
    Failed(LoginErrorView),
}

impl View for Phase {
    type V = PhaseView;

    open spec fn view(&self) -> PhaseView {
        match self {
            Phase::LocatingStore(pending) => PhaseView::LocatingStore(pending@),
            Phase::CreatingStore { pending, root } => PhaseView::CreatingStore {
                pending: pending@,
                root: root@,
            },
            Phase::Reading => PhaseView::Reading,
            Phase::Writing => PhaseView::Writing,
            Phase::FetchingCode => PhaseView::FetchingCode,
            Phase::CheckingCode => PhaseView::CheckingCode,
            Phase::ChoosingMethod => PhaseView::ChoosingMethod,
            Phase::RequestingCode => PhaseView::RequestingCode,
            Phase::AwaitingAuthorization { device_code, elapsed_secs } =>
                PhaseView::AwaitingAuthorization {
                device_code: device_code@,
                elapsed_secs: *elapsed_secs as int,
            },
            Phase::Pausing { device_code, elapsed_secs } => PhaseView::Pausing {
                device_code: device_code@,
                elapsed_secs: *elapsed_secs as int,
            },
            Phase::AskingUsername => PhaseView::AskingUsername,
            Phase::AskingPassword { username } => PhaseView::AskingPassword {
                username: username@,
            },
            Phase::SigningIn => PhaseView::SigningIn,
            Phase::Finished => PhaseView::Finished,
            Phase::Failed(error) => PhaseView::Failed(error@),
        }
    }
}

/// What came of a request.
#[derive(Clone, Debug, PartialEq, Eq)]
pub enum Event {
    /// The configuration root is at `root`, and `status` is what stands
    /// there.
    StoreLocated { root: String, status: RootStatus },
    /// The work was done: the root created, the file written, the pause
    /// over.
    Done,
    /// The credential file holds this text.
    CredentialsRead(String),
    /// The authorization server issued a device code.
    DeviceCodeIssued(DeviceCodeItem),
    /// The authorization server answered a check.
    TokenPolled(TokenInfo),
    /// The user typed this line.
    Answered(String),
    /// The identity service issued a token.
    SignedIn(TokenInfo),
    /// The work failed, with this text of the error.
    Failed(String),
}

pub enum EventView {
    StoreLocated { root: Seq<char>, status: RootStatus },
    Done,
    CredentialsRead(Seq<char>),
    DeviceCodeIssued(DeviceCodeItemView),
    TokenPolled(TokenInfoView),
    Answered(Seq<char>),
    SignedIn(TokenInfoView),
    Failed(Seq<char>),
}

impl View for Event {
    type V = EventView;

    open spec fn view(&self) -> EventView {
        match self {
            Event::StoreLocated { root, status } => EventView::StoreLocated {
                root: root@,
                status: *status,
            },
            Event::Done => EventView::Done,
            Event::CredentialsRead(text) => EventView::CredentialsRead(text@),
            Event::DeviceCodeIssued(item) => EventView::DeviceCodeIssued(item@),
            Event::TokenPolled(info) => EventView::TokenPolled(info@),
            Event::Answered(answer) => EventView::Answered(answer@),
            Event::SignedIn(info) => EventView::SignedIn(info@),
            Event::Failed(text) => EventView::Failed(text@),
        }
    }
}

impl DeepView for Event {
    type V = EventView;

    open spec fn deep_view(&self) -> EventView {
        self@
    }
}

/// The one thing to carry out next.
#[derive(Clone, Debug, PartialEq, Eq)]
pub enum Request {
    /// Find the configuration root and say what stands there.
    LocateStore,
    /// Create the configuration root, with the directories above it.
    CreateStore,
    /// Read the credential file.
    ReadCredentials,
    /// Replace what the credential file holds by `text`.
    WriteCredentials { text: String },
    /// Ask the authorization server for a device code, as the client with
    /// this identifier.
    RequestDeviceCode { client_id: u128 },
    /// Ask the authorization server whether the device code is authorized.
    PollToken { device_code: String },
    /// Let this many seconds pass.
    Wait { seconds: u64 },
    /// Print `prompt` without a line end and read one line, without echo
    /// where `hidden` is set.
    Ask { prompt: String, hidden: bool },
    /// Ask the identity service for a token.
    SignIn { username: String, password: String },
    /// End the run: it succeeded.
    Finish,
    /// End the run: it failed.
    Abort(LoginError),
}

pub enum RequestView {
    LocateStore,
    CreateStore,
    ReadCredentials,
    WriteCredentials { text: Seq<char> },
    RequestDeviceCode { client_id: u128 },
    PollToken { device_code: Seq<char> },
    Wait { seconds: u64 },
    Ask { prompt: Seq<char>, hidden: bool },
    SignIn { username: Seq<char>, password: Seq<char> },
    Finish,
    Abort(LoginErrorView),
}

impl View for Request {
    type V = RequestView;

    open spec fn view(&self) -> RequestView {
        match self {
            Request::LocateStore => RequestView::LocateStore,
            Request::CreateStore => RequestView::CreateStore,
            Request::ReadCredentials => RequestView::ReadCredentials,
            Request::WriteCredentials { text } => RequestView::WriteCredentials { text: text@ },
            Request::RequestDeviceCode { client_id } => RequestView::RequestDeviceCode {
                client_id: *client_id,
            },
            Request::PollToken { device_code } => RequestView::PollToken {
                device_code: device_code@,
            },
            Request::Wait { seconds } => RequestView::Wait { seconds: *seconds },
            Request::Ask { prompt, hidden } => RequestView::Ask {
                prompt: prompt@,
                hidden: *hidden,
            },
            Request::SignIn { username, password } => RequestView::SignIn {
                username: username@,
                password: password@,
            },
            Request::Finish => RequestView::Finish,
            Request::Abort(error) => RequestView::Abort(error@),
        }
    }
}

impl RequestView {
    /// Whether the request ends the run.
    pub open spec fn is_final(self) -> bool {
        self is Finish || self is Abort
    }

    /// Whether the request goes to a server.
    pub open spec fn is_network(self) -> bool {
        self is RequestDeviceCode || self is PollToken || self is SignIn
    }

    /// Whether the request changes what is on disk.
    pub open spec fn is_file_write(self) -> bool {
        self is CreateStore || self is WriteCredentials
    }
}

impl Request {
    /// Whether the request ends the run.
    pub fn is_final(&self) -> (is_final: bool)
        ensures
            is_final == self@.is_final(),
    {
        match self {
            Request::Finish => true,
            Request::Abort(_) => true,
            _ => false,
        }
    }
}

/// What the machine hands out: lines to print, each with a line end, and
/// then one request.
#[derive(Clone, Debug, PartialEq, Eq)]
pub struct Directive {
    pub lines: Vec<String>,
    pub request: Request,
}

pub struct DirectiveView {
    pub lines: Seq<Seq<char>>,
    pub request: RequestView,
}

impl View for Directive {
    type V = DirectiveView;

    open spec fn view(&self) -> DirectiveView {
        DirectiveView { lines: self.lines.deep_view(), request: self.request@ }
    }
}

impl DeepView for Directive {
    type V = DirectiveView;

    open spec fn deep_view(&self) -> DirectiveView {
        self@
    }
}

/// The line that tells the user where to go.
pub open spec fn open_notice(verification_url: Seq<char>) -> Seq<char> {
    "Open "@ + verification_url + " in your browser"@
}

/// The line that tells the user the one-time code.
pub open spec fn code_notice(user_code: Seq<char>) -> Seq<char> {
    "! Copy your one-time code: "@ + user_code
}

/// The text of the error that an event reports.
pub open spec fn failure_text(event: EventView) -> Seq<char> {
    match event {
        EventView::Failed(text) => text,
        _ => UNEXPECTED_REPLY@,
    }
}

/// What a reply to a check amounts to: anything but an answer with a token
/// is `Unready`, a failure of the check too.
pub open spec fn poll_reply(event: EventView) -> TokenReadinessView {
    checked(
        match event {
            EventView::TokenPolled(info) => Ok(info),
            _ => Err(failure_text(event)),
        },
    )
}

/// A move that prints nothing.
pub open spec fn go(phase: PhaseView, request: RequestView) -> (PhaseView, DirectiveView) {
    (phase, DirectiveView { lines: Seq::empty(), request })
}

/// A move that prints `lines` first.
pub open spec fn say(lines: Seq<Seq<char>>, phase: PhaseView, request: RequestView) -> (
    PhaseView,
    DirectiveView,
) {
    (phase, DirectiveView { lines, request })
}

/// The move that ends the run with `error`.
pub open spec fn fail(error: LoginErrorView) -> (PhaseView, DirectiveView) {
    go(PhaseView::Failed(error), RequestView::Abort(error))
}

/// The move that takes `connection` to the store, after `lines`.
pub open spec fn keep(lines: Seq<Seq<char>>, connection: LoginConnectionView) -> (
    PhaseView,
    DirectiveView,
) {
    say(lines, PhaseView::LocatingStore(PendingView::Write(connection)), RequestView::LocateStore)
}

/// The move once the configuration root is there.
pub open spec fn proceed(pending: PendingView) -> (PhaseView, DirectiveView) {
    match pending {
        PendingView::Read => go(PhaseView::Reading, RequestView::ReadCredentials),
        PendingView::Write(connection) => match pretty_text(connection.members()) {
            Some(text) => go(PhaseView::Writing, RequestView::WriteCredentials { text }),
            None => fail(LoginErrorView::Io(CANNOT_RENDER@)),
        },
    }
}

/// The move that asks for a device code and goes to `phase` to wait for it.
/// It needs the identifier of this tool as a client.
pub open spec fn request_code(phase: PhaseView) -> (PhaseView, DirectiveView) {
    match client_id_of(uuid_value(SPIN_CLIENT_ID@)) {
        Ok(client_id) => go(phase, RequestView::RequestDeviceCode { client_id }),
        Err(error) => fail(error),
    }
}

/// The move once the user name is known.
pub open spec fn after_username(command: LoginCommandView, username: Seq<char>) -> (
    PhaseView,
    DirectiveView,
) {
    match command.hippo_password {
        Some(password) => go(PhaseView::SigningIn, RequestView::SignIn { username, password }),
        None => go(
            PhaseView::AskingPassword { username },
            RequestView::Ask { prompt: PASSWORD_PROMPT@, hidden: true },
        ),
    }
}

/// The first move of a login by `method`.
pub open spec fn begin(command: LoginCommandView, method: AuthMethod) -> (
    PhaseView,
    DirectiveView,
) {
    match method {
        AuthMethod::Github => request_code(PhaseView::RequestingCode),
        AuthMethod::UsernameAndPassword => match command.hippo_username {
            Some(username) => after_username(command, username),
            None => go(
                PhaseView::AskingUsername,
                RequestView::Ask { prompt: USERNAME_PROMPT@, hidden: false },
            ),
        },
    }
}

/// The first move of a run. Options that contradict each other end it at
/// once.
pub open spec fn started(command: LoginCommandView) -> (PhaseView, DirectiveView) {
    match command.intent() {
        Err(error) => fail(error),
        Ok(IntentView::Status) => go(
            PhaseView::LocatingStore(PendingView::Read),
            RequestView::LocateStore,
        ),
        Ok(IntentView::GetDeviceCode) => request_code(PhaseView::FetchingCode),
        Ok(IntentView::CheckDeviceCode(device_code)) => go(
            PhaseView::CheckingCode,
            RequestView::PollToken { device_code },
        ),
        Ok(IntentView::Login) => match command.auth_method() {
            Selection::Use(method) => begin(command, method),
            Selection::Ask => go(
                PhaseView::ChoosingMethod,
                RequestView::Ask { prompt: METHOD_PROMPT@, hidden: false },
            ),
        },
    }
}

/// The move that `event` brings about in `phase`.
pub open spec fn next(
    command: LoginCommandView,
    policy: PollPolicy,
    phase: PhaseView,
    event: EventView,
) -> (PhaseView, DirectiveView) {
    match phase {
        PhaseView::LocatingStore(pending) => match event {
            EventView::StoreLocated { root, status } => match ensured(root, status) {
                Err(error) => fail(error),
                Ok(RootAction::Create) => go(
                    PhaseView::CreatingStore { pending, root },
                    RequestView::CreateStore,
                ),
                Ok(RootAction::Use) => proceed(pending),
            },
            _ => fail(LoginErrorView::Configuration(NO_CONFIG_DIRECTORY@)),
        },
        PhaseView::CreatingStore { pending, root } => match event {
            EventView::Done => proceed(pending),
            _ => fail(LoginErrorView::Configuration(cannot_create_message(root))),
        },
        PhaseView::Reading => match event {
            EventView::CredentialsRead(text) => say(
                seq![text],
                PhaseView::Finished,
                RequestView::Finish,
            ),
            _ => fail(LoginErrorView::Io(CANNOT_DISPLAY@)),
        },
        PhaseView::Writing => match event {
            EventView::Done => go(PhaseView::Finished, RequestView::Finish),
            _ => fail(LoginErrorView::Io(failure_text(event))),
        },
        PhaseView::FetchingCode => match event {
            EventView::DeviceCodeIssued(item) => match pretty_text(item.members()) {
                Some(text) => say(seq![text], PhaseView::Finished, RequestView::Finish),
                None => fail(LoginErrorView::Io(CANNOT_RENDER@)),
            },
            _ => fail(LoginErrorView::Boundary(failure_text(event))),
        },
        PhaseView::CheckingCode => match poll_reply(event) {
            TokenReadinessView::Ready(info) => match pretty_text(info.members()) {
                Some(text) => keep(seq![text], command.connection_for_token(info)),
                None => fail(LoginErrorView::Io(CANNOT_RENDER@)),
            },
            TokenReadinessView::Unready => say(
                seq![WAITING_MARKER@],
                PhaseView::Finished,
                RequestView::Finish,
            ),
        },
        PhaseView::ChoosingMethod => match event {
            EventView::Answered(answer) => match choice_of(trimmed(answer)) {
                Some(method) => begin(command, method),
                None => say(
                    seq![INVALID_CHOICE@],
                    PhaseView::ChoosingMethod,
                    RequestView::Ask { prompt: METHOD_PROMPT@, hidden: false },
                ),
            },
            _ => fail(LoginErrorView::Io(failure_text(event))),
        },
        PhaseView::RequestingCode => match event {
            EventView::DeviceCodeIssued(item) => say(
                seq![open_notice(item.verification_url), code_notice(item.user_code)],
                PhaseView::AwaitingAuthorization { device_code: item.device_code, elapsed_secs: 0 },
                RequestView::PollToken { device_code: item.device_code },
            ),
            _ => fail(LoginErrorView::Boundary(failure_text(event))),
        },
        PhaseView::AwaitingAuthorization { device_code, elapsed_secs } => match poll_reply(event) {
            TokenReadinessView::Ready(info) => keep(
                seq![AUTHORIZED_NOTICE@],
                command.connection_for_token(info),
            ),
            TokenReadinessView::Unready => say(
                seq![WAITING_NOTICE@],
                PhaseView::Pausing { device_code, elapsed_secs },
                RequestView::Wait { seconds: policy.interval_secs },
            ),
        },
        PhaseView::Pausing { device_code, elapsed_secs } => if elapsed_secs + policy.interval_secs
            > policy.timeout_secs {
            fail(LoginErrorView::Timeout)
        } else {
            go(
                PhaseView::AwaitingAuthorization {
                    device_code,
                    elapsed_secs: elapsed_secs + policy.interval_secs,
                },
                RequestView::PollToken { device_code },
            )
        },
        PhaseView::AskingUsername => match event {
            EventView::Answered(answer) => after_username(command, trimmed(answer)),
            _ => fail(LoginErrorView::Io(failure_text(event))),
        },
        PhaseView::AskingPassword { username } => match event {
            EventView::Answered(answer) => go(
                PhaseView::SigningIn,
                RequestView::SignIn { username, password: trimmed(answer) },
            ),
            _ => fail(LoginErrorView::Io(failure_text(event))),
        },
        PhaseView::SigningIn => match event {
            EventView::SignedIn(info) => keep(Seq::empty(), command.connection_with_registry(info)),
            _ => fail(
                LoginErrorView::IdentityService(
                    login_error_text(
                        failure_text(event),
                        described_error(parsed_members(failure_text(event))),
                    ),
                ),
            ),
        },
        PhaseView::Finished => go(PhaseView::Finished, RequestView::Finish),
        PhaseView::Failed(error) => fail(error),
    }
}

/// No lines.
fn no_lines() -> (lines: Vec<String>)
    ensures
        lines.deep_view() == Seq::<Seq<char>>::empty(),
{
    let lines: Vec<String> = Vec::new();
    assert(lines.deep_view() =~= Seq::<Seq<char>>::empty());
    lines
}

/// One line.
fn one_line(line: String) -> (lines: Vec<String>)
    ensures
        lines.deep_view() == seq![line@],
{
    let mut lines: Vec<String> = Vec::new();
    lines.push(line);
    assert(lines.deep_view() =~= seq![line@]);
    lines
}

/// Two lines.
fn two_lines(first: String, second: String) -> (lines: Vec<String>)
    ensures
        lines.deep_view() == seq![first@, second@],
{
    let mut lines: Vec<String> = Vec::new();
    lines.push(first);
    lines.push(second);
    assert(lines.deep_view() =~= seq![first@, second@]);
    lines
}

fn go_to(phase: Phase, request: Request) -> (after: (Phase, Directive))
    ensures
        (after.0@, after.1@) == go(phase@, request@),
{
    (phase, Directive { lines: no_lines(), request })
}

fn say_then(lines: Vec<String>, phase: Phase, request: Request) -> (after: (Phase, Directive))
    ensures
        (after.0@, after.1@) == say(lines.deep_view(), phase@, request@),
{
    (phase, Directive { lines, request })
}

fn fail_with(error: LoginError) -> (after: (Phase, Directive))
    ensures
        (after.0@, after.1@) == fail(error@),
{
    let kept = error.duplicate();
    go_to(Phase::Failed(kept), Request::Abort(error))
}

fn keep_connection(lines: Vec<String>, connection: LoginConnection) -> (after: (Phase, Directive))
    ensures
        (after.0@, after.1@) == keep(lines.deep_view(), connection@),
{
    say_then(lines, Phase::LocatingStore(Pending::Write(connection)), Request::LocateStore)
}

fn proceed_with(pending: Pending) -> (after: (Phase, Directive))
    ensures
        (after.0@, after.1@) == proceed(pending@),
{
    match pending {
        Pending::Read => go_to(Phase::Reading, Request::ReadCredentials),
        Pending::Write(connection) => match connection.to_pretty_json() {
            Some(text) => go_to(Phase::Writing, Request::WriteCredentials { text }),
            None => fail_with(LoginError::Io(String::from_str(CANNOT_RENDER))),
        },
    }
}

fn request_code_for(phase: Phase) -> (after: (Phase, Directive))
    ensures
        (after.0@, after.1@) == request_code(phase@),
{
    match client_id() {
        Ok(client_id) => go_to(phase, Request::RequestDeviceCode { client_id }),
        Err(error) => fail_with(error),
    }
}

fn after_username_of(command: &LoginCommand, username: String) -> (after: (Phase, Directive))
    ensures
        (after.0@, after.1@) == after_username(command@, username@),
{
    match &command.hippo_password {
        Some(password) => go_to(
            Phase::SigningIn,
            Request::SignIn { username, password: password.clone() },
        ),
        None => go_to(
            Phase::AskingPassword { username },
            Request::Ask { prompt: String::from_str(PASSWORD_PROMPT), hidden: true },
        ),
    }
}

fn begin_with(command: &LoginCommand, method: AuthMethod) -> (after: (Phase, Directive))
    ensures
        (after.0@, after.1@) == begin(command@, method),
{
    match method {
        AuthMethod::Github => request_code_for(Phase::RequestingCode),
        AuthMethod::UsernameAndPassword => match &command.hippo_username {
            Some(username) => after_username_of(command, username.clone()),
            None => go_to(
                Phase::AskingUsername,
                Request::Ask { prompt: String::from_str(USERNAME_PROMPT), hidden: false },
            ),
        },
    }
}

fn failure_text_of(event: Event) -> (text: String)
    ensures
        text@ == failure_text(event@),
{
    match event {
        Event::Failed(text) => text,
        _ => String::from_str(UNEXPECTED_REPLY),
    }
}

fn poll_readiness(event: Event) -> (readiness: TokenReadiness)
    ensures
        readiness@ == poll_reply(event@),
{
    match event {
        Event::TokenPolled(info) => check_once(Ok(info)),
        other => check_once(Err(failure_text_of(other))),
    }
}

/// The first move of a run of `command`.
pub fn start(command: &LoginCommand) -> (after: (Phase, Directive))
    ensures
        (after.0@, after.1@) == started(command@),
{
    match command.intent() {
        Err(error) => fail_with(error),
        Ok(Intent::Status) => go_to(Phase::LocatingStore(Pending::Read), Request::LocateStore),
        Ok(Intent::GetDeviceCode) => request_code_for(Phase::FetchingCode),
        Ok(Intent::CheckDeviceCode(device_code)) => go_to(
            Phase::CheckingCode,
            Request::PollToken { device_code },
        ),
        Ok(Intent::Login) => match command.auth_method() {
            Selection::Use(method) => begin_with(command, method),
            Selection::Ask => go_to(
                Phase::ChoosingMethod,
                Request::Ask { prompt: String::from_str(METHOD_PROMPT), hidden: false },
            ),
        },
    }
}

/// The move that `event` brings about in `phase`: the phase that follows,
/// and what to print and to carry out next.
pub fn step(command: &LoginCommand, policy: &PollPolicy, phase: Phase, event: Event) -> (after: (
    Phase,
    Directive,
))
    ensures
        (after.0@, after.1@) == next(command@, *policy, phase@, event@),
{
    match phase {
        Phase::LocatingStore(pending) => match event {
            Event::StoreLocated { root, status } => match ensure(root.as_str(), status) {
                Err(error) => fail_with(error),
                Ok(RootAction::Create) => go_to(
                    Phase::CreatingStore { pending, root },
                    Request::CreateStore,
                ),
                Ok(RootAction::Use) => proceed_with(pending),
            },
            _ => fail_with(LoginError::Configuration(String::from_str(NO_CONFIG_DIRECTORY))),
        },
        Phase::CreatingStore { pending, root } => match event {
            Event::Done => proceed_with(pending),
            _ => fail_with(cannot_create(root.as_str())),
        },
        Phase::Reading => match event {
            Event::CredentialsRead(text) => say_then(
                one_line(text),
                Phase::Finished,
                Request::Finish,
            ),
            _ => fail_with(LoginError::Io(String::from_str(CANNOT_DISPLAY))),
        },
        Phase::Writing => match event {
            Event::Done => go_to(Phase::Finished, Request::Finish),
            other => fail_with(LoginError::Io(failure_text_of(other))),
        },
        Phase::FetchingCode => match event {
            Event::DeviceCodeIssued(item) => match item.to_pretty_json() {
                Some(text) => say_then(one_line(text), Phase::Finished, Request::Finish),
                None => fail_with(LoginError::Io(String::from_str(CANNOT_RENDER))),
            },
            other => fail_with(LoginError::Boundary(failure_text_of(other))),
        },
        Phase::CheckingCode => match poll_readiness(event) {
            TokenReadiness::Ready(info) => match info.to_pretty_json() {
                Some(text) => keep_connection(
                    one_line(text),
                    command.login_connection_for_token(info),
                ),
                None => fail_with(LoginError::Io(String::from_str(CANNOT_RENDER))),
            },
            TokenReadiness::Unready => say_then(
                one_line(String::from_str(WAITING_MARKER)),
                Phase::Finished,
                Request::Finish,
            ),
        },
        Phase::ChoosingMethod => match event {
            Event::Answered(answer) => match auth_method_from_answer(answer.as_str()) {
                Some(method) => begin_with(command, method),
                None => say_then(
                    one_line(String::from_str(INVALID_CHOICE)),
                    Phase::ChoosingMethod,
                    Request::Ask { prompt: String::from_str(METHOD_PROMPT), hidden: false },
                ),
            },
            other => fail_with(LoginError::Io(failure_text_of(other))),
        },
        Phase::RequestingCode => match event {
            Event::DeviceCodeIssued(item) => {
                let open = joined3("Open ", item.verification_url.as_str(), " in your browser");
                let code = joined("! Copy your one-time code: ", item.user_code.as_str());
                let device_code = item.device_code.clone();
                say_then(
                    two_lines(open, code),
                    Phase::AwaitingAuthorization { device_code: item.device_code, elapsed_secs: 0 },
                    Request::PollToken { device_code },
                )
            },
            other => fail_with(LoginError::Boundary(failure_text_of(other))),
        },
        Phase::AwaitingAuthorization { device_code, elapsed_secs } => match poll_readiness(event) {
            TokenReadiness::Ready(info) => keep_connection(
                one_line(String::from_str(AUTHORIZED_NOTICE)),
                command.login_connection_for_token(info),
            ),
            TokenReadiness::Unready => say_then(
                one_line(String::from_str(WAITING_NOTICE)),
                Phase::Pausing { device_code, elapsed_secs },
                Request::Wait { seconds: policy.interval_secs },
            ),
        },
        Phase::Pausing { device_code, elapsed_secs } => {
            if policy.interval_secs > policy.timeout_secs || elapsed_secs > policy.timeout_secs
                - policy.interval_secs {
                fail_with(LoginError::Timeout)
            } else {
                let asked = device_code.clone();
                go_to(
                    Phase::AwaitingAuthorization {
                        device_code,
                        elapsed_secs: elapsed_secs + policy.interval_secs,
                    },
                    Request::PollToken { device_code: asked },
                )
            }
        },
        Phase::AskingUsername => match event {
            Event::Answered(answer) => after_username_of(command, trim(answer.as_str()).to_owned()),
            other => fail_with(LoginError::Io(failure_text_of(other))),
        },
        Phase::AskingPassword { username } => match event {
            Event::Answered(answer) => go_to(
                Phase::SigningIn,
                Request::SignIn { username, password: trim(answer.as_str()).to_owned() },
            ),
            other => fail_with(LoginError::Io(failure_text_of(other))),
        },
        Phase::SigningIn => match event {
            Event::SignedIn(info) => keep_connection(
                no_lines(),
                command.login_connection_with_registry(info),
            ),
            other => {
                let text = failure_text_of(other);
                fail_with(LoginError::IdentityService(format_login_error(text.as_str())))
            },
        },
        Phase::Finished => go_to(Phase::Finished, Request::Finish),
        Phase::Failed(error) => fail_with(error),
    }
}

} // verus!
