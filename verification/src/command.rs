//! The commands that the user interface may invoke, and their handlers.
//!
//! The set of commands is closed: an invocation names one of six commands
//! and carries its string arguments, or it is no command at all. A handler
//! either answers at once from the state of the process, or asks the shell
//! for one piece of outside work and answers when the shell reports back.
//! Every answer is a success value or an error message, never both and never
//! neither; no handler shares state with another.

use vstd::prelude::*;
use crate::info::{
    app_info_of, get_app_info, get_system_info, system_info_of, AppInfo, AppInfoView,
    HostEnvironment, HostEnvironmentView, SystemInfo, SystemInfoView,
};
use crate::probe::{
    after_body, after_response, health_endpoint, health_url, on_body, on_response, probe_result,
    ProbeStep, ProbeStepView, SendOutcome, SendOutcomeView,
};
use crate::status::code_digits;
use crate::text::{joined, mentions, result_text, same_text};

verus! {

/// A command of the user interface, with its arguments.
#[derive(Debug, PartialEq, Eq)]
pub enum Command {
    /// The user interface has finished loading.
    AppReady,
    /// Probe the backend's health endpoint.
    TestBackendConnection,
    /// Report what application is running.
    GetAppInfo,
    /// Hand a URL to the operating system to open.
    OpenExternalUrl { url: String },
    /// Show a native notification.
    ShowNotification { title: String, body: String },
    /// Report what platform the process runs on.
    GetSystemInfo,
}

/// The model of a [`Command`].
pub enum CommandView {
    AppReady,
    TestBackendConnection,
    GetAppInfo,
    OpenExternalUrl { url: Seq<char> },
    ShowNotification { title: Seq<char>, body: Seq<char> },
    GetSystemInfo,
}

impl View for Command {
    type V = CommandView;

    open spec fn view(&self) -> CommandView {
        match self {
            Command::AppReady => CommandView::AppReady,
            Command::TestBackendConnection => CommandView::TestBackendConnection,
            Command::GetAppInfo => CommandView::GetAppInfo,
            Command::OpenExternalUrl { url } => CommandView::OpenExternalUrl { url: url@ },
            Command::ShowNotification { title, body } => CommandView::ShowNotification {
                title: title@,
                body: body@,
            },
            Command::GetSystemInfo => CommandView::GetSystemInfo,
        }
    }
}

impl CommandView {
    /// The name under which the command is registered.
    pub open spec fn name(self) -> Seq<char> {
        match self {
            CommandView::AppReady => "app_ready"@,
            CommandView::TestBackendConnection => "test_backend_connection"@,
            CommandView::GetAppInfo => "get_app_info"@,
            CommandView::OpenExternalUrl { .. } => "open_external_url"@,
            CommandView::ShowNotification { .. } => "show_notification"@,
            CommandView::GetSystemInfo => "get_system_info"@,
        }
    }

    /// The arguments that the command carries, in order.
    pub open spec fn arguments(self) -> Seq<Seq<char>> {
        match self {
            CommandView::OpenExternalUrl { url } => seq![url],
            CommandView::ShowNotification { title, body } => seq![title, body],
            _ => Seq::empty(),
        }
    }
}

/// The command that an invocation stands for: the one registered under the
/// name, where the invocation carries as many arguments as that command
/// takes. Any other invocation is rejected.
pub open spec fn resolved(name: Seq<char>, arguments: Seq<Seq<char>>) -> Option<CommandView> {
    if name == "app_ready"@ && arguments.len() == 0 {
        Some(CommandView::AppReady)
    } else if name == "test_backend_connection"@ && arguments.len() == 0 {
        Some(CommandView::TestBackendConnection)
    } else if name == "get_app_info"@ && arguments.len() == 0 {
        Some(CommandView::GetAppInfo)
    } else if name == "open_external_url"@ && arguments.len() == 1 {
        Some(CommandView::OpenExternalUrl { url: arguments[0] })
    } else if name == "show_notification"@ && arguments.len() == 2 {
        Some(CommandView::ShowNotification { title: arguments[0], body: arguments[1] })
    } else if name == "get_system_info"@ && arguments.len() == 0 {
        Some(CommandView::GetSystemInfo)
    } else {
        None
    }
}

/// The views of a list of arguments.
pub open spec fn argument_texts(arguments: Seq<String>) -> Seq<Seq<char>> {
    arguments.map_values(|argument: String| argument@)
}

/// The view of a command that may be missing.
pub open spec fn command_view(command: Option<Command>) -> Option<CommandView> {
    match command {
        Some(c) => Some(c@),
        None => None,
    }
}

impl Command {
    /// The name under which the command is registered.
    pub fn name(&self) -> (name: &'static str)
        ensures
            name@ == self@.name(),
    {
        match self {
            Command::AppReady => "app_ready",
            Command::TestBackendConnection => "test_backend_connection",
            Command::GetAppInfo => "get_app_info",
            Command::OpenExternalUrl { .. } => "open_external_url",
            Command::ShowNotification { .. } => "show_notification",
            Command::GetSystemInfo => "get_system_info",
        }
    }

    /// Reads an invocation: the command registered under `name`, with the
    /// given arguments, or `None` where no command has that name or the
    /// command takes another number of arguments.
    pub fn resolve(name: &str, arguments: &[String]) -> (command: Option<Command>)
        ensures
            command_view(command) == resolved(name@, argument_texts(arguments@)),
    {
        let count = arguments.len();
        if same_text(name, "app_ready") && count == 0 {
            Some(Command::AppReady)
        } else if same_text(name, "test_backend_connection") && count == 0 {
            Some(Command::TestBackendConnection)
        } else if same_text(name, "get_app_info") && count == 0 {
            Some(Command::GetAppInfo)
        } else if same_text(name, "open_external_url") && count == 1 {
            Some(Command::OpenExternalUrl { url: arguments[0].clone() })
        } else if same_text(name, "show_notification") && count == 2 {
            Some(
                Command::ShowNotification {
                    title: arguments[0].clone(),
                    body: arguments[1].clone(),
                },
            )
        } else if same_text(name, "get_system_info") && count == 0 {
            Some(Command::GetSystemInfo)
        } else {
            None
        }
    }
}

/// Every command is found again under its own name and arguments, and an
/// invocation never resolves to a command with another name or other
/// arguments: each registered name belongs to exactly one command.
pub proof fn lemma_registry_is_exact(
    command: CommandView,
    name: Seq<char>,
    arguments: Seq<Seq<char>>,
)
    ensures
        resolved(command.name(), command.arguments()) == Some(command),
        resolved(name, arguments) == Some(command) <==> (name == command.name() && arguments
            == command.arguments()),
{
    reveal_strlit("app_ready");
    reveal_strlit("test_backend_connection");
    reveal_strlit("get_app_info");
    reveal_strlit("open_external_url");
    reveal_strlit("show_notification");
    reveal_strlit("get_system_info");
    // The six names differ in length, but for two that differ in their first
    // character.
    assert("app_ready"@.len() == 9);
    assert("test_backend_connection"@.len() == 23);
    assert("get_app_info"@.len() == 12);
    assert("open_external_url"@.len() == 17);
    assert("show_notification"@.len() == 17);
    assert("get_system_info"@.len() == 15);
    assert("open_external_url"@[0] != "show_notification"@[0]);
    if resolved(name, arguments) == Some(command) {
        assert(arguments =~= command.arguments());
    }
}

/// What a command hands back on success.
#[derive(Debug, PartialEq, Eq)]
pub enum Reply {
    /// A line of text.
    Text(String),
    /// The application report.
    AppInfo(AppInfo),
    /// The platform report.
    SystemInfo(SystemInfo),
    /// Nothing: the command was carried out.
    Unit,
}

/// The model of a [`Reply`].
pub enum ReplyView {
    Text(Seq<char>),
    AppInfo(AppInfoView),
    SystemInfo(SystemInfoView),
    Unit,
}

impl View for Reply {
    type V = ReplyView;

    open spec fn view(&self) -> ReplyView {
        match self {
            Reply::Text(text) => ReplyView::Text(text@),
            Reply::AppInfo(info) => ReplyView::AppInfo(info@),
            Reply::SystemInfo(info) => ReplyView::SystemInfo(info@),
            Reply::Unit => ReplyView::Unit,
        }
    }
}

/// The model of a command's answer: a success value or an error message.
pub type AnswerView = Result<ReplyView, Seq<char>>;

/// The view of an answer.
pub open spec fn answer_view(answer: Result<Reply, String>) -> AnswerView {
    match answer {
        Ok(reply) => Ok(reply@),
        Err(message) => Err(message@),
    }
}

/// Where a command stands once a handler has run.
#[derive(Debug, PartialEq, Eq)]
pub enum Progress {
    /// The command is answered.
    Finished(Result<Reply, String>),
    /// The shell is to send a GET request to this URL and to report what
    /// came of it to [`response_received`].
    SendRequest { url: String },
    /// The shell is to read the body of the response as text and to report
    /// what came of it to [`body_received`].
    ReadBody,
    /// The shell is to hand this URL to the operating system's default
    /// opener and to report what came of it to [`url_opened`].
    OpenUrl { url: String },
}

/// The model of a [`Progress`].
pub enum ProgressView {
    Finished(AnswerView),
    SendRequest { url: Seq<char> },
    ReadBody,
    OpenUrl { url: Seq<char> },
}

impl View for Progress {
    type V = ProgressView;

    open spec fn view(&self) -> ProgressView {
        match self {
            Progress::Finished(answer) => ProgressView::Finished(answer_view(*answer)),
            Progress::SendRequest { url } => ProgressView::SendRequest { url: url@ },
            Progress::ReadBody => ProgressView::ReadBody,
            Progress::OpenUrl { url } => ProgressView::OpenUrl { url: url@ },
        }
    }
}

/// What the application answers once the user interface is ready.
pub open spec fn ready_message() -> Seq<char> {
    "App initialized successfully"@
}

/// The line that the shell logs for a notification.
pub open spec fn notification_text(title: Seq<char>, body: Seq<char>) -> Seq<char> {
    "📢 Notification: "@ + title + " - "@ + body
}

/// An answer of text, as a command's answer.
pub open spec fn text_answer(result: Result<Seq<char>, Seq<char>>) -> AnswerView {
    match result {
        Ok(text) => Ok(ReplyView::Text(text)),
        Err(message) => Err(message),
    }
}

/// Where each command stands after its handler has run.
pub open spec fn dispatched(command: CommandView, host: HostEnvironmentView) -> ProgressView {
    match command {
        CommandView::AppReady => ProgressView::Finished(Ok(ReplyView::Text(ready_message()))),
        CommandView::TestBackendConnection => ProgressView::SendRequest { url: health_url() },
        CommandView::GetAppInfo => ProgressView::Finished(
            Ok(ReplyView::AppInfo(app_info_of(host))),
        ),
        CommandView::OpenExternalUrl { url } => ProgressView::OpenUrl { url },
        CommandView::ShowNotification { .. } => ProgressView::Finished(Ok(ReplyView::Unit)),
        CommandView::GetSystemInfo => ProgressView::Finished(
            Ok(ReplyView::SystemInfo(system_info_of(host))),
        ),
    }
}

/// Where the probe stands once the request has been sent.
pub open spec fn after_sending(sent: SendOutcomeView) -> ProgressView {
    match after_response(sent) {
        ProbeStepView::ReadBody => ProgressView::ReadBody,
        ProbeStepView::Finished(result) => ProgressView::Finished(text_answer(result)),
    }
}

/// The probe's answer once the body has been read.
pub open spec fn after_reading(body: Result<Seq<char>, Seq<char>>) -> AnswerView {
    text_answer(after_body(body))
}

/// The answer to a request to open a URL, once the operating system has
/// taken the URL or refused it.
pub open spec fn after_opening(handoff: Result<(), Seq<char>>) -> AnswerView {
    match handoff {
        Ok(_) => Ok(ReplyView::Unit),
        Err(message) => Err(message),
    }
}

/// The view of what a hand-off to the operating system gave.
pub open spec fn handoff_view(handoff: Result<(), String>) -> Result<(), Seq<char>> {
    match handoff {
        Ok(_) => Ok(()),
        Err(message) => Err(message@),
    }
}

/// The answer to a whole invocation, from the command and from what the
/// outside work gave, as far as the command asks for any: what sending the
/// request gave, what reading the body gave, and what the hand-off gave.
pub open spec fn answer_of(
    command: CommandView,
    host: HostEnvironmentView,
    sent: SendOutcomeView,
    body: Result<Seq<char>, Seq<char>>,
    handoff: Result<(), Seq<char>>,
) -> AnswerView {
    match dispatched(command, host) {
        ProgressView::Finished(answer) => answer,
        ProgressView::OpenUrl { .. } => after_opening(handoff),
        ProgressView::SendRequest { .. } | ProgressView::ReadBody => match after_sending(sent) {
            ProgressView::Finished(answer) => answer,
            _ => after_reading(body),
        },
    }
}

/// Confirms that the application is initialized. Never fails.
pub fn app_ready() -> (answer: Result<String, String>)
    ensures
        result_text(answer) == Ok::<Seq<char>, Seq<char>>(ready_message()),
{
    Ok("App initialized successfully".to_owned())
}

/// Starts the backend health probe: the shell is to send one GET request to
/// the health endpoint.
pub fn test_backend_connection() -> (progress: Progress)
    ensures
        progress@ == (ProgressView::SendRequest { url: health_url() }),
{
    Progress::SendRequest { url: health_endpoint().to_owned() }
}

/// Starts the opening of a URL: the shell is to hand the URL, unchanged, to
/// the operating system.
pub fn open_external_url(url: String) -> (progress: Progress)
    ensures
        progress@ == (ProgressView::OpenUrl { url: url@ }),
{
    Progress::OpenUrl { url }
}

/// Takes a notification. Nothing is shown yet; the command succeeds for
/// every title and body, the empty ones included.
pub fn show_notification(title: String, body: String) -> (answer: Result<(), String>)
    ensures
        answer is Ok,
{
    Ok(())
}

/// The line that the shell logs when a notification is taken.
pub fn notification_line(title: &str, body: &str) -> (line: String)
    ensures
        line@ == notification_text(title@, body@),
{
    let head = joined("📢 Notification: ", title);
    let tail = joined(" - ", body);
    let line = joined(head.as_str(), tail.as_str());
    assert(line@ =~= notification_text(title@, body@));
    line
}

/// Routes a command to its handler and reports where the command stands:
/// answered, or waiting for outside work that the shell has to do.
pub fn dispatch(command: Command, host: &HostEnvironment) -> (progress: Progress)
    ensures
        progress@ == dispatched(command@, host@),
{
    match command {
        Command::AppReady => match app_ready() {
            Ok(text) => Progress::Finished(Ok(Reply::Text(text))),
            Err(message) => Progress::Finished(Err(message)),
        },
        Command::TestBackendConnection => test_backend_connection(),
        Command::GetAppInfo => match get_app_info(host) {
            Ok(info) => Progress::Finished(Ok(Reply::AppInfo(info))),
            Err(message) => Progress::Finished(Err(message)),
        },
        Command::OpenExternalUrl { url } => open_external_url(url),
        Command::ShowNotification { title, body } => match show_notification(title, body) {
            Ok(_) => Progress::Finished(Ok(Reply::Unit)),
            Err(message) => Progress::Finished(Err(message)),
        },
        Command::GetSystemInfo => match get_system_info(host) {
            Ok(info) => Progress::Finished(Ok(Reply::SystemInfo(info))),
            Err(message) => Progress::Finished(Err(message)),
        },
    }
}

/// Takes what came of sending the probe's request. Nothing is sent a second
/// time: the probe ends with an error, or goes on to read the body. An error
/// for a status other than success mentions the three digits of its code.
pub fn response_received(sent: SendOutcome) -> (progress: Progress)
    ensures
        progress@ == after_sending(sent@),
        sent@ matches SendOutcomeView::Response(code) ==> !(200 <= code < 300) ==> (progress@ matches
        ProgressView::Finished(Err(message)) && mentions(message, code_digits(code))),
{
    match on_response(sent) {
        ProbeStep::ReadBody => Progress::ReadBody,
        ProbeStep::Finished(Ok(text)) => Progress::Finished(Ok(Reply::Text(text))),
        ProbeStep::Finished(Err(message)) => Progress::Finished(Err(message)),
    }
}

/// Takes what came of reading the response's body, and answers the probe.
pub fn body_received(body: Result<String, String>) -> (progress: Progress)
    ensures
        progress@ == ProgressView::Finished(after_reading(result_text(body))),
{
    match on_body(body) {
        Ok(text) => Progress::Finished(Ok(Reply::Text(text))),
        Err(message) => Progress::Finished(Err(message)),
    }
}

/// Takes what came of handing a URL to the operating system, and answers
/// the command: success with nothing to report, or the failure as the
/// operating system described it.
pub fn url_opened(handoff: Result<(), String>) -> (progress: Progress)
    ensures
        progress@ == ProgressView::Finished(after_opening(handoff_view(handoff))),
{
    match handoff {
        Ok(_) => Progress::Finished(Ok(Reply::Unit)),
        Err(message) => Progress::Finished(Err(message)),
    }
}

/// Every invocation is answered, whatever the outside work gives: a command
/// is answered at once, or after the hand-off that it asked for, or after
/// the request and, at most, the reading of the body. The answer is a
/// success or an error, never both and never neither. The four commands
/// that read only the state of the process never fail.
pub proof fn lemma_every_command_is_answered(
    command: CommandView,
    host: HostEnvironmentView,
    sent: SendOutcomeView,
    body: Result<Seq<char>, Seq<char>>,
    handoff: Result<(), Seq<char>>,
)
    ensures
        ({
            let answer = answer_of(command, host, sent, body, handoff);
            &&& (answer is Ok) != (answer is Err)
            &&& dispatched(command, host) !is ReadBody
            &&& after_sending(sent) is Finished || after_sending(sent) is ReadBody
            &&& command is AppReady || command is GetAppInfo || command is ShowNotification
                || command is GetSystemInfo ==> answer is Ok && dispatched(command, host)
                == ProgressView::Finished(answer)
            &&& command is OpenExternalUrl ==> answer == after_opening(handoff)
            &&& command is TestBackendConnection ==> answer == text_answer(
                probe_result(sent, body),
            )
        }),
{
}

} // verus!
