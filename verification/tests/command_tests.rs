use fattura_analyzer::command::{
    app_ready, body_received, dispatch, notification_line, open_external_url, response_received,
    show_notification, test_backend_connection, url_opened, Command, Progress, Reply,
};
use fattura_analyzer::info::{AppInfo, HostEnvironment, SystemInfo};
use fattura_analyzer::probe::SendOutcome;
use fattura_analyzer::status::HttpStatus;

fn host() -> HostEnvironment {
    HostEnvironment {
        version: "2.0.0".to_string(),
        runtime_version: "1.8.3".to_string(),
        os: "macos".to_string(),
        arch: "aarch64".to_string(),
        family: "unix".to_string(),
        exe_suffix: String::new(),
        dll_prefix: "lib".to_string(),
        dll_suffix: ".dylib".to_string(),
        debug: false,
    }
}

fn all_commands() -> Vec<Command> {
    vec![
        Command::AppReady,
        Command::TestBackendConnection,
        Command::GetAppInfo,
        Command::OpenExternalUrl { url: "https://example.com/".to_string() },
        Command::ShowNotification { title: "Saved".to_string(), body: "3 invoices".to_string() },
        Command::GetSystemInfo,
    ]
}

fn strings(items: &[&str]) -> Vec<String> {
    items.iter().map(|item| item.to_string()).collect()
}

/// Carries a command through to its answer, as the shell does, with a
/// backend and an operating system that behave as given.
fn invoke(
    command: Command,
    sent: SendOutcome,
    body: Result<String, String>,
    handoff: Result<(), String>,
) -> Result<Reply, String> {
    let mut progress = dispatch(command, &host());
    let mut sent = Some(sent);
    let mut body = Some(body);
    let mut handoff = Some(handoff);
    let mut steps = 0;
    loop {
        steps += 1;
        assert!(steps <= 3, "a command takes at most two pieces of outside work");
        progress = match progress {
            Progress::Finished(answer) => return answer,
            Progress::SendRequest { url } => {
                assert_eq!(url, "http://127.0.0.1:8000/health");
                response_received(sent.take().expect("one request per probe"))
            }
            Progress::ReadBody => body_received(body.take().expect("one body per probe")),
            Progress::OpenUrl { .. } => url_opened(handoff.take().expect("one hand-off")),
        };
    }
}

fn ok_backend() -> (SendOutcome, Result<String, String>) {
    (SendOutcome::Response(HttpStatus::new(200).unwrap()), Ok("OK".to_string()))
}

#[test]
fn commands_are_registered_under_their_names() {
    let names: Vec<&str> = all_commands().iter().map(|command| command.name()).collect();
    assert_eq!(
        names,
        vec![
            "app_ready",
            "test_backend_connection",
            "get_app_info",
            "open_external_url",
            "show_notification",
            "get_system_info",
        ]
    );
}

#[test]
fn invocations_without_arguments_resolve_by_name() {
    assert_eq!(Command::resolve("app_ready", &[]), Some(Command::AppReady));
    assert_eq!(
        Command::resolve("test_backend_connection", &[]),
        Some(Command::TestBackendConnection)
    );
    assert_eq!(Command::resolve("get_app_info", &[]), Some(Command::GetAppInfo));
    assert_eq!(Command::resolve("get_system_info", &[]), Some(Command::GetSystemInfo));
}

#[test]
fn invocations_with_arguments_carry_them_in_order() {
    assert_eq!(
        Command::resolve("open_external_url", &strings(&["https://example.com/a?b=c"])),
        Some(Command::OpenExternalUrl { url: "https://example.com/a?b=c".to_string() })
    );
    assert_eq!(
        Command::resolve("show_notification", &strings(&["Title", "Body"])),
        Some(Command::ShowNotification { title: "Title".to_string(), body: "Body".to_string() })
    );
    assert_eq!(
        Command::resolve("show_notification", &strings(&["", ""])),
        Some(Command::ShowNotification { title: String::new(), body: String::new() })
    );
}

#[test]
fn unregistered_names_are_rejected() {
    assert_eq!(Command::resolve("", &[]), None);
    assert_eq!(Command::resolve("app_read", &[]), None);
    assert_eq!(Command::resolve("app_ready ", &[]), None);
    assert_eq!(Command::resolve("App_Ready", &[]), None);
    assert_eq!(Command::resolve("get_app_infos", &[]), None);
    assert_eq!(Command::resolve("quit", &[]), None);
    assert_eq!(Command::resolve("open_external_urls", &strings(&["x"])), None);
}

#[test]
fn invocations_with_the_wrong_number_of_arguments_are_rejected() {
    assert_eq!(Command::resolve("app_ready", &strings(&["x"])), None);
    assert_eq!(Command::resolve("test_backend_connection", &strings(&["x"])), None);
    assert_eq!(Command::resolve("get_app_info", &strings(&["x"])), None);
    assert_eq!(Command::resolve("get_system_info", &strings(&["x", "y"])), None);
    assert_eq!(Command::resolve("open_external_url", &[]), None);
    assert_eq!(Command::resolve("open_external_url", &strings(&["a", "b"])), None);
    assert_eq!(Command::resolve("show_notification", &[]), None);
    assert_eq!(Command::resolve("show_notification", &strings(&["a"])), None);
    assert_eq!(Command::resolve("show_notification", &strings(&["a", "b", "c"])), None);
}

#[test]
fn every_command_is_found_again_under_its_name() {
    for command in all_commands() {
        let arguments = match &command {
            Command::OpenExternalUrl { url } => vec![url.clone()],
            Command::ShowNotification { title, body } => vec![title.clone(), body.clone()],
            _ => Vec::new(),
        };
        assert_eq!(Command::resolve(command.name(), &arguments), Some(command));
    }
}

#[test]
fn registered_names_are_pairwise_distinct() {
    let commands = all_commands();
    for (i, a) in commands.iter().enumerate() {
        for (j, b) in commands.iter().enumerate() {
            assert_eq!(a.name() == b.name(), i == j);
        }
    }
}

#[test]
fn app_ready_confirms_initialization() {
    assert_eq!(app_ready(), Ok("App initialized successfully".to_string()));
    assert_eq!(
        dispatch(Command::AppReady, &host()),
        Progress::Finished(Ok(Reply::Text("App initialized successfully".to_string())))
    );
}

#[test]
fn test_backend_connection_asks_for_one_request() {
    let expected = Progress::SendRequest { url: "http://127.0.0.1:8000/health".to_string() };
    assert_eq!(test_backend_connection(), expected);
    assert_eq!(dispatch(Command::TestBackendConnection, &host()), expected);
}

#[test]
fn get_app_info_answers_with_the_report() {
    assert_eq!(
        dispatch(Command::GetAppInfo, &host()),
        Progress::Finished(Ok(Reply::AppInfo(AppInfo {
            name: "FatturaAnalyzer v2".to_string(),
            version: "2.0.0".to_string(),
            tauri_version: "1.8.3".to_string(),
            platform: "macos".to_string(),
            arch: "aarch64".to_string(),
            debug: false,
        })))
    );
}

#[test]
fn get_system_info_answers_with_the_report() {
    assert_eq!(
        dispatch(Command::GetSystemInfo, &host()),
        Progress::Finished(Ok(Reply::SystemInfo(SystemInfo {
            os: "macos".to_string(),
            arch: "aarch64".to_string(),
            family: "unix".to_string(),
            exe_suffix: String::new(),
            dll_prefix: "lib".to_string(),
            dll_suffix: ".dylib".to_string(),
        })))
    );
}

#[test]
fn open_external_url_hands_the_url_on_unchanged() {
    let url = "https://example.com/fatture?anno=2024&q=è#top";
    let expected = Progress::OpenUrl { url: url.to_string() };
    assert_eq!(open_external_url(url.to_string()), expected);
    assert_eq!(dispatch(Command::OpenExternalUrl { url: url.to_string() }, &host()), expected);
    assert_eq!(open_external_url(String::new()), Progress::OpenUrl { url: String::new() });
}

#[test]
fn opened_url_answers_with_nothing() {
    assert_eq!(url_opened(Ok(())), Progress::Finished(Ok(Reply::Unit)));
}

#[test]
fn refused_url_answers_with_the_failure() {
    assert_eq!(
        url_opened(Err("No such file or directory (os error 2)".to_string())),
        Progress::Finished(Err("No such file or directory (os error 2)".to_string()))
    );
}

#[test]
fn show_notification_always_succeeds() {
    assert_eq!(show_notification("Saved".to_string(), "3 invoices".to_string()), Ok(()));
    assert_eq!(show_notification(String::new(), String::new()), Ok(()));
    assert_eq!(show_notification(String::new(), "body only".to_string()), Ok(()));
    assert_eq!(show_notification("title only".to_string(), String::new()), Ok(()));
    assert_eq!(show_notification("📢".to_string(), "è\n\t\"quoted\"".to_string()), Ok(()));
    let long = "x".repeat(100_000);
    assert_eq!(show_notification(long.clone(), long), Ok(()));
    assert_eq!(
        dispatch(
            Command::ShowNotification { title: String::new(), body: String::new() },
            &host()
        ),
        Progress::Finished(Ok(Reply::Unit))
    );
}

#[test]
fn notification_line_names_title_and_body() {
    assert_eq!(notification_line("Saved", "3 invoices"), "📢 Notification: Saved - 3 invoices");
    assert_eq!(notification_line("", ""), "📢 Notification:  - ");
    assert_eq!(notification_line("a - b", "c"), "📢 Notification: a - b - c");
}

#[test]
fn response_with_success_status_asks_for_the_body() {
    assert_eq!(
        response_received(SendOutcome::Response(HttpStatus::new(200).unwrap())),
        Progress::ReadBody
    );
}

#[test]
fn response_with_error_status_answers_with_an_error() {
    assert_eq!(
        response_received(SendOutcome::Response(HttpStatus::new(503).unwrap())),
        Progress::Finished(Err("❌ Backend returned status: 503 Service Unavailable".to_string()))
    );
}

#[test]
fn failed_request_answers_with_an_error() {
    assert_eq!(
        response_received(SendOutcome::Failed("connection refused".to_string())),
        Progress::Finished(Err("❌ Connection failed: connection refused".to_string()))
    );
}

#[test]
fn body_answers_the_probe() {
    assert_eq!(
        body_received(Ok("OK".to_string())),
        Progress::Finished(Ok(Reply::Text("✅ Backend connected: OK".to_string())))
    );
    assert_eq!(
        body_received(Err("invalid utf-8".to_string())),
        Progress::Finished(Err("invalid utf-8".to_string()))
    );
}

#[test]
fn probe_against_a_healthy_backend_succeeds_with_the_body() {
    let (sent, body) = ok_backend();
    let answer = invoke(Command::TestBackendConnection, sent, body, Ok(()));
    assert_eq!(answer, Ok(Reply::Text("✅ Backend connected: OK".to_string())));
}

#[test]
fn probe_against_a_failing_backend_reports_the_status() {
    let sent = SendOutcome::Response(HttpStatus::new(503).unwrap());
    let answer = invoke(Command::TestBackendConnection, sent, Ok("OK".to_string()), Ok(()));
    match answer {
        Err(message) => assert!(message.contains("503")),
        Ok(reply) => panic!("a 503 must not yield success, got {:?}", reply),
    }
}

#[test]
fn probe_against_an_unreachable_backend_reports_the_transport_failure() {
    let sent = SendOutcome::Failed("tcp connect error: Connection refused".to_string());
    let answer = invoke(Command::TestBackendConnection, sent, Ok("OK".to_string()), Ok(()));
    match answer {
        Err(message) => assert!(message.contains("tcp connect error: Connection refused")),
        Ok(reply) => panic!("an unreachable backend must not yield success, got {:?}", reply),
    }
}

#[test]
fn url_command_reports_what_the_operating_system_said() {
    let (sent, body) = ok_backend();
    let command = Command::OpenExternalUrl { url: "https://example.com/".to_string() };
    assert_eq!(invoke(command, sent, body, Ok(())), Ok(Reply::Unit));
    let (sent, body) = ok_backend();
    let command = Command::OpenExternalUrl { url: "not a url".to_string() };
    assert_eq!(
        invoke(command, sent, body, Err("launcher failed".to_string())),
        Err("launcher failed".to_string())
    );
}

#[test]
fn every_command_is_answered_with_success_or_error() {
    let backends = [200u16, 204, 301, 404, 500, 503];
    for code in backends {
        for body_ok in [true, false] {
            for handoff_ok in [true, false] {
                for command in all_commands() {
                    let sent = SendOutcome::Response(HttpStatus::new(code).unwrap());
                    let body =
                        if body_ok { Ok("OK".to_string()) } else { Err("unreadable".to_string()) };
                    let handoff = if handoff_ok { Ok(()) } else { Err("refused".to_string()) };
                    let answer = invoke(command, sent, body, handoff);
                    assert_ne!(answer.is_ok(), answer.is_err());
                }
            }
        }
    }
    for command in all_commands() {
        let sent = SendOutcome::Failed("unreachable".to_string());
        let answer = invoke(command, sent, Ok(String::new()), Ok(()));
        assert_ne!(answer.is_ok(), answer.is_err());
    }
}

#[test]
fn commands_that_read_the_process_never_fail() {
    let sent = || SendOutcome::Failed("unreachable".to_string());
    let broken = || Err("refused".to_string());
    assert!(invoke(Command::AppReady, sent(), Err(String::new()), broken()).is_ok());
    assert!(invoke(Command::GetAppInfo, sent(), Err(String::new()), broken()).is_ok());
    assert!(invoke(Command::GetSystemInfo, sent(), Err(String::new()), broken()).is_ok());
    let notify = Command::ShowNotification { title: String::new(), body: String::new() };
    assert!(invoke(notify, sent(), Err(String::new()), broken()).is_ok());
}

#[test]
fn repeating_a_command_gives_the_same_answer() {
    for _ in 0..3 {
        assert_eq!(
            dispatch(Command::AppReady, &host()),
            dispatch(Command::AppReady, &host())
        );
        assert_eq!(
            dispatch(Command::GetAppInfo, &host()),
            dispatch(Command::GetAppInfo, &host())
        );
        assert_eq!(
            dispatch(Command::GetSystemInfo, &host()),
            dispatch(Command::GetSystemInfo, &host())
        );
    }
}
