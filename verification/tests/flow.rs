use spin_login::command::LoginCommand;
use spin_login::error::LoginError;
use spin_login::flow::{
    start, step, Directive, Event, Pending, Phase, PollPolicy, Request, AUTHORIZED_NOTICE,
    INVALID_CHOICE, METHOD_PROMPT, PASSWORD_PROMPT, USERNAME_PROMPT, WAITING_MARKER,
    WAITING_NOTICE,
};
use spin_login::model::{AuthMethod, DeviceCodeItem, LoginConnection, TokenInfo};
use spin_login::store::RootStatus;

const CLIENT: u128 = 0x583e63e9_461f_4fbe_a246_23e0fb1cad10;

fn login() -> LoginCommand {
    LoginCommand {
        bindle_server_url: None,
        bindle_username: None,
        bindle_password: None,
        insecure: false,
        hippo_server_url: None,
        hippo_username: None,
        hippo_password: None,
        status: false,
        get_device_code: false,
        check_device_code: None,
        method: None,
    }
}

fn silent(request: Request) -> Directive {
    Directive { lines: vec![], request }
}

fn saying(line: &str, request: Request) -> Directive {
    Directive { lines: vec![line.to_string()], request }
}

fn ready(token: &str, expiration: &str) -> TokenInfo {
    TokenInfo { token: Some(token.to_string()), expiration: Some(expiration.to_string()) }
}

fn unready() -> TokenInfo {
    TokenInfo { token: None, expiration: None }
}

fn item() -> DeviceCodeItem {
    DeviceCodeItem {
        device_code: "dev-1".to_string(),
        user_code: "ABCD-1234".to_string(),
        verification_url: "https://example.com/activate".to_string(),
    }
}

fn located(status: RootStatus) -> Event {
    Event::StoreLocated { root: "/home/u/.config/spin".to_string(), status }
}

fn poll() -> Request {
    Request::PollToken { device_code: "dev-1".to_string() }
}

fn touches_store(request: &Request) -> bool {
    matches!(
        request,
        Request::LocateStore | Request::CreateStore | Request::WriteCredentials { .. }
    )
}

fn talks_to_a_server(request: &Request) -> bool {
    matches!(
        request,
        Request::RequestDeviceCode { .. } | Request::PollToken { .. } | Request::SignIn { .. }
    )
}

const STORED: &str = "{\n  \"url\": \"http://localhost:5309\",\n  \"danger_accept_invalid_certs\": false,\n  \"token\": \"abc\",\n  \"expiration\": \"2024-01-01\"\n}";

#[test]
fn conflicting_options_fail_before_anything_is_done() {
    let replies = vec![
        located(RootStatus::Directory),
        Event::CredentialsRead("{}".to_string()),
        Event::DeviceCodeIssued(item()),
        Event::TokenPolled(ready("abc", "2024-01-01")),
        Event::Done,
    ];
    for (status, get, check) in [
        (true, true, false),
        (true, false, true),
        (false, true, true),
        (true, true, true),
    ] {
        let command = LoginCommand {
            status,
            get_device_code: get,
            check_device_code: if check { Some("dev-1".to_string()) } else { None },
            ..login()
        };
        for script in [vec![], replies.clone()] {
            let directives = command.run(&PollPolicy::nominal(), script);
            assert_eq!(
                directives,
                vec![silent(Request::Abort(LoginError::InvalidArgumentCombination))]
            );
            assert!(directives.iter().all(|d| !talks_to_a_server(&d.request)));
            assert!(directives.iter().all(|d| !touches_store(&d.request)));
        }
    }
}

#[test]
fn conflicting_options_fail_whatever_else_is_given() {
    let command = LoginCommand {
        status: true,
        get_device_code: true,
        method: Some(AuthMethod::UsernameAndPassword),
        hippo_username: Some("bob".to_string()),
        hippo_password: Some("pw".to_string()),
        hippo_server_url: Some("https://h".to_string()),
        insecure: true,
        ..login()
    };
    let (phase, directive) = start(&command);
    assert_eq!(phase, Phase::Failed(LoginError::InvalidArgumentCombination));
    assert_eq!(directive, silent(Request::Abort(LoginError::InvalidArgumentCombination)));
}

#[test]
fn unready_check_prints_the_waiting_marker_and_stores_nothing() {
    let command = LoginCommand { check_device_code: Some("dev-1".to_string()), ..login() };
    let directives = command.run(
        &PollPolicy::nominal(),
        vec![Event::TokenPolled(unready()), located(RootStatus::Directory), Event::Done],
    );
    assert_eq!(WAITING_MARKER, "{\"status\":\"waiting\"}");
    assert_eq!(
        directives,
        vec![silent(poll()), saying("{\"status\":\"waiting\"}", Request::Finish)]
    );
    assert!(directives.iter().all(|d| !touches_store(&d.request)));
}

#[test]
fn failed_check_counts_as_unready() {
    let command = LoginCommand { check_device_code: Some("dev-1".to_string()), ..login() };
    for reply in [
        Event::Failed("connection reset".to_string()),
        Event::TokenPolled(TokenInfo { token: None, expiration: Some("later".to_string()) }),
        Event::Done,
    ] {
        let directives = command.run(&PollPolicy::nominal(), vec![reply]);
        assert_eq!(
            directives,
            vec![silent(poll()), saying("{\"status\":\"waiting\"}", Request::Finish)]
        );
    }
}

#[test]
fn ready_check_prints_the_token_and_stores_the_credential() {
    let command = LoginCommand { check_device_code: Some("dev-1".to_string()), ..login() };
    let directives = command.run(
        &PollPolicy::nominal(),
        vec![
            Event::TokenPolled(ready("abc", "2024-01-01")),
            located(RootStatus::Directory),
            Event::Done,
        ],
    );
    assert_eq!(
        directives,
        vec![
            silent(poll()),
            saying(
                "{\n  \"token\": \"abc\",\n  \"expiration\": \"2024-01-01\"\n}",
                Request::LocateStore
            ),
            silent(Request::WriteCredentials { text: STORED.to_string() }),
            silent(Request::Finish),
        ]
    );
    assert!(!STORED.contains("bindle"));
    let stored: serde_json::Value = serde_json::from_str(STORED).unwrap();
    let members = stored.as_object().unwrap();
    assert_eq!(members.len(), 4);
    assert_eq!(members["url"].as_str(), Some("http://localhost:5309"));
    assert_eq!(members["token"].as_str(), Some("abc"));
    assert_eq!(members["expiration"].as_str(), Some("2024-01-01"));
    assert_eq!(members["danger_accept_invalid_certs"].as_bool(), Some(false));
}

#[test]
fn ready_check_ignores_registry_options() {
    let command = LoginCommand {
        check_device_code: Some("dev-1".to_string()),
        bindle_server_url: Some("https://bindle.example".to_string()),
        bindle_username: Some("bob".to_string()),
        bindle_password: Some("secret".to_string()),
        ..login()
    };
    let directives = command.run(
        &PollPolicy::nominal(),
        vec![Event::TokenPolled(ready("abc", "2024-01-01")), located(RootStatus::Directory)],
    );
    assert_eq!(
        directives.last().unwrap().request,
        Request::WriteCredentials { text: STORED.to_string() }
    );
}

#[test]
fn written_credential_is_what_status_prints() {
    let check = LoginCommand { check_device_code: Some("dev-1".to_string()), ..login() };
    let written = check.run(
        &PollPolicy::nominal(),
        vec![Event::TokenPolled(ready("abc", "2024-01-01")), located(RootStatus::Directory)],
    );
    let text = match &written.last().unwrap().request {
        Request::WriteCredentials { text } => text.clone(),
        other => panic!("no write: {:?}", other),
    };
    let status = LoginCommand { status: true, ..login() };
    let shown = status.run(
        &PollPolicy::nominal(),
        vec![located(RootStatus::Directory), Event::CredentialsRead(text.clone())],
    );
    assert_eq!(
        shown,
        vec![
            silent(Request::LocateStore),
            silent(Request::ReadCredentials),
            Directive { lines: vec![text], request: Request::Finish },
        ]
    );
}

#[test]
fn status_prints_any_text_unchanged() {
    let status = LoginCommand { status: true, ..login() };
    for text in ["", "not json at all", "{\"b\":1,\n\"a\":2}\n\n", "  \u{feff}\t"] {
        let shown = status.run(
            &PollPolicy::nominal(),
            vec![located(RootStatus::Directory), Event::CredentialsRead(text.to_string())],
        );
        assert_eq!(shown.last().unwrap(), &saying(text, Request::Finish));
    }
}

#[test]
fn status_fails_when_the_file_cannot_be_read() {
    let status = LoginCommand { status: true, ..login() };
    let shown = status.run(
        &PollPolicy::nominal(),
        vec![located(RootStatus::Directory), Event::Failed("No such file".to_string())],
    );
    assert_eq!(
        shown.last().unwrap(),
        &silent(Request::Abort(LoginError::Io("Cannnot display login information".to_string())))
    );
}

#[test]
fn status_creates_a_missing_root_first() {
    let status = LoginCommand { status: true, ..login() };
    let shown = status.run(
        &PollPolicy::nominal(),
        vec![located(RootStatus::Missing), Event::Done, Event::CredentialsRead("x".to_string())],
    );
    assert_eq!(
        shown,
        vec![
            silent(Request::LocateStore),
            silent(Request::CreateStore),
            silent(Request::ReadCredentials),
            saying("x", Request::Finish),
        ]
    );
}

#[test]
fn store_errors_are_configuration_errors() {
    let status = LoginCommand { status: true, ..login() };
    let policy = PollPolicy::nominal();
    assert_eq!(
        status.run(&policy, vec![located(RootStatus::NotDirectory)]).last().unwrap(),
        &silent(Request::Abort(LoginError::Configuration(
            "Configuration root `/home/u/.config/spin` already exists and is not a directory"
                .to_string()
        )))
    );
    assert_eq!(
        status.run(&policy, vec![Event::Failed("no home".to_string())]).last().unwrap(),
        &silent(Request::Abort(LoginError::Configuration(
            "Cannot find configuration directory".to_string()
        )))
    );
    assert_eq!(
        status
            .run(&policy, vec![located(RootStatus::Missing), Event::Failed("denied".to_string())])
            .last()
            .unwrap(),
        &silent(Request::Abort(LoginError::Configuration(
            "Failed to create configuration root directory `/home/u/.config/spin`".to_string()
        )))
    );
}

#[test]
fn write_failure_is_an_io_error() {
    let (phase, directive) =
        step(&login(), &PollPolicy::nominal(), Phase::Writing, Event::Failed("disk full".to_string()));
    assert_eq!(phase, Phase::Failed(LoginError::Io("disk full".to_string())));
    assert_eq!(directive, silent(Request::Abort(LoginError::Io("disk full".to_string()))));
}

#[test]
fn get_device_code_prints_the_item() {
    let command = LoginCommand { get_device_code: true, ..login() };
    let directives =
        command.run(&PollPolicy::nominal(), vec![Event::DeviceCodeIssued(item()), Event::Done]);
    assert_eq!(
        directives,
        vec![
            silent(Request::RequestDeviceCode { client_id: CLIENT }),
            saying(
                "{\n  \"deviceCode\": \"dev-1\",\n  \"userCode\": \"ABCD-1234\",\n  \"verificationUrl\": \"https://example.com/activate\"\n}",
                Request::Finish
            ),
        ]
    );
}

#[test]
fn failed_code_request_is_fatal() {
    for command in [LoginCommand { get_device_code: true, ..login() }, login()] {
        let directives = command.run(
            &PollPolicy::nominal(),
            vec![Event::Failed("502 Bad Gateway".to_string()), Event::DeviceCodeIssued(item())],
        );
        assert_eq!(
            directives,
            vec![
                silent(Request::RequestDeviceCode { client_id: CLIENT }),
                silent(Request::Abort(LoginError::Boundary("502 Bad Gateway".to_string()))),
            ]
        );
    }
}

fn waiting_round(count: usize) -> Vec<Event> {
    let mut events = Vec::new();
    for _ in 0..count {
        events.push(Event::TokenPolled(unready()));
        events.push(Event::Done);
    }
    events
}

#[test]
fn interactive_login_is_authorized_at_the_first_check() {
    let directives = login().run(
        &PollPolicy::nominal(),
        vec![
            Event::DeviceCodeIssued(item()),
            Event::TokenPolled(ready("abc", "2024-01-01")),
            located(RootStatus::Directory),
            Event::Done,
        ],
    );
    assert_eq!(AUTHORIZED_NOTICE, "Device authorized!");
    assert_eq!(
        directives,
        vec![
            silent(Request::RequestDeviceCode { client_id: CLIENT }),
            Directive {
                lines: vec![
                    "Open https://example.com/activate in your browser".to_string(),
                    "! Copy your one-time code: ABCD-1234".to_string(),
                ],
                request: poll(),
            },
            saying("Device authorized!", Request::LocateStore),
            silent(Request::WriteCredentials { text: STORED.to_string() }),
            silent(Request::Finish),
        ]
    );
}

#[test]
fn interactive_login_waits_between_checks() {
    let mut events = vec![Event::DeviceCodeIssued(item())];
    events.extend(waiting_round(2));
    events.push(Event::TokenPolled(ready("abc", "2024-01-01")));
    let directives = login().run(&PollPolicy::nominal(), events);
    assert_eq!(WAITING_NOTICE, "Waiting for device authorization...");
    let wait = saying("Waiting for device authorization...", Request::Wait { seconds: 10 });
    assert_eq!(
        directives[2..],
        [
            wait.clone(),
            silent(poll()),
            wait,
            silent(poll()),
            saying("Device authorized!", Request::LocateStore),
        ]
    );
}

#[test]
fn ninety_one_unready_checks_time_out() {
    let mut events = vec![Event::DeviceCodeIssued(item())];
    events.extend(waiting_round(91));
    events.push(Event::TokenPolled(ready("abc", "2024-01-01")));
    events.push(located(RootStatus::Directory));
    let directives = login().run(&PollPolicy::nominal(), events);
    assert_eq!(directives.len(), 2 + 2 * 91);
    assert_eq!(directives.last().unwrap(), &silent(Request::Abort(LoginError::Timeout)));
    let checks = directives.iter().filter(|d| matches!(d.request, Request::PollToken { .. }));
    assert_eq!(checks.count(), 91);
    let pauses = directives.iter().filter(|d| d.request == Request::Wait { seconds: 10 });
    assert_eq!(pauses.count(), 91);
    assert!(directives.iter().all(|d| !touches_store(&d.request)));
}

#[test]
fn ninety_unready_checks_leave_one_more_check() {
    let mut events = vec![Event::DeviceCodeIssued(item())];
    events.extend(waiting_round(90));
    let directives = login().run(&PollPolicy::nominal(), events.clone());
    assert_eq!(directives.last().unwrap(), &silent(poll()));
    assert!(directives.iter().all(|d| !touches_store(&d.request)));

    events.push(Event::TokenPolled(ready("abc", "2024-01-01")));
    events.push(located(RootStatus::Directory));
    events.push(Event::Done);
    let directives = login().run(&PollPolicy::nominal(), events);
    assert_eq!(directives.last().unwrap(), &silent(Request::Finish));
    assert_eq!(
        directives[directives.len() - 2],
        silent(Request::WriteCredentials { text: STORED.to_string() })
    );
}

#[test]
fn failed_checks_are_retried_until_the_time_is_up() {
    let mut events = vec![Event::DeviceCodeIssued(item())];
    for round in 0..91 {
        if round % 2 == 0 {
            events.push(Event::Failed("connection reset".to_string()));
        } else {
            events.push(Event::TokenPolled(unready()));
        }
        events.push(Event::Done);
    }
    let directives = login().run(&PollPolicy::nominal(), events);
    assert_eq!(directives.len(), 184);
    assert_eq!(directives.last().unwrap(), &silent(Request::Abort(LoginError::Timeout)));
    assert!(directives.iter().all(|d| !touches_store(&d.request)));
}

#[test]
fn accelerated_policy_times_out_sooner() {
    let policy = PollPolicy { interval_secs: 1, timeout_secs: 3 };
    let mut events = vec![Event::DeviceCodeIssued(item())];
    events.extend(waiting_round(10));
    let directives = login().run(&policy, events);
    assert_eq!(directives.len(), 2 + 2 * 4);
    assert_eq!(directives.last().unwrap(), &silent(Request::Abort(LoginError::Timeout)));
    assert_eq!(directives[2].request, Request::Wait { seconds: 1 });
}

#[test]
fn interval_beyond_the_timeout_allows_one_check() {
    for policy in [
        PollPolicy { interval_secs: 10, timeout_secs: 5 },
        PollPolicy { interval_secs: 1, timeout_secs: 0 },
        PollPolicy { interval_secs: u64::MAX, timeout_secs: u64::MAX - 1 },
    ] {
        let mut events = vec![Event::DeviceCodeIssued(item())];
        events.extend(waiting_round(3));
        let directives = login().run(&policy, events);
        assert_eq!(directives.len(), 4);
        assert_eq!(directives.last().unwrap(), &silent(Request::Abort(LoginError::Timeout)));
    }
}

#[test]
fn pause_at_the_edge_of_the_timeout() {
    let policy = PollPolicy::nominal();
    assert_eq!(policy, PollPolicy { interval_secs: 10, timeout_secs: 900 });
    let (phase, directive) = step(
        &login(),
        &policy,
        Phase::Pausing { device_code: "dev-1".to_string(), elapsed_secs: 890 },
        Event::Done,
    );
    assert_eq!(
        phase,
        Phase::AwaitingAuthorization { device_code: "dev-1".to_string(), elapsed_secs: 900 }
    );
    assert_eq!(directive, silent(poll()));
    let (phase, directive) = step(
        &login(),
        &policy,
        Phase::Pausing { device_code: "dev-1".to_string(), elapsed_secs: 900 },
        Event::Done,
    );
    assert_eq!(phase, Phase::Failed(LoginError::Timeout));
    assert_eq!(directive, silent(Request::Abort(LoginError::Timeout)));
}

#[test]
fn pause_near_the_largest_number_does_not_overflow() {
    let policy = PollPolicy { interval_secs: 5, timeout_secs: u64::MAX };
    let (phase, _) = step(
        &login(),
        &policy,
        Phase::Pausing { device_code: "d".to_string(), elapsed_secs: u64::MAX - 5 },
        Event::Done,
    );
    assert_eq!(
        phase,
        Phase::AwaitingAuthorization { device_code: "d".to_string(), elapsed_secs: u64::MAX }
    );
    let (phase, _) = step(
        &login(),
        &policy,
        Phase::Pausing { device_code: "d".to_string(), elapsed_secs: u64::MAX - 4 },
        Event::Done,
    );
    assert_eq!(phase, Phase::Failed(LoginError::Timeout));
}

#[test]
fn server_url_alone_asks_for_the_method() {
    let command = LoginCommand { hippo_server_url: Some("https://h".to_string()), ..login() };
    let directives = command.run(
        &PollPolicy::nominal(),
        vec![
            Event::Answered("3\n".to_string()),
            Event::Answered("\n".to_string()),
            Event::Answered(" 1 \n".to_string()),
        ],
    );
    let ask = Request::Ask { prompt: METHOD_PROMPT.to_string(), hidden: false };
    assert_eq!(
        METHOD_PROMPT,
        "What authentication method does this server support?\n\n1. Sign in with GitHub\n2. Sign in with a username and password\n\nEnter a number: "
    );
    assert_eq!(INVALID_CHOICE, "invalid input. Please enter either 1 or 2.");
    assert_eq!(
        directives,
        vec![
            silent(ask.clone()),
            saying("invalid input. Please enter either 1 or 2.", ask.clone()),
            saying("invalid input. Please enter either 1 or 2.", ask),
            silent(Request::RequestDeviceCode { client_id: CLIENT }),
        ]
    );
}

#[test]
fn password_login_asks_for_what_the_options_lack() {
    let command = LoginCommand {
        hippo_server_url: Some("https://h".to_string()),
        bindle_server_url: Some("https://b".to_string()),
        bindle_username: Some("bu".to_string()),
        bindle_password: Some("bp".to_string()),
        insecure: true,
        ..login()
    };
    let directives = command.run(
        &PollPolicy::nominal(),
        vec![
            Event::Answered("2\n".to_string()),
            Event::Answered("  bob \n".to_string()),
            Event::Answered("hunter2\n".to_string()),
            Event::SignedIn(ready("tok", "exp")),
            located(RootStatus::Directory),
            Event::Done,
        ],
    );
    assert_eq!(USERNAME_PROMPT, "Hippo username: ");
    assert_eq!(PASSWORD_PROMPT, "Hippo pasword: ");
    assert_eq!(
        directives,
        vec![
            silent(Request::Ask { prompt: METHOD_PROMPT.to_string(), hidden: false }),
            silent(Request::Ask { prompt: "Hippo username: ".to_string(), hidden: false }),
            silent(Request::Ask { prompt: "Hippo pasword: ".to_string(), hidden: true }),
            silent(Request::SignIn {
                username: "bob".to_string(),
                password: "hunter2".to_string()
            }),
            silent(Request::LocateStore),
            silent(Request::WriteCredentials {
                text: "{\n  \"url\": \"https://h\",\n  \"bindle_url\": \"https://b\",\n  \"bindle_username\": \"bu\",\n  \"bindle_password\": \"bp\",\n  \"danger_accept_invalid_certs\": true,\n  \"token\": \"tok\",\n  \"expiration\": \"exp\"\n}"
                    .to_string()
            }),
            silent(Request::Finish),
        ]
    );
}

#[test]
fn password_login_uses_the_options_when_they_are_given() {
    let command = LoginCommand {
        hippo_username: Some("bob".to_string()),
        hippo_password: Some(" pw ".to_string()),
        ..login()
    };
    let (phase, directive) = start(&command);
    assert_eq!(phase, Phase::SigningIn);
    assert_eq!(
        directive,
        silent(Request::SignIn { username: "bob".to_string(), password: " pw ".to_string() })
    );
    let only_user = LoginCommand { hippo_username: Some("bob".to_string()), ..login() };
    let (phase, directive) = start(&only_user);
    assert_eq!(phase, Phase::AskingPassword { username: "bob".to_string() });
    assert_eq!(
        directive,
        silent(Request::Ask { prompt: "Hippo pasword: ".to_string(), hidden: true })
    );
    let only_password = LoginCommand { hippo_password: Some("pw".to_string()), ..login() };
    let directives =
        only_password.run(&PollPolicy::nominal(), vec![Event::Answered("bob\n".to_string())]);
    assert_eq!(
        directives,
        vec![
            silent(Request::Ask { prompt: "Hippo username: ".to_string(), hidden: false }),
            silent(Request::SignIn { username: "bob".to_string(), password: "pw".to_string() }),
        ]
    );
}

#[test]
fn refused_sign_in_is_translated() {
    let command = LoginCommand {
        hippo_username: Some("bob".to_string()),
        hippo_password: Some("pw".to_string()),
        ..login()
    };
    let directives = command.run(
        &PollPolicy::nominal(),
        vec![Event::Failed("{\"title\":\"x\",\"detail\":\"bad: \"}".to_string())],
    );
    assert_eq!(
        directives.last().unwrap(),
        &silent(Request::Abort(LoginError::IdentityService(
            "Problem logging into Hippo: bad.".to_string()
        )))
    );
    let directives =
        command.run(&PollPolicy::nominal(), vec![Event::Failed("connection refused".to_string())]);
    assert_eq!(
        directives.last().unwrap(),
        &silent(Request::Abort(LoginError::IdentityService(
            "Problem logging into Hippo: connection refused".to_string()
        )))
    );
    assert!(directives.iter().all(|d| !touches_store(&d.request)));
}

#[test]
fn explicit_method_begins_the_login() {
    let github = LoginCommand {
        method: Some(AuthMethod::Github),
        hippo_username: Some("bob".to_string()),
        hippo_password: Some("pw".to_string()),
        hippo_server_url: Some("https://h".to_string()),
        ..login()
    };
    assert_eq!(start(&github).0, Phase::RequestingCode);
    let password = LoginCommand { method: Some(AuthMethod::UsernameAndPassword), ..login() };
    assert_eq!(start(&password).0, Phase::AskingUsername);
}

#[test]
fn ended_runs_stay_ended() {
    let policy = PollPolicy::nominal();
    for event in [Event::Done, Event::Failed("x".to_string()), Event::TokenPolled(unready())] {
        let (phase, directive) = step(&login(), &policy, Phase::Finished, event.clone());
        assert_eq!(phase, Phase::Finished);
        assert_eq!(directive, silent(Request::Finish));
        let (phase, directive) = step(&login(), &policy, Phase::Failed(LoginError::Timeout), event);
        assert_eq!(phase, Phase::Failed(LoginError::Timeout));
        assert_eq!(directive, silent(Request::Abort(LoginError::Timeout)));
    }
}

#[test]
fn run_stops_when_the_replies_run_out() {
    let directives = login().run(&PollPolicy::nominal(), vec![]);
    assert_eq!(directives, vec![silent(Request::RequestDeviceCode { client_id: CLIENT })]);
    let directives = login().run(&PollPolicy::nominal(), vec![Event::DeviceCodeIssued(item())]);
    assert_eq!(directives.len(), 2);
    assert_eq!(directives[1].request, poll());
}

#[test]
fn store_is_located_before_the_credential_is_written() {
    let connection = LoginConnection {
        url: "u".to_string(),
        bindle_url: None,
        bindle_username: None,
        bindle_password: None,
        danger_accept_invalid_certs: false,
        token: "t".to_string(),
        expiration: "e".to_string(),
    };
    let (phase, directive) = step(
        &login(),
        &PollPolicy::nominal(),
        Phase::LocatingStore(Pending::Write(connection.clone())),
        located(RootStatus::Missing),
    );
    assert_eq!(
        phase,
        Phase::CreatingStore {
            pending: Pending::Write(connection),
            root: "/home/u/.config/spin".to_string()
        }
    );
    assert_eq!(directive, silent(Request::CreateStore));
    let (phase, directive) = step(&login(), &PollPolicy::nominal(), phase, Event::Done);
    assert_eq!(phase, Phase::Writing);
    assert_eq!(
        directive,
        silent(Request::WriteCredentials {
            text: "{\n  \"url\": \"u\",\n  \"danger_accept_invalid_certs\": false,\n  \"token\": \"t\",\n  \"expiration\": \"e\"\n}"
                .to_string()
        })
    );
}
