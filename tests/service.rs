use std::sync::Arc;

use to_concentrate::client::{
    check_response, Command, label_width, query_result, ConnectError, QueryArguments, QueryField,
    RequestDaemonError,
};
use to_concentrate::config::{
    load_config, Configuration, DurationConfiguration, DurationSection, GetDurationError,
    GetNotificationError, MessageSection, NotificationConfiguration, NotificationSection,
    SpawnWorkerError,
};
use to_concentrate::entity::{TryNewNotificationMessageError, TryNewStageDurationError};
use to_concentrate::init::InitService;
use to_concentrate::protocol::{Protocol, Request, Response};
use to_concentrate::server::{QueryResponse, Server, ServerError};
use to_concentrate::span::Span;
use to_concentrate::stage::StageState;
use to_concentrate::worker;
use to_concentrate::worker::Command as WorkerCommand;

fn secs(s: u64) -> Span {
    Span::from_secs(s)
}

fn query_response() -> Response {
    Response::Query {
        stage: "Preparation".to_owned(),
        total: secs(20),
        remaining: secs(15),
        past: secs(5),
    }
}

#[test]
fn server_server_handle() {
    let request = Server::request_of(Protocol::Request(Request::Query)).unwrap();
    let report = QueryResponse {
        stage: "Preparation".to_owned(),
        total: secs(20),
        remaining: secs(15),
        past: secs(5),
    };
    assert_eq!(Server::respond(request, Some(report)), Protocol::Response(query_response()));
}

#[test]
fn server_server_handle_error_bad_request() {
    assert_eq!(
        Server::request_of(Protocol::Response(Response::Pause)),
        Err(ServerError::BadRequest { protocol: Protocol::Response(Response::Pause) })
    );
}

#[test]
fn server_answers_each_request_in_kind() {
    assert_eq!(Server::respond(Request::Pause, None), Protocol::Response(Response::Pause));
    assert_eq!(Server::respond(Request::Resume, None), Protocol::Response(Response::Resume));
    assert_eq!(Server::respond(Request::Skip, None), Protocol::Response(Response::Skip));
}

#[test]
fn query_report_from_snapshot() {
    let snapshot = worker::QueryResponse {
        total: secs(20),
        past: Span { secs: 5, nanos: 250 },
        stage: StageState::Concentration,
    };
    let report = QueryResponse::from_snapshot(snapshot);
    assert_eq!(report.stage, "Concentration");
    assert_eq!(report.total, secs(20));
    assert_eq!(report.past, Span { secs: 5, nanos: 250 });
    assert_eq!(report.remaining, Span { secs: 14, nanos: 999_999_750 });
    let overrun = worker::QueryResponse { total: secs(5), past: secs(6), stage: StageState::Preparation };
    assert_eq!(QueryResponse::from_snapshot(overrun).remaining, Span::zero());
}

#[test]
fn pause_service_run() {
    let r = check_response(Request::Pause, Protocol::Response(Response::Pause));
    assert_eq!(r, Ok(Response::Pause));
}

#[test]
fn pause_service_error_unavailable() {
    let err = ConnectError::Unavailable { endpoint: "<memory>".to_owned() };
    assert!(matches!(
        RequestDaemonError::from_connect(err),
        RequestDaemonError::Unavailable { .. }
    ));
}

#[test]
fn pause_service_error_bad_response() {
    let r = check_response(Request::Pause, Protocol::Response(Response::Skip));
    assert_eq!(r, Err(RequestDaemonError::BadResponse));
}

#[test]
fn resume_service_run() {
    let r = check_response(Request::Resume, Protocol::Response(Response::Resume));
    assert_eq!(r, Ok(Response::Resume));
}

#[test]
fn resume_service_error_unavailable() {
    let err = ConnectError::Unavailable { endpoint: "daemon.socket".to_owned() };
    assert_eq!(
        RequestDaemonError::from_connect(err),
        RequestDaemonError::Unavailable { endpoint: "daemon.socket".to_owned() }
    );
}

#[test]
fn resume_service_error_bad_response() {
    let r = check_response(Request::Resume, Protocol::Response(Response::Skip));
    assert_eq!(r, Err(RequestDaemonError::BadResponse));
}

#[test]
fn skip_service_run() {
    let r = check_response(Request::Skip, Protocol::Response(Response::Skip));
    assert_eq!(r, Ok(Response::Skip));
}

#[test]
fn skip_service_error_unavailable() {
    let err = ConnectError::Unavailable { endpoint: "<memory>".to_owned() };
    assert!(matches!(
        RequestDaemonError::from_connect(err),
        RequestDaemonError::Unavailable { .. }
    ));
}

#[test]
fn skip_service_error_bad_response() {
    let r = check_response(Request::Skip, Protocol::Response(Response::Pause));
    assert_eq!(r, Err(RequestDaemonError::BadResponse));
}

#[test]
fn query_service_run() {
    let response = query_result(Protocol::Response(query_response())).unwrap();
    assert_eq!(response.stage, "Preparation");
    assert_eq!(response.total.secs, 20);
    assert_eq!(response.remaining.secs, 15);
    assert_eq!(response.past.secs, 5);
}

#[test]
fn query_service_error_unavailable() {
    let err = ConnectError::Unavailable { endpoint: "<memory>".to_owned() };
    assert!(matches!(
        RequestDaemonError::from_connect(err),
        RequestDaemonError::Unavailable { .. }
    ));
}

#[test]
fn query_service_error_bad_response() {
    let r = query_result(Protocol::Response(Response::Skip));
    assert_eq!(r, Err(RequestDaemonError::BadResponse));
}

#[test]
fn other_connect_failure_is_unknown() {
    let err = ConnectError::System { message: "permission denied".to_owned() };
    assert!(matches!(RequestDaemonError::from_connect(err), RequestDaemonError::Unknown { .. }));
}

#[test]
fn request_echoed_back_is_bad_response() {
    let r = check_response(Request::Query, Protocol::Request(Request::Query));
    assert_eq!(r, Err(RequestDaemonError::BadResponse));
}

#[test]
fn query_fields_default_to_all() {
    let none = QueryArguments { stage: false, total: false, remaining: false, past: false };
    let fields = none.fields();
    assert_eq!(
        fields,
        vec![QueryField::Stage, QueryField::Total, QueryField::Remaining, QueryField::Past]
    );
    assert_eq!(label_width(&fields), 9);
    let some = QueryArguments { stage: true, total: false, remaining: false, past: true };
    let fields = some.fields();
    assert_eq!(fields, vec![QueryField::Stage, QueryField::Past]);
    assert_eq!(label_width(&fields), 5);
    assert_eq!(QueryField::Remaining.label(), "Remaining");
    assert_eq!(label_width(&Vec::new()), 0);
}

fn message(summary: &str, body: Option<&str>) -> MessageSection {
    MessageSection { summary: summary.to_owned(), body: body.map(|b| b.to_owned()) }
}

fn configuration(durations: (u64, u64, u64), summaries: (&str, &str, &str)) -> Arc<Configuration> {
    Arc::new(Configuration {
        duration: DurationSection {
            preparation: durations.0,
            concentration: durations.1,
            relaxation: durations.2,
        },
        notification: NotificationSection {
            preparation: message(summaries.0, Some("It's time to start concentrating on learning.")),
            concentration: message(summaries.1, Some("Well done! Remember to have a rest.")),
            relaxation: message(summaries.2, None),
        },
    })
}

#[test]
fn load_default_like_configuration() {
    let config = configuration((900, 2400, 600), ("Preparation Stage End", "Concentration Stage End", "Relaxation Stage End"));
    let durations = DurationConfiguration::new(Arc::clone(&config));
    let notifications = NotificationConfiguration::new(config);
    let w = load_config(&durations, &notifications).unwrap();
    assert_eq!(w.duration(StageState::Preparation).inner(), secs(900));
    assert_eq!(w.duration(StageState::Concentration).inner(), secs(2400));
    assert_eq!(w.duration(StageState::Relaxation).inner(), secs(600));
    assert_eq!(w.notification(StageState::Concentration).summary(), "Concentration Stage End");
    assert_eq!(
        w.notification(StageState::Concentration).body(),
        Some("Well done! Remember to have a rest.")
    );
    assert_eq!(w.notification(StageState::Relaxation).body(), None);
}

#[test]
fn duration_repository_get() {
    let config = configuration((10, 0, 3), ("a", "b", "c"));
    let durations = DurationConfiguration::new(config);
    assert_eq!(durations.preparation_duration().unwrap().inner(), secs(10));
    assert!(durations.concentration_duration().is_err());
    assert_eq!(durations.relaxation_duration().unwrap().inner(), secs(3));
}

#[test]
fn notification_repository_get() {
    let config = configuration((1, 1, 1), ("summary", "", "c"));
    let notifications = NotificationConfiguration::new(config);
    let m = notifications.preparation_notification().unwrap();
    assert_eq!(m.summary(), "summary");
    assert_eq!(
        notifications.concentration_notification(),
        Err(GetNotificationError::Invalid { source: TryNewNotificationMessageError::EmptySummary })
    );
}

#[test]
fn load_reports_first_zero_duration() {
    let config = configuration((5, 0, 0), ("", "b", "c"));
    let durations = DurationConfiguration::new(Arc::clone(&config));
    let notifications = NotificationConfiguration::new(config);
    assert_eq!(
        load_config(&durations, &notifications),
        Err(SpawnWorkerError::DurationConfig {
            key: StageState::Concentration,
            source: GetDurationError::Invalid { source: TryNewStageDurationError::Zero },
        })
    );
}

#[test]
fn load_reports_empty_summary() {
    let config = configuration((5, 5, 5), ("a", "b", ""));
    let durations = DurationConfiguration::new(Arc::clone(&config));
    let notifications = NotificationConfiguration::new(config);
    assert_eq!(
        load_config(&durations, &notifications),
        Err(SpawnWorkerError::NotificationConfig {
            key: StageState::Relaxation,
            source: GetNotificationError::Invalid {
                source: TryNewNotificationMessageError::EmptySummary,
            },
        })
    );
}

#[test]
fn init_command_line() {
    let service = InitService::new(
        None,
        "/run/daemon.pid".to_owned(),
        "to-concentrate-daemon".to_owned(),
        Some("/etc/config.toml".to_owned()),
        "INFO".to_owned(),
    );
    assert_eq!(service.program(), "to-concentrate-daemon");
    assert_eq!(
        service.arguments(),
        vec!["--verbosity", "INFO", "--daemonize", "--config", "/etc/config.toml"]
    );
    let service = InitService::new(
        Some("/opt/bin/daemon".to_owned()),
        "/run/daemon.pid".to_owned(),
        "to-concentrate-daemon".to_owned(),
        None,
        "WARN".to_owned(),
    );
    assert_eq!(service.program(), "/opt/bin/daemon");
    assert_eq!(service.arguments(), vec!["--verbosity", "WARN", "--daemonize"]);
    assert_eq!(service.pid_file(), "/run/daemon.pid");
}

#[test]
fn requests_route_to_worker_commands() {
    assert_eq!(Server::command_for(Request::Pause), WorkerCommand::Pause);
    assert_eq!(Server::command_for(Request::Resume), WorkerCommand::Resume);
    assert_eq!(Server::command_for(Request::Query), WorkerCommand::Query);
    assert_eq!(Server::command_for(Request::Skip), WorkerCommand::Skip);
}

#[test]
fn client_commands_send_their_requests() {
    let args = QueryArguments { stage: true, total: false, remaining: false, past: false };
    assert_eq!(Command::Init.request(), None);
    assert_eq!(Command::Pause.request(), Some(Request::Pause));
    assert_eq!(Command::Resume.request(), Some(Request::Resume));
    assert_eq!(Command::Query(args).request(), Some(Request::Query));
    assert_eq!(Command::Skip.request(), Some(Request::Skip));
}
