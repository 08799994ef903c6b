//! End-to-end scenarios, driving the start session, the drain and the
//! registry exactly as the I/O shell would, with scripted observations.

use shiny_supervisor::config::{validate_config, ConfigError, ConfigInput};
use shiny_supervisor::drain::{DrainState, StreamSource};
use shiny_supervisor::registry::{ProcessHandle, ProcessRegistry};
use shiny_supervisor::session::{Action, Notification, SessionEvent, StartSession};

fn full_config() -> ConfigInput {
    ConfigInput {
        rscript_path: Some("/opt/r/bin/Rscript".to_string()),
        r_home_dir: Some("/opt/r".to_string()),
        start_shiny_path: Some("/srv/app/start_shiny.R".to_string()),
        r_lib_path: Some("/opt/r/library".to_string()),
        shiny_app_path: Some("/srv/app".to_string()),
        shiny_url: None,
    }
}

#[test]
fn ready_line_on_free_port_returns_url() {
    // Configuration valid, port 3000 free, the process announces it is
    // listening: the session ends with the loopback URL for port 3000.
    let config = validate_config(full_config());
    assert!(config.is_ok());

    let (mut session, first) = StartSession::new(3000, 8000, 4, 1000, 40_000, 500);
    assert_eq!(first.action, Action::ProbeBind { port: 3000 });
    assert_eq!(
        first.notes,
        vec![Notification::AttemptStarting { attempt: 1, max_attempts: 4 }]
    );

    let r = session.step(SessionEvent::BindResult { free: true });
    assert_eq!(r.action, Action::SpawnProcess { port: 3000 });

    let r = session.step(SessionEvent::SpawnResult { pid: Some(4242) });
    assert_eq!(r.action, Action::Poll { port: 3000, sleep_ms: 500 });
    assert_eq!(r.notes, vec![Notification::WaitingForReady]);
    assert_eq!(r.register, Some(ProcessHandle { pid: 4242 }));
    let mut registry = ProcessRegistry::new();
    assert_eq!(registry.register(r.register.unwrap()), None);

    // The stdout reader sees the ready marker within the first poll.
    let mut stdout_drain = DrainState::new();
    let line = stdout_drain.observe_line("Listening on http://0.0.0.0:3000", StreamSource::Stdout);
    assert!(line.ready);
    assert_eq!(line.progress, None);

    let r = session.step(SessionEvent::PollResult { signal: line.ready, probe_ok: false });
    assert_eq!(
        r.action,
        Action::Finish { url: Some("http://127.0.0.1:3000".to_string()) }
    );
    assert_eq!(
        r.notes,
        vec![Notification::Started { url: "http://127.0.0.1:3000".to_string() }]
    );
    assert_eq!(session.outcome(), Some(true));
}

#[test]
fn never_ready_exhausts_attempts_and_fails() {
    // The process never signals and never answers a probe: every attempt
    // times out, and after the attempt ceiling the session fails.
    let (mut session, first) = StartSession::new(3000, 8000, 2, 10, 1000, 500);
    assert_eq!(first.action, Action::ProbeBind { port: 3000 });

    // Attempt 1: port free, spawn ok, monitor times out.
    session.step(SessionEvent::BindResult { free: true });
    session.step(SessionEvent::SpawnResult { pid: Some(7) });
    assert_eq!(
        session.step(SessionEvent::PollResult { signal: false, probe_ok: false }).action,
        Action::Poll { port: 3000, sleep_ms: 500 }
    );
    assert_eq!(
        session.step(SessionEvent::PollResult { signal: false, probe_ok: false }).action,
        Action::Poll { port: 3000, sleep_ms: 500 }
    );
    let r = session.step(SessionEvent::PollResult { signal: false, probe_ok: false });
    assert_eq!(r.action, Action::Sleep { ms: 10 });
    assert_eq!(session.outcome(), None);

    // Attempt 2: the same, now terminal.
    let r = session.step(SessionEvent::Slept);
    assert_eq!(
        r.notes,
        vec![Notification::AttemptStarting { attempt: 2, max_attempts: 2 }]
    );
    assert_eq!(r.action, Action::ProbeBind { port: 3000 });
    session.step(SessionEvent::BindResult { free: true });
    session.step(SessionEvent::SpawnResult { pid: Some(8) });
    session.step(SessionEvent::PollResult { signal: false, probe_ok: false });
    session.step(SessionEvent::PollResult { signal: false, probe_ok: false });
    let r = session.step(SessionEvent::PollResult { signal: false, probe_ok: false });
    assert_eq!(r.action, Action::Finish { url: None });
    assert_eq!(r.notes, vec![Notification::StartFailed]);
    assert_eq!(session.outcome(), Some(false));
}

#[test]
fn three_package_lines_then_ready_in_order() {
    // Three dependency-loading lines arrive on stderr before the ready
    // marker: exactly three progress notifications, counts 1, 2, 3, all
    // before the started notification.
    let (mut session, _) = StartSession::new(3000, 8000, 4, 1000, 40_000, 500);
    session.step(SessionEvent::BindResult { free: true });
    session.step(SessionEvent::SpawnResult { pid: Some(9) });

    let mut observed: Vec<Notification> = Vec::new();
    let mut stderr_drain = DrainState::new();
    for _ in 0..3 {
        let out = stderr_drain.observe_line("Attaching package: 'shiny'", StreamSource::Stderr);
        assert!(!out.ready);
        observed.push(Notification::PackagesLoaded { count: out.progress.unwrap() });
    }
    let out = stderr_drain.observe_line("Listening on http://0.0.0.0:3000", StreamSource::Stderr);
    assert!(out.ready);
    assert_eq!(out.progress, None);

    let r = session.step(SessionEvent::PollResult { signal: out.ready, probe_ok: false });
    observed.extend(r.notes);

    assert_eq!(
        observed,
        vec![
            Notification::PackagesLoaded { count: 1 },
            Notification::PackagesLoaded { count: 2 },
            Notification::PackagesLoaded { count: 3 },
            Notification::Started { url: "http://127.0.0.1:3000".to_string() },
        ]
    );
}

#[test]
fn port_exhaustion_counts_as_failed_attempt() {
    // A two-port range, both taken: the attempt fails and is retried
    // rather than crashing; a fresh attempt rescans from the low end.
    let (mut session, first) = StartSession::new(3000, 3002, 3, 100, 1000, 500);
    assert_eq!(first.action, Action::ProbeBind { port: 3000 });
    let r = session.step(SessionEvent::BindResult { free: false });
    assert_eq!(r.action, Action::ProbeBind { port: 3001 });
    let r = session.step(SessionEvent::BindResult { free: false });
    assert_eq!(r.action, Action::Sleep { ms: 100 });
    let r = session.step(SessionEvent::Slept);
    assert_eq!(
        r.notes,
        vec![Notification::AttemptStarting { attempt: 2, max_attempts: 3 }]
    );
    assert_eq!(r.action, Action::ProbeBind { port: 3000 });
}

#[test]
fn spawn_failure_is_retried_with_backoff() {
    let (mut session, _) = StartSession::new(3000, 8000, 3, 1000, 1000, 500);
    session.step(SessionEvent::BindResult { free: true });
    let r = session.step(SessionEvent::SpawnResult { pid: None });
    assert_eq!(r.action, Action::Sleep { ms: 1000 });
    let r = session.step(SessionEvent::Slept);
    assert_eq!(r.action, Action::ProbeBind { port: 3000 });
    session.step(SessionEvent::BindResult { free: true });
    let r = session.step(SessionEvent::SpawnResult { pid: None });
    assert_eq!(r.action, Action::Sleep { ms: 2000 });
}

#[test]
fn missing_settings_are_reported_in_order() {
    let mut input = full_config();
    input.rscript_path = None;
    assert_eq!(validate_config(input).err(), Some(ConfigError::MissingRscriptPath));

    let mut input = full_config();
    input.r_home_dir = None;
    assert_eq!(validate_config(input).err(), Some(ConfigError::MissingRHomeDir));

    let mut input = full_config();
    input.start_shiny_path = None;
    assert_eq!(validate_config(input).err(), Some(ConfigError::MissingStartShinyPath));

    let mut input = full_config();
    input.r_lib_path = None;
    assert_eq!(validate_config(input).err(), Some(ConfigError::MissingRLibPath));

    let mut input = full_config();
    input.shiny_app_path = None;
    assert_eq!(validate_config(input).err(), Some(ConfigError::MissingShinyAppPath));
}

#[test]
fn base_url_defaults_to_loopback() {
    let config = validate_config(full_config()).unwrap();
    assert_eq!(config.shiny_url, "http://127.0.0.1");

    let mut input = full_config();
    input.shiny_url = Some("http://0.0.0.0".to_string());
    let config = validate_config(input).unwrap();
    assert_eq!(config.shiny_url, "http://0.0.0.0");
}

#[test]
fn launch_plan_has_exact_args_and_env() {
    let c = validate_config(full_config()).unwrap();
    let plan = shiny_supervisor::config::launch_plan(&c, 3005);
    assert_eq!(plan.program, "/opt/r/bin/Rscript");
    assert_eq!(plan.args, vec!["--vanilla", "/srv/app/start_shiny.R", "--verbose"]);
    let expect = vec![
        ("RHOME", "/opt/r"),
        ("R_HOME_DIR", "/opt/r"),
        ("RE_SHINY_PORT", "3005"),
        ("RE_SHINY_PATH", "/srv/app"),
        ("RE_SHINY_HOST", "0.0.0.0"),
        ("R_LIBS", "/opt/r/library"),
        ("R_LIBS_USER", "/opt/r/library"),
        ("R_LIBS_SITE", "/opt/r/library"),
        ("R_LIB_PATHS", "/opt/r/library"),
    ];
    assert_eq!(plan.env.len(), expect.len());
    for (i, (name, value)) in expect.iter().enumerate() {
        assert_eq!(plan.env[i].0, *name);
        assert_eq!(plan.env[i].1, *value);
    }
}

#[test]
fn diagnostic_plan_and_outcome() {
    let c = validate_config(full_config()).unwrap();
    let plan = shiny_supervisor::config::diagnostic_plan(&c, "/srv/app/check.R");
    assert_eq!(plan.args, vec!["--vanilla", "/srv/app/check.R"]);
    assert_eq!(plan.env.len(), 6);

    let ok = shiny_supervisor::config::diagnostic_outcome(
        true,
        Some(0),
        "all good".to_string(),
        String::new(),
    );
    assert_eq!(ok, Ok("all good".to_string()));

    let err = shiny_supervisor::config::diagnostic_outcome(
        false,
        Some(1),
        String::new(),
        "object not found".to_string(),
    );
    assert_eq!(
        err,
        Err(shiny_supervisor::config::DiagnosticError::Run {
            exit_code: Some(1),
            stderr: "object not found".to_string(),
        })
    );
}

#[test]
fn drain_counts_only_error_stream_package_lines() {
    let mut drain = DrainState::new();
    let out = drain.observe_line("Loading required package: shiny", StreamSource::Stderr);
    assert!(!out.ready);
    assert_eq!(out.progress, Some(1));
    // The same marker on stdout does not count.
    let out = drain.observe_line("Loading required package: shiny", StreamSource::Stdout);
    assert_eq!(out.progress, None);
    // A line can match more than one marker; each match fires.
    let out = drain.observe_line(
        "Attaching package: x; Listening on http://0.0.0.0:1",
        StreamSource::Stderr,
    );
    assert!(out.ready);
    assert_eq!(out.progress, Some(2));
}
