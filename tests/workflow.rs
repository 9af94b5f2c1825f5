use nanobeam_reboot::config::{Config, ConfigError, Setting};
use nanobeam_reboot::runner::{log_level, on_cron, LogLevel, RunError, TickReport};
use nanobeam_reboot::workflow::{Action, ErrorKind, Event, Failure, Session, Step};

fn settings(u: &str, p: &str, g: &str) -> Config {
    Config::from_values(Some(u.to_string()), Some(p.to_string()), Some(g.to_string())).unwrap()
}

/// Steps a run through a stub browser that answers each action with the
/// event `answer` gives for its index; returns the actions handed out and
/// the outcome.
fn drive(session: &mut Session, answer: &dyn Fn(usize) -> Event) -> Vec<Action> {
    let mut handed = Vec::new();
    while let Some(action) = session.next_action() {
        let event = answer(handed.len());
        handed.push(action);
        session.report(event);
    }
    handed
}

fn expected_plan(u: &str, p: &str, g: &str) -> Vec<Action> {
    vec![
        Action::LaunchBrowser,
        Action::OpenTab,
        Action::NavigateTo(g.to_string()),
        Action::WaitUntilNavigated,
        Action::ClickElement("#loginform-username".to_string()),
        Action::TypeText(u.to_string()),
        Action::PressKey("Enter".to_string()),
        Action::ClickElement("#loginform-password".to_string()),
        Action::TypeText(p.to_string()),
        Action::PressKey("Enter".to_string()),
        Action::WaitUntilNavigated,
        Action::Pause(3),
        Action::ClickElement(".ubnt-icon--refresh".to_string()),
    ]
}

#[test]
fn stub_page_run_succeeds() {
    let mut s = Session::new(settings("admin", "secret", "https://192.168.1.20"));
    let handed = drive(&mut s, &|_| Event::Done);
    assert_eq!(handed, expected_plan("admin", "secret", "https://192.168.1.20"));
    assert!(!s.is_running());
    assert_eq!(s.finish(), Some(Ok(())));
}

#[test]
fn unreachable_gateway_stops_at_navigation() {
    let mut s = Session::new(settings("admin", "secret", "https://10.255.255.1"));
    let handed = drive(&mut s, &|i| {
        if i == 2 {
            Event::Failed("net::ERR_ADDRESS_UNREACHABLE".to_string())
        } else {
            Event::Done
        }
    });
    assert_eq!(handed.len(), 3);
    assert_eq!(handed[2], Action::NavigateTo("https://10.255.255.1".to_string()));
    let failure = s.finish().unwrap().unwrap_err();
    assert_eq!(failure.step, Step::Navigate);
    assert_eq!(failure.step.number(), 2);
    assert_eq!(failure.kind, ErrorKind::Navigation);
    assert_eq!(failure.detail, "net::ERR_ADDRESS_UNREACHABLE");
}

#[test]
fn navigation_wait_timeout_is_a_timeout_at_navigation() {
    let mut s = Session::new(settings("admin", "secret", "https://192.168.1.20"));
    let handed = drive(&mut s, &|i| {
        if i == 3 {
            Event::TimedOut("never came".to_string())
        } else {
            Event::Done
        }
    });
    assert_eq!(handed.len(), 4);
    let failure = s.finish().unwrap().unwrap_err();
    assert_eq!(failure.step, Step::Navigate);
    assert_eq!(failure.kind, ErrorKind::Timeout);
}

#[test]
fn missing_username_field_fails_at_step_three() {
    let mut s = Session::new(settings("admin", "secret", "https://192.168.1.20"));
    let handed = drive(&mut s, &|i| {
        if i == 4 {
            Event::TimedOut("The event waited for never came".to_string())
        } else {
            Event::Done
        }
    });
    assert_eq!(handed.len(), 5);
    assert!(!handed.contains(&Action::ClickElement("#loginform-password".to_string())));
    assert!(!handed.contains(&Action::TypeText("secret".to_string())));
    let failure = s.finish().unwrap().unwrap_err();
    assert_eq!(
        failure,
        Failure {
            step: Step::EnterUsername,
            action: Action::ClickElement("#loginform-username".to_string()),
            kind: ErrorKind::ElementNotFound,
            detail: "The event waited for never came".to_string(),
        }
    );
    assert_eq!(failure.step.number(), 3);
}

#[test]
fn login_that_never_navigates_fails_at_step_five() {
    let mut s = Session::new(settings("admin", "secret", "https://192.168.1.20"));
    let handed = drive(&mut s, &|i| {
        if i == 10 {
            Event::TimedOut("never came".to_string())
        } else {
            Event::Done
        }
    });
    assert_eq!(handed.len(), 11);
    let failure = s.finish().unwrap().unwrap_err();
    assert_eq!(failure.step, Step::ConfirmLogin);
    assert_eq!(failure.step.number(), 5);
    assert_eq!(failure.kind, ErrorKind::Timeout);
    assert_eq!(failure.action, Action::WaitUntilNavigated);
}

#[test]
fn launch_failure_is_a_launch_error() {
    let mut s = Session::new(settings("admin", "secret", "https://192.168.1.20"));
    let handed = drive(&mut s, &|_| Event::Failed("Could not auto detect a chrome executable".to_string()));
    assert_eq!(handed, vec![Action::LaunchBrowser]);
    let failure = s.finish().unwrap().unwrap_err();
    assert_eq!(failure.step, Step::Launch);
    assert_eq!(failure.step.number(), 1);
    assert_eq!(failure.kind, ErrorKind::Launch);
}

#[test]
fn other_browser_failure_is_a_protocol_error() {
    let mut s = Session::new(settings("admin", "secret", "https://192.168.1.20"));
    drive(&mut s, &|i| {
        if i == 8 {
            Event::Failed("connection closed".to_string())
        } else {
            Event::Done
        }
    });
    let failure = s.finish().unwrap().unwrap_err();
    assert_eq!(failure.step, Step::EnterPassword);
    assert_eq!(failure.action, Action::TypeText("secret".to_string()));
    assert_eq!(failure.kind, ErrorKind::Protocol);
}

#[test]
fn reboot_icon_missing_fails_at_step_seven() {
    let mut s = Session::new(settings("admin", "secret", "https://192.168.1.20"));
    drive(&mut s, &|i| {
        if i == 12 {
            Event::TimedOut("never came".to_string())
        } else {
            Event::Done
        }
    });
    let failure = s.finish().unwrap().unwrap_err();
    assert_eq!(failure.step, Step::Reboot);
    assert_eq!(failure.step.number(), 7);
    assert_eq!(failure.kind, ErrorKind::ElementNotFound);
    assert_eq!(failure.action, Action::ClickElement(".ubnt-icon--refresh".to_string()));
}

#[test]
fn reports_after_the_end_change_nothing() {
    let mut s = Session::new(settings("admin", "secret", "https://192.168.1.20"));
    s.report(Event::Done);
    s.report(Event::Failed("tab crashed".to_string()));
    assert!(!s.is_running());
    assert_eq!(s.next_action(), None);
    s.report(Event::Done);
    s.report(Event::TimedOut("late".to_string()));
    let failure = s.finish().unwrap().unwrap_err();
    assert_eq!(failure.step, Step::Navigate);
    assert_eq!(failure.action, Action::OpenTab);
    assert_eq!(failure.detail, "tab crashed");
}

#[test]
fn unfinished_run_has_no_outcome() {
    let mut s = Session::new(settings("admin", "secret", "https://192.168.1.20"));
    assert_eq!(s.next_action(), Some(Action::LaunchBrowser));
    s.report(Event::Done);
    assert!(s.is_running());
    assert_eq!(s.next_action(), Some(Action::OpenTab));
    assert_eq!(s.finish(), None);
}

#[test]
fn missing_settings_fail_before_any_launch() {
    let some = |v: &str| Some(v.to_string());
    assert_eq!(
        Session::start(None, some("secret"), some("https://gw")).err(),
        Some(ConfigError::Missing(Setting::Username))
    );
    assert_eq!(
        Session::start(some("admin"), None, some("https://gw")).err(),
        Some(ConfigError::Missing(Setting::Password))
    );
    assert_eq!(
        Session::start(some("admin"), some("secret"), None).err(),
        Some(ConfigError::Missing(Setting::GatewayUrl))
    );
    assert_eq!(
        Session::start(some("admin"), some(""), some("https://gw")).err(),
        Some(ConfigError::Missing(Setting::Password))
    );
    assert_eq!(
        Session::start(None, None, None).err(),
        Some(ConfigError::Missing(Setting::Username))
    );
    let s = Session::start(some("admin"), some("secret"), some("https://gw")).unwrap();
    assert_eq!(s.next_action(), Some(Action::LaunchBrowser));
}

#[test]
fn config_keeps_the_settings() {
    let c = settings("admin", "secret", "https://192.168.1.20");
    assert_eq!(c.username(), "admin");
    assert_eq!(c.password(), "secret");
    assert_eq!(c.gateway_url(), "https://192.168.1.20");
    let s = Session::new(c);
    assert_eq!(s.config().gateway_url(), "https://192.168.1.20");
}

#[test]
fn setting_variables() {
    assert_eq!(Setting::Username.variable(), "USERNAME");
    assert_eq!(Setting::Password.variable(), "PASSWORD");
    assert_eq!(Setting::GatewayUrl.variable(), "DEFAULT_GATEWAY");
}

#[test]
fn consecutive_runs_are_independent() {
    let mut first = Session::new(settings("admin", "secret", "https://192.168.1.20"));
    drive(&mut first, &|i| {
        if i == 4 {
            Event::TimedOut("never came".to_string())
        } else {
            Event::Done
        }
    });
    assert!(first.finish().unwrap().is_err());
    let mut second = Session::new(settings("admin", "secret", "https://192.168.1.20"));
    let handed = drive(&mut second, &|_| Event::Done);
    assert_eq!(handed, expected_plan("admin", "secret", "https://192.168.1.20"));
    assert_eq!(second.finish(), Some(Ok(())));
}

#[test]
fn failing_tick_keeps_the_schedule_running() {
    let failed = on_cron(Err(RunError::Config(ConfigError::Missing(Setting::Password))));
    assert_eq!(
        failed,
        TickReport {
            error: Some(RunError::Config(ConfigError::Missing(Setting::Password))),
            keep_running: true,
        }
    );
    let step_failure = Failure {
        step: Step::Navigate,
        action: Action::NavigateTo("https://gw".to_string()),
        kind: ErrorKind::Navigation,
        detail: "net::ERR_NAME_NOT_RESOLVED".to_string(),
    };
    let failed = on_cron(Err(RunError::Step(step_failure)));
    assert!(failed.keep_running);
    assert!(matches!(failed.error, Some(RunError::Step(_))));
    let next = on_cron(Ok(()));
    assert_eq!(next, TickReport { error: None, keep_running: true });
}

#[test]
fn debug_flag_sets_log_level() {
    assert_eq!(log_level(true), LogLevel::Debug);
    assert_eq!(log_level(false), LogLevel::Info);
}
