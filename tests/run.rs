use brightness_notify::{
    parse_args, read_args, Action, Event, Invocation, Notice, Phase, Report, Session,
    NOTIFICATION_ID,
};

fn toks(a: &[&str]) -> Vec<String> {
    a.iter().map(|s| s.to_string()).collect()
}

/// Canned answers of the brightness program and the notification bus.
struct Mock {
    adjust_ok: bool,
    level: Option<u8>,
    show: Result<(), String>,
}

/// What a run asked of the outside world, in order, and how it ended.
struct Trace {
    calls: Vec<String>,
    notices: Vec<Notice>,
    report: Report,
}

fn drive(inv: Invocation, mock: &Mock) -> Trace {
    let (mut session, mut action) = Session::start(inv);
    let mut calls = Vec::new();
    let mut notices = Vec::new();
    loop {
        let event = match action {
            Action::Adjust(a) => {
                calls.push(format!("adjust {}", a.program_args().join(" ")));
                Event::Adjusted(mock.adjust_ok)
            }
            Action::ReadLevel => {
                calls.push(format!("read {}", read_args().join(" ")));
                Event::LevelRead(mock.level)
            }
            Action::Show(n) => {
                calls.push("notify".to_string());
                notices.push(n);
                Event::Shown(mock.show.clone())
            }
            Action::Finish(report) => {
                assert_eq!(session.phase, Phase::Done);
                return Trace { calls, notices, report };
            }
        };
        assert!(session.awaits(&event));
        action = session.advance(event);
    }
}

fn ok_mock(level: u8) -> Mock {
    Mock { adjust_ok: true, level: Some(level), show: Ok(()) }
}

#[test]
fn get_reports_current_level() {
    let inv = parse_args(&toks(&["-g"])).unwrap();
    let t = drive(inv, &ok_mock(42));
    assert_eq!(t.calls, vec!["read -get", "notify"]);
    assert_eq!(t.notices.len(), 1);
    let n = &t.notices[0];
    assert_eq!(n.summary, "Brightness");
    assert_eq!(n.body, "42% Brightness");
    assert_eq!(n.icon, "display-brightness-medium");
    assert_eq!(n.timeout_ms, 2000);
    assert_eq!(n.id, 1);
    assert!(t.report.success);
    assert!(t.report.stdout.unwrap().contains("Current brightness: 42%"));
    assert_eq!(t.report.stderr, None);
}

#[test]
fn bare_increase_uses_default_step() {
    let inv = parse_args(&toks(&["-i"])).unwrap();
    let t = drive(inv, &ok_mock(80));
    assert_eq!(t.calls, vec!["adjust -inc 5 -time 100 -steps 25", "read -get", "notify"]);
    let n = &t.notices[0];
    assert_eq!(n.icon, "display-brightness-high");
    assert_eq!(n.body, "80% Brightness");
    assert_eq!(n.timeout_ms, 2000);
    assert!(t.report.success);
}

#[test]
fn set_with_all_settings() {
    let inv = parse_args(&toks(&["-s", "10", "-t", "500", "-f", "0", "-p", "1"])).unwrap();
    let t = drive(inv, &ok_mock(10));
    assert_eq!(t.calls, vec!["adjust -set 10 -time 0 -steps 1", "read -get", "notify"]);
    let n = &t.notices[0];
    assert_eq!(n.icon, "display-brightness-low");
    assert_eq!(n.body, "10% Brightness");
    assert_eq!(n.timeout_ms, 500);
    assert!(t.report.success);
}

#[test]
fn set_and_increase_rejected_before_any_call() {
    assert!(parse_args(&toks(&["-s", "50", "-i"])).is_err());
}

#[test]
fn no_action_reads_and_notifies() {
    let inv = parse_args(&toks(&[])).unwrap();
    let t = drive(inv, &ok_mock(66));
    assert_eq!(t.calls, vec!["read -get", "notify"]);
    assert_eq!(t.notices[0].icon, "display-brightness-high");
    assert!(t.report.success);
}

#[test]
fn failed_decrease_stops_the_run() {
    let inv = parse_args(&toks(&["-d", "200"])).unwrap();
    let mock = Mock { adjust_ok: false, level: Some(50), show: Ok(()) };
    let t = drive(inv, &mock);
    assert_eq!(t.calls, vec!["adjust -dec 200 -time 100 -steps 25"]);
    assert!(!t.report.success);
    assert!(t.report.stderr.unwrap().contains("failed to adjust the brightness level"));
    assert!(t.notices.is_empty());
}

#[test]
fn set_runs_once_before_single_read_and_notify() {
    let inv = parse_args(&toks(&["-s", "50"])).unwrap();
    let t = drive(inv, &ok_mock(50));
    assert_eq!(t.calls, vec!["adjust -set 50 -time 100 -steps 25", "read -get", "notify"]);
    assert_eq!(t.report.stdout.unwrap(), "Current brightness: 50%");
}

#[test]
fn get_only_never_adjusts() {
    let inv = parse_args(&toks(&["--get"])).unwrap();
    let t = drive(inv, &ok_mock(5));
    assert_eq!(t.calls, vec!["read -get", "notify"]);
    assert!(t.report.success);

    let failed_read = Mock { adjust_ok: true, level: None, show: Ok(()) };
    let t = drive(inv, &failed_read);
    assert_eq!(t.calls, vec!["read -get"]);
    assert!(!t.report.success);
    assert_eq!(t.report.stdout, None);
    assert_eq!(t.report.stderr.unwrap(), "Error: failed to read the brightness level.");

    let failed_show = Mock { adjust_ok: true, level: Some(5), show: Err("no bus".to_string()) };
    let t = drive(inv, &failed_show);
    assert_eq!(t.calls, vec!["read -get", "notify"]);
    assert!(!t.report.success);
    assert_eq!(t.report.stdout, None);
    assert_eq!(t.report.stderr.unwrap(), "Error: failed to display notification: no bus.");
}

#[test]
fn notifications_share_one_id() {
    for args in [&["-g"][..], &["-i", "3"][..], &["-d"][..], &["-s", "90"][..], &[][..]] {
        let inv = parse_args(&toks(args)).unwrap();
        let t = drive(inv, &ok_mock(17));
        assert_eq!(t.notices.len(), 1);
        assert_eq!(t.notices[0].id, NOTIFICATION_ID);
        assert_eq!(t.notices[0].id, 1);
    }
}

#[test]
fn failed_set_names_target() {
    let inv = parse_args(&toks(&["-s", "50"])).unwrap();
    let mock = Mock { adjust_ok: false, level: Some(50), show: Ok(()) };
    let t = drive(inv, &mock);
    assert_eq!(t.calls, vec!["adjust -set 50 -time 100 -steps 25"]);
    assert!(!t.report.success);
    let err = t.report.stderr.unwrap();
    assert!(err.contains("50"));
    assert_eq!(err, "Error: failed to set brightness to 50.");
    assert!(t.notices.is_empty());
}

#[test]
fn negative_timeout_passes_through() {
    let inv = parse_args(&toks(&["--timeout", "-1", "--increase=7", "--fade=60000", "--steps=200"]))
        .unwrap();
    let t = drive(inv, &ok_mock(100));
    assert_eq!(t.calls, vec!["adjust -inc 7 -time 60000 -steps 200", "read -get", "notify"]);
    assert_eq!(t.notices[0].timeout_ms, -1);
    assert_eq!(t.notices[0].body, "100% Brightness");
}

#[test]
fn awaits_only_the_answer_asked_for() {
    let inv = parse_args(&toks(&["-s", "20"])).unwrap();
    let (session, _) = Session::start(inv);
    assert!(session.awaits(&Event::Adjusted(true)));
    assert!(!session.awaits(&Event::LevelRead(Some(1))));
    assert!(!session.awaits(&Event::Shown(Ok(()))));
    assert!(!session.is_done());
}
