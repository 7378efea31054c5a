use tonik::error::{AuthError, PollError, TransportError};
use tonik::events::Event;
use tonik::model::{IpNeighborStatusV4, Response, SessionStatus};
use tonik::watcher::{Command, Phase, PresenceWatcher, Reply};

fn row(mac: &str) -> IpNeighborStatusV4 {
    IpNeighborStatusV4 {
        proxy: String::new(),
        stale: String::new(),
        noarp: String::new(),
        incomplete: String::new(),
        delay: String::new(),
        family: String::new(),
        reachable: String::new(),
        mac: Some(mac.to_string()),
        dev: String::new(),
        router: String::new(),
        dest: String::new(),
        probe: String::new(),
        failed: String::new(),
        permanent: String::new(),
    }
}

fn neighbors(macs: &[&str]) -> Reply {
    Reply::Neighbors(Ok(Response {
        success: true,
        data: Some(macs.iter().map(|mac| row(mac)).collect()),
        errors: None,
    }))
}

fn status(active: bool) -> Reply {
    Reply::Status(Ok(Response {
        success: true,
        data: Some(SessionStatus { active }),
        errors: None,
    }))
}

fn outage() -> TransportError {
    TransportError { message: "no route to host".to_string() }
}

fn watcher() -> PresenceWatcher {
    PresenceWatcher::new("admin".to_string(), "secret".to_string(), 5000)
}

/// A watcher that has logged in and finished its first poll.
fn watching(macs: &[&str]) -> PresenceWatcher {
    let mut watcher = watcher();
    assert!(matches!(watcher.advance(Reply::Woke), Command::Reauthenticate { .. }));
    assert!(matches!(watcher.advance(Reply::Login(Ok(()))), Command::FetchSnapshot));
    assert!(matches!(watcher.advance(neighbors(macs)), Command::Deliver { .. }));
    watcher
}

fn is_login(command: &Command) -> bool {
    match command {
        Command::Reauthenticate { username, password } => {
            username == "admin" && password == "secret"
        }
        _ => false,
    }
}

#[test]
fn watcher_starts_by_logging_in() {
    let mut watcher = watcher();
    assert_eq!(watcher.phase(), Phase::Starting);
    assert_eq!(watcher.interval_millis(), 5000);
    assert!(watcher.current_devices().is_empty());
    assert!(is_login(&watcher.advance(Reply::Woke)));
    assert_eq!(watcher.phase(), Phase::Authenticating);
    assert!(matches!(watcher.advance(Reply::Login(Ok(()))), Command::FetchSnapshot));
    assert_eq!(watcher.phase(), Phase::Fetching);
}

#[test]
fn first_poll_delivers_arrivals_then_sleeps() {
    let mut watcher = watcher();
    watcher.advance(Reply::Woke);
    watcher.advance(Reply::Login(Ok(())));
    match watcher.advance(neighbors(&["AA:BB", "CC:DD"])) {
        Command::Deliver { events, failure, sleep_millis } => {
            assert_eq!(
                events,
                vec![
                    Event::DeviceArrived("AA:BB".to_string()),
                    Event::DeviceArrived("CC:DD".to_string())
                ]
            );
            assert_eq!(failure, None);
            assert_eq!(sleep_millis, 5000);
        }
        other => panic!("unexpected command {:?}", other),
    }
    assert_eq!(watcher.phase(), Phase::Idle);
}

#[test]
fn full_cycle_with_a_live_session() {
    let mut watcher = watching(&["A", "B"]);
    assert!(matches!(watcher.advance(Reply::Woke), Command::CheckSession));
    assert_eq!(watcher.phase(), Phase::CheckingSession);
    assert!(matches!(watcher.advance(status(true)), Command::FetchSnapshot));
    match watcher.advance(neighbors(&["B", "C"])) {
        Command::Deliver { events, failure, sleep_millis } => {
            assert_eq!(
                events,
                vec![Event::DeviceLeft("A".to_string()), Event::DeviceArrived("C".to_string())]
            );
            assert_eq!(failure, None);
            assert_eq!(sleep_millis, 5000);
        }
        other => panic!("unexpected command {:?}", other),
    }
}

#[test]
fn transport_failure_mid_loop_leaves_the_snapshot_and_emits_nothing() {
    let mut watcher = watching(&["A", "B"]);
    watcher.advance(Reply::Woke);
    watcher.advance(status(true));
    match watcher.advance(Reply::Neighbors(Err(outage()))) {
        Command::Deliver { events, failure, sleep_millis } => {
            assert!(events.is_empty());
            assert_eq!(failure, Some(PollError::Transport(outage())));
            assert_eq!(sleep_millis, 5000);
        }
        other => panic!("unexpected command {:?}", other),
    }
    assert_eq!(watcher.phase(), Phase::Idle);
    assert_eq!(
        watcher.current_devices().devices(),
        &vec!["A".to_string(), "B".to_string()]
    );
    watcher.advance(Reply::Woke);
    watcher.advance(status(true));
    match watcher.advance(neighbors(&["A", "B"])) {
        Command::Deliver { events, .. } => assert!(events.is_empty()),
        other => panic!("unexpected command {:?}", other),
    }
}

#[test]
fn inactive_session_logs_in_exactly_once_before_the_next_fetch() {
    let mut watcher = watching(&["A"]);
    let mut logins = 0;
    let mut fetches = 0;
    let mut reply = Reply::Woke;
    loop {
        match watcher.advance(reply) {
            Command::CheckSession => reply = status(false),
            Command::Reauthenticate { username, password } => {
                assert_eq!(fetches, 0);
                assert_eq!(username, "admin");
                assert_eq!(password, "secret");
                logins += 1;
                reply = Reply::Login(Ok(()));
            }
            Command::FetchSnapshot => {
                fetches += 1;
                reply = neighbors(&["A"]);
            }
            Command::Deliver { events, .. } => {
                assert!(events.is_empty());
                break;
            }
            Command::Stop(failure) => panic!("stopped: {:?}", failure),
            Command::Finished => panic!("finished"),
        }
    }
    assert_eq!(logins, 1);
    assert_eq!(fetches, 1);
}

#[test]
fn failed_status_query_logs_in_before_the_fetch() {
    let mut watcher = watching(&[]);
    watcher.advance(Reply::Woke);
    assert!(is_login(&watcher.advance(Reply::Status(Err(outage())))));
    assert!(matches!(watcher.advance(Reply::Login(Ok(()))), Command::FetchSnapshot));
}

#[test]
fn failed_login_stops_the_watcher_for_good() {
    let mut watcher = watching(&["A"]);
    watcher.advance(Reply::Woke);
    watcher.advance(status(false));
    let failure = AuthError { cause: outage() };
    match watcher.advance(Reply::Login(Err(outage()))) {
        Command::Stop(stopped) => assert_eq!(stopped, failure),
        other => panic!("unexpected command {:?}", other),
    }
    assert!(watcher.is_stopped());
    for reply in [Reply::Woke, status(true), Reply::Login(Ok(())), neighbors(&["B"])] {
        match watcher.advance(reply) {
            Command::Stop(stopped) => assert_eq!(stopped, failure),
            other => panic!("unexpected command {:?}", other),
        }
    }
    assert_eq!(watcher.current_devices().devices(), &vec!["A".to_string()]);
}

#[test]
fn failed_first_login_stops_the_watcher() {
    let mut watcher = watcher();
    watcher.advance(Reply::Woke);
    assert!(matches!(watcher.advance(Reply::Login(Err(outage()))), Command::Stop(_)));
    assert!(watcher.is_stopped());
}

#[test]
fn unexpected_reply_repeats_the_pending_command() {
    let mut watcher = watching(&["A"]);
    watcher.advance(Reply::Woke);
    assert!(matches!(watcher.advance(neighbors(&["B"])), Command::CheckSession));
    assert_eq!(watcher.phase(), Phase::CheckingSession);
    assert!(is_login(&watcher.advance(status(false))));
    assert!(is_login(&watcher.advance(Reply::Woke)));
    assert_eq!(watcher.phase(), Phase::Authenticating);
    watcher.advance(Reply::Login(Ok(())));
    assert!(matches!(watcher.advance(status(true)), Command::FetchSnapshot));
    assert_eq!(watcher.phase(), Phase::Fetching);
    assert_eq!(watcher.current_devices().devices(), &vec!["A".to_string()]);
    assert!(!watcher.is_stopped());
}

#[test]
fn interval_is_what_the_watcher_was_made_with() {
    let mut watcher = PresenceWatcher::new("u".to_string(), "p".to_string(), 1000);
    watcher.advance(Reply::Woke);
    watcher.advance(Reply::Login(Ok(())));
    match watcher.advance(neighbors(&[])) {
        Command::Deliver { sleep_millis, .. } => assert_eq!(sleep_millis, 1000),
        other => panic!("unexpected command {:?}", other),
    }
}

#[test]
fn cancelled_watcher_answers_finished_and_keeps_its_snapshot() {
    let mut watcher = watching(&["A", "B"]);
    assert!(!watcher.is_cancelled());
    assert!(matches!(watcher.advance(Reply::Woke), Command::CheckSession));
    watcher.cancel();
    assert!(watcher.is_cancelled());
    for reply in [status(true), Reply::Woke, Reply::Login(Ok(())), neighbors(&["C"])] {
        assert!(matches!(watcher.advance(reply), Command::Finished));
    }
    assert_eq!(watcher.phase(), Phase::CheckingSession);
    assert_eq!(
        watcher.current_devices().devices(),
        &vec!["A".to_string(), "B".to_string()]
    );
    assert!(!watcher.is_stopped());
}

#[test]
fn watcher_cancelled_before_its_start_never_logs_in() {
    let mut watcher = watcher();
    watcher.cancel();
    assert!(matches!(watcher.advance(Reply::Woke), Command::Finished));
    assert_eq!(watcher.phase(), Phase::Starting);
}
