use pdoro::server::controllers::{
    halt_counter, health_check, is_counter_running, not_found, parse_callback_with_args,
    pause_resume_counter, remaining_pomodoro, start_pomodoro, store_unavailable, validate_start,
};
use pdoro::server::request::Request;
use pdoro::server::response::Response;
use pdoro::server::router::{access, route, router, Access, Route};
use pdoro::server::session::{CounterState, Session, TimerAction};
use pdoro::server::status_code::StatusCode;
use pdoro::server::tcp_handler::TCPHandler;
use pdoro::server::{Handler, Server};

fn line(r: &Response) -> String {
    let mut out = Vec::new();
    r.send(&mut out);
    String::from_utf8(out).unwrap()
}

fn ask(session: &mut Session, request: &[u8]) -> String {
    line(&router(session, &Request::try_from(request).unwrap()))
}

fn action(a: TimerAction) -> Option<Option<String>> {
    match a {
        TimerAction::Wait => None,
        TimerAction::Stop => Some(None),
        TimerAction::Complete(c) => Some(Some(c)),
    }
}

#[test]
fn new_session_is_pristine() {
    let s = Session::new();
    assert_eq!(s.state(), CounterState::Pristine);
    assert_eq!(s.remaining(), 0);
    assert_eq!(s.read(), (CounterState::Pristine, 0));
}

#[test]
fn healthcheck_reply() {
    assert_eq!(line(&health_check()), "200 I'm alive;");
    let mut s = Session::new();
    assert_eq!(ask(&mut s, b"healthcheck;"), "200 I'm alive;");
}

#[test]
fn unknown_path_reply() {
    assert_eq!(line(&not_found()), "404 Path not found;");
    let mut s = Session::new();
    assert_eq!(ask(&mut s, b"nope;"), "404 Path not found;");
    assert_eq!(ask(&mut s, b";"), "404 Path not found;");
    assert_eq!(ask(&mut s, b"Start 5 x;"), "404 Path not found;");
    assert_eq!(ask(&mut s, b"healthcheck\r\n;"), "404 Path not found;");
}

#[test]
fn store_unavailable_reply() {
    assert_eq!(line(&store_unavailable()), "500 Failed to read counter state.;");
}

#[test]
fn start_then_remaining_is_full_duration() {
    let mut s = Session::new();
    assert_eq!(ask(&mut s, b"start 1500 /bin/true;"), "201 Pomodoro started.;");
    assert_eq!(s.read(), (CounterState::Running, 1500));
    assert_eq!(ask(&mut s, b"remaining;"), "200 1500;");
    assert_eq!(action(s.tick()), None);
    assert_eq!(ask(&mut s, b"remaining;"), "200 1499;");
}

#[test]
fn start_twice_is_one_session() {
    let mut s = Session::new();
    assert_eq!(ask(&mut s, b"start 10 first;"), "201 Pomodoro started.;");
    assert_eq!(ask(&mut s, b"start 20 second;"), "409 Pomodoro already running.;");
    assert_eq!(s.read(), (CounterState::Running, 10));
    for _ in 0..9 {
        assert_eq!(action(s.tick()), None);
    }
    assert_eq!(action(s.tick()), Some(Some("first".to_string())));
}

#[test]
fn start_is_a_conflict_in_every_active_state() {
    let mut s = Session::new();
    ask(&mut s, b"start 10 cb;");
    ask(&mut s, b"pause-resume-counter;");
    assert_eq!(ask(&mut s, b"start 5 x;"), "409 Pomodoro already running.;");
    assert_eq!(s.read(), (CounterState::Paused, 10));
    ask(&mut s, b"halt-counter;");
    assert_eq!(ask(&mut s, b"start 5 x;"), "409 Pomodoro already running.;");
    assert_eq!(s.read(), (CounterState::Halting, 10));
}

#[test]
fn start_rejects_missing_arguments() {
    let mut s = Session::new();
    assert_eq!(ask(&mut s, b"start;"), "400 Missing args.;");
    assert_eq!(ask(&mut s, b"start 5;"), "400 Missing args.;");
    assert_eq!(ask(&mut s, b"start 5 ;"), "400 Missing args.;");
    assert_eq!(s.read(), (CounterState::Pristine, 0));
}

#[test]
fn start_rejects_bad_durations() {
    let mut s = Session::new();
    for request in [
        &b"start 0 cb;"[..],
        b"start 000 cb;",
        b"start -1 cb;",
        b"start 25m cb;",
        b"start 1.5 cb;",
        b"start  cb;",
        b"start + cb;",
        b"start 4294967296 cb;",
        b"start 99999999999999999999999 cb;",
    ] {
        assert_eq!(ask(&mut s, request), "400 Invalid time format.;");
        assert_eq!(s.read(), (CounterState::Pristine, 0));
    }
}

#[test]
fn start_rejects_bad_requests_before_looking_at_the_state() {
    let mut s = Session::new();
    ask(&mut s, b"start 10 cb;");
    assert_eq!(ask(&mut s, b"start;"), "400 Missing args.;");
    assert_eq!(ask(&mut s, b"start 0 cb;"), "400 Invalid time format.;");
    assert_eq!(s.read(), (CounterState::Running, 10));
}

#[test]
fn start_accepts_numerals_as_written() {
    let mut s = Session::new();
    assert_eq!(ask(&mut s, b"start 007 cb;"), "201 Pomodoro started.;");
    assert_eq!(s.remaining(), 7);
    let mut s = Session::new();
    assert_eq!(ask(&mut s, b"start +5 cb;"), "201 Pomodoro started.;");
    assert_eq!(s.remaining(), 5);
    let mut s = Session::new();
    assert_eq!(ask(&mut s, b"start 4294967295 cb;"), "201 Pomodoro started.;");
    assert_eq!(ask(&mut s, b"remaining;"), "200 4294967295;");
}

#[test]
fn start_handler_directly() {
    let mut s = Session::new();
    let r = start_pomodoro(&mut s, &Request::new("start", Some("3"), Some("/bin/true")));
    assert_eq!(r.status_code(), StatusCode::Created);
    assert_eq!(r.body(), Some("Pomodoro started."));
    assert_eq!(s.read(), (CounterState::Running, 3));
}

#[test]
fn pause_is_a_toggle() {
    let mut s = Session::new();
    ask(&mut s, b"start 10 cb;");
    assert_eq!(action(s.tick()), None);
    assert_eq!(ask(&mut s, b"pause-resume-counter;"), "200 Pomodoro counter paused.;");
    assert_eq!(s.read(), (CounterState::Paused, 9));
    assert_eq!(ask(&mut s, b"remaining;"), "304 9;");
    for _ in 0..5 {
        assert_eq!(action(s.tick()), None);
        assert_eq!(s.read(), (CounterState::Paused, 9));
    }
    assert_eq!(ask(&mut s, b"pause-resume-counter;"), "200 Pomodoro counter resumed.;");
    assert_eq!(s.read(), (CounterState::Running, 9));
    assert_eq!(ask(&mut s, b"remaining;"), "200 9;");
    assert_eq!(action(s.tick()), None);
    assert_eq!(ask(&mut s, b"remaining;"), "200 8;");
}

#[test]
fn pause_without_session_is_a_conflict() {
    let mut s = Session::new();
    assert_eq!(ask(&mut s, b"pause-resume-counter;"), "409 nothing to pause/resume.;");
    assert_eq!(s.read(), (CounterState::Pristine, 0));
    ask(&mut s, b"start 10 cb;");
    ask(&mut s, b"halt-counter;");
    assert_eq!(line(&pause_resume_counter(&mut s)), "409 nothing to pause/resume.;");
    assert_eq!(s.read(), (CounterState::Halting, 10));
}

#[test]
fn halt_running_session() {
    let mut s = Session::new();
    ask(&mut s, b"start 10 cb;");
    assert_eq!(ask(&mut s, b"halt-counter;"), "200 Pomodoro counter halting...;");
    assert_eq!(s.read(), (CounterState::Halting, 10));
    assert_eq!(ask(&mut s, b"remaining;"), "200 10;");
    assert_eq!(ask(&mut s, b"is-counter-running;"), "102 true;");
    assert_eq!(action(s.tick()), Some(None));
    assert_eq!(s.read(), (CounterState::Pristine, 0));
    assert_eq!(ask(&mut s, b"remaining;"), "200 0;");
    assert_eq!(ask(&mut s, b"is-counter-running;"), "100 false;");
    assert_eq!(action(s.tick()), Some(None));
}

#[test]
fn halt_paused_session() {
    let mut s = Session::new();
    ask(&mut s, b"start 10 cb;");
    ask(&mut s, b"pause-resume-counter;");
    assert_eq!(line(&halt_counter(&mut s)), "200 Pomodoro counter halting...;");
    assert_eq!(action(s.tick()), Some(None));
    assert_eq!(s.read(), (CounterState::Pristine, 0));
}

#[test]
fn halt_conflicts() {
    let mut s = Session::new();
    assert_eq!(ask(&mut s, b"halt-counter;"), "409 Nothing to halt.;");
    ask(&mut s, b"start 10 cb;");
    ask(&mut s, b"halt-counter;");
    assert_eq!(
        ask(&mut s, b"halt-counter;"),
        "409 Pomodoro counter already halting...;"
    );
    assert_eq!(s.read(), (CounterState::Halting, 10));
}

#[test]
fn restart_after_halt_settles() {
    let mut s = Session::new();
    ask(&mut s, b"start 10 first;");
    ask(&mut s, b"halt-counter;");
    s.tick();
    assert_eq!(ask(&mut s, b"start 2 second;"), "201 Pomodoro started.;");
    assert_eq!(action(s.tick()), None);
    assert_eq!(action(s.tick()), Some(Some("second".to_string())));
}

#[test]
fn one_second_session() {
    let mut s = Session::new();
    assert_eq!(ask(&mut s, b"start 1 /bin/true;"), "201 Pomodoro started.;");
    assert_eq!(ask(&mut s, b"remaining;"), "200 1;");
    assert_eq!(ask(&mut s, b"is-counter-running;"), "102 true;");
    assert_eq!(action(s.tick()), Some(Some("/bin/true".to_string())));
    assert_eq!(s.read(), (CounterState::Pristine, 0));
    assert_eq!(ask(&mut s, b"remaining;"), "200 0;");
    assert_eq!(action(s.tick()), Some(None));
    assert_eq!(action(s.tick()), Some(None));
}

#[test]
fn three_second_scenario() {
    let mut s = Session::new();
    assert_eq!(ask(&mut s, b"start 3 /bin/true;"), "201 Pomodoro started.;");
    assert_eq!(action(s.tick()), None);
    assert_eq!(ask(&mut s, b"remaining;"), "200 2;");
    assert_eq!(action(s.tick()), None);
    assert_eq!(ask(&mut s, b"remaining;"), "200 1;");
    assert_eq!(action(s.tick()), Some(Some("/bin/true".to_string())));
    assert_eq!(ask(&mut s, b"remaining;"), "200 0;");
    assert_eq!(ask(&mut s, b"is-counter-running;"), "100 false;");
}

#[test]
fn queries_on_pristine_store() {
    let s = Session::new();
    assert_eq!(line(&remaining_pomodoro(&s)), "200 0;");
    assert_eq!(line(&is_counter_running(&s)), "100 false;");
}

#[test]
fn is_running_while_paused() {
    let mut s = Session::new();
    ask(&mut s, b"start 10 cb;");
    ask(&mut s, b"pause-resume-counter;");
    assert_eq!(ask(&mut s, b"is-counter-running;"), "102 true;");
}

#[test]
fn session_primitives() {
    let mut s = Session::new();
    assert!(!s.start(0, "cb"));
    assert!(!s.halt());
    assert!(!s.toggle());
    assert_eq!(s.read(), (CounterState::Pristine, 0));
    assert!(s.start(2, "cb"));
    assert!(!s.start(5, "other"));
    assert!(s.toggle());
    assert_eq!(s.state(), CounterState::Paused);
    assert!(s.toggle());
    assert_eq!(s.state(), CounterState::Running);
    assert!(s.halt());
    assert!(!s.halt());
    assert!(!s.toggle());
    assert_eq!(s.read(), (CounterState::Halting, 2));
}

#[test]
fn snapshot_is_independent() {
    let mut s = Session::new();
    s.start(5, "cb");
    let mut copy = s.snapshot();
    assert_eq!(copy.read(), (CounterState::Running, 5));
    copy.tick();
    assert_eq!(copy.read(), (CounterState::Running, 4));
    assert_eq!(s.read(), (CounterState::Running, 5));
}

#[test]
fn callback_is_split_on_single_spaces() {
    assert_eq!(
        parse_callback_with_args("/bin/true"),
        ("/bin/true".to_string(), Vec::<String>::new())
    );
    assert_eq!(
        parse_callback_with_args("notify-send done now"),
        (
            "notify-send".to_string(),
            vec!["done".to_string(), "now".to_string()]
        )
    );
    assert_eq!(
        parse_callback_with_args("a  b "),
        (
            "a".to_string(),
            vec!["".to_string(), "b".to_string(), "".to_string()]
        )
    );
    assert_eq!(
        parse_callback_with_args(""),
        ("".to_string(), Vec::<String>::new())
    );
    assert_eq!(
        parse_callback_with_args(" x"),
        ("".to_string(), vec!["x".to_string()])
    );
}

#[test]
fn routes_and_access() {
    let cases = [
        ("healthcheck", Route::HealthCheck, Access::Free),
        ("start", Route::Start, Access::Probe),
        ("halt-counter", Route::HaltCounter, Access::Exclusive),
        ("remaining", Route::Remaining, Access::Shared),
        ("is-counter-running", Route::IsCounterRunning, Access::Shared),
        ("pause-resume-counter", Route::PauseResumeCounter, Access::Exclusive),
    ];
    for (path, expected, wanted) in cases {
        let request = Request::new(path, Some("5"), Some("cb"));
        let r = route(&request);
        assert_eq!(r, expected);
        assert_eq!(r.path(), path);
        assert_eq!(access(&request), wanted);
    }
    assert_eq!(route(&Request::new("halt", None, None)), Route::NotFound);
    assert_eq!(route(&Request::new("", None, None)), Route::NotFound);
    assert_eq!(access(&Request::new("halt", None, None)), Access::Free);
    assert_eq!(Route::NotFound.path(), "");
}

#[test]
fn handler_routes() {
    let mut s = Session::new();
    let r = TCPHandler.handle_request(&mut s, &Request::new("start", Some("4"), Some("cb")));
    assert_eq!(line(&r), "201 Pomodoro started.;");
    assert_eq!(s.read(), (CounterState::Running, 4));
    assert_eq!(
        line(&TCPHandler.handle_bad_request("Invalid request")),
        "400 Invalid request;"
    );
}

#[test]
fn server_serves_a_connection() {
    let server = Server::new("127.0.0.1:51789");
    assert_eq!(server.addr(), "127.0.0.1:51789");
    let mut s = Session::new();
    let mut buffer = [0u8; 1024];
    buffer[..18].copy_from_slice(b"start 3 /bin/true;");
    let served = server.serve(&TCPHandler, &mut s, &buffer);
    assert_eq!(&served.reply[..], b"201 Pomodoro started.;");
    assert!(served.started);
    assert_eq!(s.read(), (CounterState::Running, 3));
    let served = server.serve(&TCPHandler, &mut s, b"start 3 /bin/true;");
    assert_eq!(&served.reply[..], b"409 Pomodoro already running.;");
    assert!(!served.started);
    let served = server.serve(&TCPHandler, &mut s, b"pause-resume-counter;");
    assert_eq!(&served.reply[..], b"200 Pomodoro counter paused.;");
    assert!(!served.started);
    let served = server.serve(&TCPHandler, &mut s, b"pause-resume-counter;");
    assert_eq!(&served.reply[..], b"200 Pomodoro counter resumed.;");
    assert!(!served.started);
}

#[test]
fn server_rejects_what_does_not_decode() {
    let server = Server::new("127.0.0.1:51789");
    let mut s = Session::new();
    s.start(9, "cb");
    let served = server.serve(&TCPHandler, &mut s, b"halt-counter");
    assert_eq!(&served.reply[..], b"400 Request not terminated by ';' char;");
    assert!(!served.started);
    assert_eq!(s.read(), (CounterState::Running, 9));
    let served = server.serve(&TCPHandler, &mut s, &[0xffu8, 0x3b]);
    assert_eq!(&served.reply[..], b"400 Invalid request;");
    assert_eq!(s.read(), (CounterState::Running, 9));
}

#[test]
fn server_access_of_buffers() {
    let server = Server::new("127.0.0.1:51789");
    assert_eq!(server.access(b"healthcheck;"), Access::Free);
    assert_eq!(server.access(b"whatever 1 2;"), Access::Free);
    assert_eq!(server.access(b"remaining"), Access::Free);
    assert_eq!(server.access(&[0xffu8, 0x3b]), Access::Free);
    assert_eq!(server.access(b"remaining;"), Access::Shared);
    assert_eq!(server.access(b"is-counter-running;"), Access::Shared);
    assert_eq!(server.access(b"halt-counter;"), Access::Exclusive);
    assert_eq!(server.access(b"pause-resume-counter;"), Access::Exclusive);
    assert_eq!(server.access(b"start 3 /bin/true;"), Access::Probe);
    assert_eq!(server.access(b"start;"), Access::Free);
    assert_eq!(server.access(b"start 3;"), Access::Free);
    assert_eq!(server.access(b"start 0 cb;"), Access::Free);
    assert_eq!(server.access(b"start soon cb;"), Access::Free);
}

#[test]
fn server_unavailable_reply() {
    let served = Server::new("127.0.0.1:51789").unavailable();
    assert_eq!(&served.reply[..], b"500 Failed to read counter state.;");
    assert!(!served.started);
}

#[test]
fn shared_commands_may_run_on_a_copy() {
    let server = Server::new("127.0.0.1:51789");
    let mut s = Session::new();
    s.start(7, "cb");
    let mut copy = s.snapshot();
    let served = server.serve(&TCPHandler, &mut copy, b"remaining;");
    assert_eq!(&served.reply[..], b"200 7;");
    assert_eq!(copy.read(), s.read());
    let served = server.serve(&TCPHandler, &mut Session::new(), b"healthcheck;");
    assert_eq!(&served.reply[..], b"200 I'm alive;");
}

#[test]
fn start_validation() {
    let request = Request::new("start", Some("1500"), Some("notify-send done"));
    assert_eq!(validate_start(&request).ok(), Some((1500, "notify-send done")));
    let refusal = validate_start(&Request::new("start", Some("1500"), None)).err().unwrap();
    assert_eq!(line(&refusal), "400 Missing args.;");
    let refusal = validate_start(&Request::new("start", None, Some("cb"))).err().unwrap();
    assert_eq!(line(&refusal), "400 Missing args.;");
    let refusal = validate_start(&Request::new("start", Some("0"), Some("cb"))).err().unwrap();
    assert_eq!(line(&refusal), "400 Invalid time format.;");
}
