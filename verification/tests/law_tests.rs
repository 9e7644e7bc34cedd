//! End-to-end passes over the engine, following the protocol transcripts.
use fetp::command::parse;
use fetp::executor::{outside_request, OutsideAnswer, OutsideRequest};
use fetp::session::{
    data_phase_planned, data_phase_route, finish_data_phase, run_command, session_should_exit,
    DataRoute,
};
use fetp::sessionstate::{Ipv4, SessionState, TransferPlan};
use fetp::verb::Verb;

fn step(state: &SessionState, line: &str, answer: OutsideAnswer) -> ((u16, String), SessionState) {
    let command = parse(line.as_bytes()).unwrap();
    run_command(&command, state, &answer)
}

#[test]
fn anonymous_login() {
    let state = SessionState::default();
    let ((status, msg), next) = step(&state, "USER anonymous\r\n", OutsideAnswer::Nothing);
    assert_eq!(status, 230);
    assert_eq!(msg, "Anonymous login ok, public access granted.");
    assert!(next.is_authenticated);
    assert_eq!(next.user, Some("anonymous".to_string()));
}

#[test]
fn authenticated_login_with_bad_password() {
    let state = SessionState::default();
    let ((status, msg), next) = step(&state, "USER alice\r\n", OutsideAnswer::Nothing);
    assert_eq!(status, 331);
    assert_eq!(msg, "User name okay, need password.");
    let ((status, msg), next) = step(&next, "PASS wrong\r\n", OutsideAnswer::Nothing);
    assert_eq!(status, 530);
    assert_eq!(msg, "User name or password incorrect.");
    assert!(!next.is_authenticated);
}

#[test]
fn type_structure_mode_negotiation() {
    let state = SessionState::default();
    let ((status, msg), next) = step(&state, "TYPE I\r\n", OutsideAnswer::Nothing);
    assert_eq!(status, 200);
    assert_eq!(msg, "Binary mode enabled.");
    assert!(next.binary_flag);
    let ((status, msg), next) = step(&next, "STRU R\r\n", OutsideAnswer::Nothing);
    assert_eq!(status, 504);
    assert_eq!(msg, "Only file structure is supported.");
    let ((status, msg), _) = step(&next, "MODE S\r\n", OutsideAnswer::Nothing);
    assert_eq!(status, 200);
    assert_eq!(msg, "Using stream mode.");
}

#[test]
fn passive_listing() {
    let mut state = SessionState::default();
    state.local_ip = Ipv4 { a: 127, b: 0, c: 0, d: 1 };
    let ((status, msg), next) = step(&state, "PASV\r\n", OutsideAnswer::Listener(Some(1024 + 7)));
    assert_eq!(status, 227);
    assert_eq!(msg, "=127,0,0,1,4,7");
    assert_eq!(next.data_listener, Some(1024 + 7));
    assert_eq!(next.port_ip, None);

    let ((status, msg), mut next) = step(&next, "LIST\r\n", OutsideAnswer::Exists(true));
    assert_eq!(status, 150);
    assert_eq!(msg, "Opening data connection.");
    assert!(data_phase_planned(&next));
    assert_eq!(next.data_transfer_func, Some(TransferPlan::List));
    assert_eq!(data_phase_route(&next), DataRoute::Passive(1024 + 7));

    let mut out: Vec<u8> = Vec::new();
    let entries = vec![fetp::executor::list::FileInfo {
        name: "motd".to_string(),
        size: 17,
        is_dir: false,
        mtime_secs: 1623758400,
    }];
    let (status, msg) = fetp::executor::list::data_transfer_func::<&[u8], Vec<u8>>(
        Some(&entries),
        1623758400,
        None,
        Some(&mut out),
    );
    assert_eq!(status, 226);
    assert_eq!(msg, "Transfer complete.");
    let text = String::from_utf8(out).unwrap();
    assert!(text.starts_with("-rw-r--r-- 1 owner group"));
    assert!(text.ends_with(" motd\r\n"));

    finish_data_phase(&mut next);
    assert_eq!(next.data_listener, None);
    assert_eq!(next.port_ip, None);
    assert!(next.data_transfer_func.is_none());
    assert_eq!(next.data_transfer_func_parameter, None);
    assert_eq!(next.file_offset, 0);
}

#[test]
fn active_retrieve_with_rest() {
    let state = SessionState::default();
    let ((status, msg), next) = step(&state, "PORT 127,0,0,1,4,0\r\n", OutsideAnswer::Nothing);
    assert_eq!(status, 200);
    assert_eq!(msg, "Okay.");
    let target = next.port_ip.unwrap();
    assert_eq!(target.ip, Ipv4 { a: 127, b: 0, c: 0, d: 1 });
    assert_eq!(target.port, 1024);
    assert_eq!(next.data_listener, None);

    let ((status, msg), next) = step(&next, "REST 100\r\n", OutsideAnswer::Nothing);
    assert_eq!(status, 350);
    assert_eq!(msg, "Start position set to 100.");
    assert_eq!(next.file_offset, 100);

    let request = outside_request(Verb::RETR, &next, "/bin/sh");
    assert!(matches!(request, OutsideRequest::Exists(p) if p == "/bin/sh"));
    let ((status, msg), mut next) = step(&next, "RETR /bin/sh\r\n", OutsideAnswer::Exists(true));
    assert_eq!(status, 150);
    assert_eq!(msg, "Opening data connection.");
    assert_eq!(data_phase_route(&next), DataRoute::Active(target));

    let mut file: Vec<u8> = Vec::new();
    for i in 0..150u8 {
        file.push(i);
    }
    let mut out: Vec<u8> = Vec::new();
    let (status, msg) = fetp::executor::retr::data_transfer_func::<&[u8], Vec<u8>>(
        Some(&file),
        next.file_offset,
        None,
        Some(&mut out),
    );
    assert_eq!(status, 226);
    assert_eq!(msg, "Transfer complete.");
    assert_eq!(out, file[100..].to_vec());

    finish_data_phase(&mut next);
    assert_eq!(next.file_offset, 0);
    assert!(next.data_transfer_func.is_none());
}

#[test]
fn quit_ends_the_session() {
    let state = SessionState::default();
    let ((status, msg), next) = step(&state, "QUIT\r\n", OutsideAnswer::Nothing);
    assert_eq!(status, 221);
    assert_eq!(msg, "Bye.");
    assert!(session_should_exit(&next));
}

#[test]
fn greeting_is_monotonic_and_auth_names_a_user() {
    let mut state = SessionState::default();
    let mut sink: Vec<u8> = Vec::new();
    fetp::session::handle_session_not_greeted(&mut state, &mut sink);
    assert!(state.has_greeted);
    assert_eq!(sink, b"220 Welcome to the FeTP FTP server.\r\n");

    for line in ["USER anonymous\r\n", "TYPE I\r\n", "NOOP\r\n", "CDUP\r\n"] {
        let ((_, _), next) = step(&state, line, OutsideAnswer::Nothing);
        assert!(next.has_greeted);
        if next.is_authenticated {
            assert!(next.user.is_some());
        }
        state = next;
    }
}

#[test]
fn port_and_pasv_exclude_each_other() {
    let state = SessionState::default();
    let ((_, _), after_port) = step(&state, "PORT 10,0,0,1,4,1\r\n", OutsideAnswer::Nothing);
    assert!(after_port.port_ip.is_some());
    assert!(after_port.data_listener.is_none());

    let ((_, _), after_pasv) = step(&after_port, "PASV\r\n", OutsideAnswer::Listener(Some(5000)));
    assert!(after_pasv.data_listener.is_some());
    assert!(after_pasv.port_ip.is_none());
}

#[test]
fn denied_data_phase_without_channel() {
    let state = SessionState::default();
    let ((status, _), next) = step(&state, "STOR up.bin\r\n", OutsideAnswer::Nothing);
    assert_eq!(status, 150);
    assert_eq!(data_phase_route(&next), DataRoute::Deny);
    let (status, msg) = fetp::session::no_data_connection_reply();
    assert_eq!(status, 425);
    assert_eq!(msg, "No data connection was established.");
}

#[test]
fn pwd_cwd_round_trip_scenario() {
    let mut state = SessionState::default();
    state.name_prefix = "/var/log".to_string();
    let reply = fetp::executor::path::pwd_command_executor(&state, "").unwrap();
    assert_eq!(reply.message, "\"/var/log\"");
    let echoed = &reply.message[1..reply.message.len() - 1];
    let target = fetp::executor::path::cwd_target(&state, echoed);
    assert_eq!(target, "/var/log");
    let res = fetp::executor::path::cwd_command_executor(&state, echoed, Some(target)).unwrap();
    assert_eq!(res.status, 250);
    let next = res.new_state.unwrap();
    let reply = fetp::executor::path::pwd_command_executor(&next, "").unwrap();
    assert_eq!(reply.message, "\"/var/log\"");
}

#[test]
fn unknown_command_gets_500() {
    let mut input = "XYZZ\r\n".as_bytes();
    let err = fetp::session::await_command(&mut input).unwrap_err();
    assert_eq!(err.0, 500);
    assert_eq!(err.1, "Invalid command: Unknown verb: XYZZ");
}

#[test]
fn rename_sequence_over_the_engine() {
    let state = SessionState::default();
    let ((status, _), next) = step(&state, "RNFR old.txt\r\n", OutsideAnswer::Exists(true));
    assert_eq!(status, 350);
    assert_eq!(next.rename_from, Some("/old.txt".to_string()));
    let request = outside_request(Verb::RNTO, &next, "new.txt");
    assert!(matches!(request, OutsideRequest::Rename(f, t) if f == "/old.txt" && t == "/new.txt"));
    let ((status, msg), next) = step(&next, "RNTO new.txt\r\n", OutsideAnswer::Done(true));
    assert_eq!(status, 250);
    assert_eq!(msg, "Okay.");
    assert_eq!(next.rename_from, None);
}
