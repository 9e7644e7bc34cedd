//! One battery per verb executor, on concrete session states.
use std::io::Write;

use fetp::executor::data::{pasv_command_executor, port_command_executor, rest_command_executor};
use fetp::executor::fsops::{
    dele_command_executor, mkd_command_executor, rmd_command_executor, rnfr_command_executor,
    rnto_command_executor,
};
use fetp::executor::list;
use fetp::executor::list::{list_command_executor, FileInfo};
use fetp::executor::login::{
    acct_command_executor, pass_command_executor, pass_command_executor_with_result,
    user_command_executor,
};
use fetp::executor::nlst;
use fetp::executor::nlst::nlst_command_executor;
use fetp::executor::path::{cdup_command_executor, cwd_command_executor, cwd_target,
    pwd_command_executor};
use fetp::executor::repr::{mode_command_executor, stru_command_executor, type_command_executor};
use fetp::executor::retr;
use fetp::executor::retr::retr_command_executor;
use fetp::executor::simple::{
    allo_command_executor, help_command_executor, noop_command_executor, quit_command_executor,
    stat_command_executor, syst_command_executor,
};
use fetp::executor::store::{appe_command_executor, stor_command_executor, stou_command_executor};
use fetp::sessionstate::{SessionState, StoreMode, TransferPlan};
use fetp::verb::Verb;

#[derive(Default)]
struct MockErrorStream {}

impl Write for MockErrorStream {
    fn write(&mut self, _buf: &[u8]) -> std::io::Result<usize> {
        self.flush()?;
        Err(std::io::Error::new(std::io::ErrorKind::Other, "Fake error"))
    }

    fn flush(&mut self) -> std::io::Result<()> {
        Ok(())
    }
}

#[test]
fn user_valid_returns_331() {
    let state = SessionState::default();
    let argument = "foo";
    let result = user_command_executor(&state, argument);
    assert!(result.is_ok());
    let result = result.unwrap();
    assert_eq!(result.status, 331);
    assert_eq!(result.message, "User name okay, need password.");
    assert!(result.new_state.is_some());
    let new_state = result.new_state.unwrap();
    assert_eq!(new_state.user, Some(argument.to_string()));
    assert!(!new_state.is_authenticated);
}

#[test]
fn user_anonymous_returns_230() {
    let state = SessionState::default();
    let argument = "anonymous";
    let result = user_command_executor(&state, argument);
    assert!(result.is_ok());
    let result = result.unwrap();
    assert_eq!(result.status, 230);
    assert_eq!(result.message, "Anonymous login ok, public access granted.");
    assert!(result.new_state.is_some());
    let new_state = result.new_state.unwrap();
    assert_eq!(new_state.user, Some(argument.to_string()));
    assert!(new_state.is_authenticated);
}

#[test]
fn user_no_argument_returns_501() {
    let state = SessionState::default();
    let argument = "";
    let result = user_command_executor(&state, argument);
    assert!(result.is_ok());
    let result = result.unwrap();
    assert_eq!(result.status, 501);
    assert_eq!(result.message, "User name parameter empty.");
    assert!(result.new_state.is_none());
}

#[test]
fn pass_valid_credentials_returns_230() {
    let mut state = SessionState::default();
    state.user = Some("foo".to_string());
    state.previous_command = Some(Verb::USER);
    let argument = "bar";
    let result = pass_command_executor_with_result(&state, argument, true);
    assert!(result.is_ok());
    let result = result.unwrap();
    assert_eq!(result.status, 230);
    assert_eq!(result.message, "User logged in, proceed.");
    assert!(result.new_state.is_some());
    let new_state = result.new_state.unwrap();
    assert_eq!(new_state.user, Some("foo".to_string()));
    assert!(new_state.is_authenticated);
}

#[test]
fn pass_no_argument_returns_501() {
    let mut state = SessionState::default();
    state.user = Some("foo".to_string());
    state.previous_command = Some(Verb::USER);
    let argument = "";
    let result = pass_command_executor(&state, argument);
    assert!(result.is_ok());
    let result = result.unwrap();
    assert_eq!(result.status, 501);
    assert_eq!(result.message, "Password parameter empty.");
    assert!(result.new_state.is_none());
}

#[test]
fn pass_anonymous_202() {
    let mut state = SessionState::default();
    state.user = Some("anonymous".to_string());
    state.previous_command = Some(Verb::USER);
    state.is_authenticated = true;
    let argument = "";
    let result = pass_command_executor(&state, argument);
    assert!(result.is_ok());
    let result = result.unwrap();
    assert_eq!(result.status, 202);
    assert_eq!(result.message, "Already logged in as anonymous.");
    assert!(result.new_state.is_none());
}

#[test]
fn pass_invalid_credentials_530() {
    let mut state = SessionState::default();
    state.user = Some("foo".to_string());
    state.previous_command = Some(Verb::USER);
    let argument = "baz";
    let result = pass_command_executor_with_result(&state, argument, false);
    assert!(result.is_ok());
    let result = result.unwrap();
    assert_eq!(result.status, 530);
    assert_eq!(result.message, "User name or password incorrect.");
    assert!(result.new_state.is_none());
}

#[test]
fn pass_last_command_must_be_user_503() {
    let mut state = SessionState::default();
    state.user = Some("foo".to_string());
    state.previous_command = Some(Verb::ACCT);
    let argument = "bar";
    let result = pass_command_executor_with_result(&state, argument, true);
    assert!(result.is_ok());
    let result = result.unwrap();
    assert_eq!(result.status, 503);
    assert_eq!(result.message, "Previous command must be USER.");
    assert!(result.new_state.is_none());
}

#[test]
fn pass_without_user_name_530() {
    let mut state = SessionState::default();
    state.previous_command = Some(Verb::USER);
    let result = pass_command_executor(&state, "secret").unwrap();
    assert_eq!(result.status, 530);
    assert_eq!(result.message, "User name or password incorrect.");
    assert!(result.new_state.is_none());
}

#[test]
fn acct_already_logged_in_202() {
    let mut state = SessionState::default();
    state.previous_command = Some(Verb::PASS);
    state.is_authenticated = true;

    let result = acct_command_executor(&state, "").unwrap();

    assert_eq!(result.status, 202);
    assert_eq!(result.message, "Access already granted.")
}

#[test]
fn acct_previous_command_not_pass_503() {
    let mut state = SessionState::default();
    state.previous_command = Some(Verb::USER);
    state.is_authenticated = true;

    let result = acct_command_executor(&state, "").unwrap();

    assert_eq!(result.status, 503);
    assert_eq!(result.message, "Previous command must be PASS.")
}

#[test]
fn acct_previous_login_rejected_530() {
    let mut state = SessionState::default();
    state.previous_command = Some(Verb::PASS);
    state.is_authenticated = false;

    let result = acct_command_executor(&state, "").unwrap();

    assert_eq!(result.status, 530);
    assert_eq!(result.message, "Not logged in.")
}

#[test]
fn binary_flag_false_by_default() {
    let state = SessionState::default();
    assert_eq!(state.binary_flag, false);
}

#[test]
fn turn_binary_on() {
    let state = SessionState::default();
    let result = type_command_executor(&state, "I").unwrap();
    assert_eq!(result.status, 200);
    assert_eq!(result.message, "Binary mode enabled.");
    assert_eq!(result.new_state.unwrap().binary_flag, true);

    let result = type_command_executor(&state, "L 8").unwrap();
    assert_eq!(result.status, 200);
    assert_eq!(result.message, "Binary mode enabled.");
    assert_eq!(result.new_state.unwrap().binary_flag, true);
}

#[test]
fn turn_binary_off() {
    let mut state = SessionState::default();
    state.binary_flag = true;
    let result = type_command_executor(&state, "A").unwrap();
    assert_eq!(result.status, 200);
    assert_eq!(result.message, "Binary mode disabled.");
    assert_eq!(result.new_state.unwrap().binary_flag, false);

    let result = type_command_executor(&state, "A N").unwrap();
    assert_eq!(result.status, 200);
    assert_eq!(result.message, "Binary mode disabled.");
    assert_eq!(result.new_state.unwrap().binary_flag, false);
}

#[test]
fn ivalid_parameter_returns_504() {
    let state = SessionState::default();
    let result = type_command_executor(&state, "").unwrap();
    assert_eq!(result.status, 504);
    assert_eq!(result.message, "Parameter required.");
    let result = type_command_executor(&state, "foo").unwrap();
    assert_eq!(result.status, 504);
    assert_eq!(result.message, "Invalid parameter.");
}

#[test]
fn support_any_case_param() {
    let mut state = SessionState::default();
    let result = type_command_executor(&state, "i").unwrap();
    assert_eq!(result.status, 200);
    assert_eq!(result.new_state.unwrap().binary_flag, true);
    let result = type_command_executor(&state, "l 8").unwrap();
    assert_eq!(result.status, 200);
    assert_eq!(result.new_state.unwrap().binary_flag, true);

    state.binary_flag = false;
    let result = type_command_executor(&state, "a").unwrap();
    assert_eq!(result.status, 200);
    assert_eq!(result.new_state.unwrap().binary_flag, false);
    let result = type_command_executor(&state, "a n").unwrap();
    assert_eq!(result.status, 200);
    assert_eq!(result.new_state.unwrap().binary_flag, false);
}

#[test]
fn accept_file() {
    let state = SessionState::default();
    for arg in ["F", "f"] {
        let result = stru_command_executor(&state, arg).unwrap();
        assert_eq!(result.status, 200);
        assert_eq!(result.message, "Using file structure.")
    }
}

#[test]
fn reject_other_arg() {
    let state = SessionState::default();
    let result = stru_command_executor(&state, "").unwrap();
    assert_eq!(result.status, 504);
    assert_eq!(result.message, "Parameter required.");
    let result = stru_command_executor(&state, "foobar").unwrap();
    assert_eq!(result.status, 504);
    assert_eq!(result.message, "Only file structure is supported.");
}

#[test]
fn mode_accept_stream() {
    let state = SessionState::default();
    for arg in ["S", "s"] {
        let result = mode_command_executor(&state, arg).unwrap();
        assert_eq!(result.status, 200);
        assert_eq!(result.message, "Using stream mode.")
    }
}

#[test]
fn mode_reject_other_arg() {
    let state = SessionState::default();
    let result = mode_command_executor(&state, "").unwrap();
    assert_eq!(result.status, 504);
    assert_eq!(result.message, "Parameter required.");
    let result = mode_command_executor(&state, "foobar").unwrap();
    assert_eq!(result.status, 504);
    assert_eq!(result.message, "Only stream mode is supported.");
}

#[test]
fn print_name_prefix() {
    let mut state = SessionState::default();
    let result = pwd_command_executor(&state, "").unwrap();
    assert_eq!(result.status, 257);
    assert_eq!(result.message, "\"/\"");
    state.name_prefix = "/foo/bar".to_string();
    let result = pwd_command_executor(&state, "").unwrap();
    assert_eq!(result.status, 257);
    assert_eq!(result.message, "\"/foo/bar\"");
}

#[test]
fn test_lf_encode() {
    let mut state = SessionState::default();
    state.name_prefix = "/foo\n/bar".to_string();
    let result = pwd_command_executor(&state, "").unwrap();
    assert_eq!(result.status, 257);
    assert_eq!(result.message, "\"/foo\0/bar\"");
}

#[test]
fn cange_dir_absolute() {
    let state = SessionState::default();
    assert_eq!(cwd_target(&state, "/usr/bin"), "/usr/bin");
    let result = cwd_command_executor(&state, "/usr/bin", Some("/usr/bin".to_string())).unwrap();
    assert_eq!(result.new_state.unwrap().name_prefix, "/usr/bin");
    assert_eq!(result.status, 250);
    assert_eq!(result.message, "Okay.");
}

#[test]
fn change_dir() {
    let mut state = SessionState::default();
    state.name_prefix = "/usr".to_string();
    assert_eq!(cwd_target(&state, "bin"), "/usr/bin");
    let result = cwd_command_executor(&state, "bin", Some("/usr/bin".to_string())).unwrap();
    assert_eq!(result.new_state.unwrap().name_prefix, "/usr/bin");
    assert_eq!(result.status, 250);
    assert_eq!(result.message, "Okay.");
    state.name_prefix = "/usr/bin".to_string();
    assert_eq!(cwd_target(&state, "../lib"), "/usr/bin/../lib");
    let result = cwd_command_executor(&state, "../lib", Some("/usr/lib".to_string())).unwrap();
    assert_eq!(result.new_state.unwrap().name_prefix, "/usr/lib");
    assert_eq!(result.status, 250);
    assert_eq!(result.message, "Okay.");
}

#[test]
fn cwd_decodes_nul_to_lf() {
    let state = SessionState::default();
    assert_eq!(cwd_target(&state, "odd\0name"), "/odd\nname");
}

#[test]
fn test_nonexisting_folder() {
    let state = SessionState::default();
    let result = cwd_command_executor(&state, "/lajsldf/lskdfj/djf", None).unwrap();
    assert_eq!(result.status, 550);
    assert_ne!(result.message, "");
    assert!(result.new_state.is_none());
}

#[test]
fn change_to_parent_dir() {
    let mut state = SessionState::default();
    state.name_prefix = "/usr/bin".to_string();
    let result = cdup_command_executor(&state, "").unwrap();
    assert!(result.new_state.is_some());
    assert_eq!(result.status, 200);
    assert_eq!(result.message, "Okay.");
    assert_eq!(result.new_state.unwrap().name_prefix, "/usr");

    state.name_prefix = "/usr".to_string();
    let result = cdup_command_executor(&state, "").unwrap();
    assert!(result.new_state.is_some());
    assert_eq!(result.status, 200);
    assert_eq!(result.message, "Okay.");
    assert_eq!(result.new_state.unwrap().name_prefix, "/");
}

#[test]
fn change_when_root() {
    let mut state = SessionState::default();
    state.name_prefix = "/".to_string();
    let result = cdup_command_executor(&state, "").unwrap();
    assert!(result.new_state.is_some());
    assert_eq!(result.status, 200);
    assert_eq!(result.message, "Okay.");
    assert_eq!(result.new_state.unwrap().name_prefix, "/");
}

#[test]
fn test_passive_mode() {
    let state = SessionState::default();
    let result = pasv_command_executor(&state, "", Some(39027)).unwrap();
    assert_eq!(result.status, 227);
    assert!(result.message.starts_with('='));

    let addr: Vec<&str> = result.message[1..].split(",").collect();
    assert_eq!(addr.len(), 6);
    for part in addr {
        assert!(part.parse::<u8>().is_ok());
    }
    assert!(result.new_state.is_some());
    assert_eq!(result.new_state.unwrap().data_listener, Some(39027));
}

#[test]
fn pasv_message_encodes_address_and_port() {
    let mut state = SessionState::default();
    state.local_ip = fetp::sessionstate::Ipv4 { a: 127, b: 0, c: 0, d: 1 };
    let result = pasv_command_executor(&state, "", Some(4 * 256 + 7)).unwrap();
    assert_eq!(result.message, "=127,0,0,1,4,7");
}

#[test]
fn pasv_bind_failure_reports_425() {
    let state = SessionState::default();
    let result = pasv_command_executor(&state, "", None).unwrap();
    assert_eq!(result.status, 425);
    assert_eq!(result.message, "Can't open data connection.");
    assert!(result.new_state.is_none());
}

#[test]
fn passive_mode_already_listening() {
    let mut state = SessionState::default();
    state.data_listener = Some(29743);
    let result = pasv_command_executor(&state, "", Some(12001)).unwrap();
    assert!(result.new_state.is_some());
    let new_state = result.new_state.unwrap();
    assert!(new_state.data_listener.is_some());
    assert_ne!(new_state.data_listener.unwrap(), 29743);
}

#[test]
fn parse_port() {
    let arg = "127,0,0,1,221,103";
    let state = SessionState::default();
    let res = port_command_executor(&state, &arg).unwrap();
    assert_eq!(res.status, 200);
    assert_eq!(res.message, "Okay.");
    assert!(res.new_state.is_some());
    let new_state = res.new_state.unwrap();
    assert!(new_state.port_ip.is_some());
    let portip = new_state.port_ip.unwrap();
    assert_eq!(portip.ip, fetp::sessionstate::Ipv4 { a: 127, b: 0, c: 0, d: 1 });
    assert_eq!(portip.port, 221 * 256 + 103);
}

#[test]
fn invalid_format() {
    let state = SessionState::default();
    for arg in [
        "123,12,13,2,,",
        "foobar",
        "1,2,3,4,5,6,7,8,9",
        "-12,0,0,1,200,100",
        "256,0,0,1,200,100",
    ] {
        let res = port_command_executor(&state, &arg).unwrap();
        assert_eq!(res.status, 501);
        assert_eq!(res.message, "Invalid argument.");
        assert!(res.new_state.is_none());
    }
}

#[test]
fn shutsdown_passive_listener() {
    let mut state = SessionState::default();
    state.data_listener = Some(2120);
    let res = port_command_executor(&state, "127,0,0,1,100,200").unwrap();
    assert_eq!(res.status, 200);
    assert_eq!(res.message, "Okay.");
    assert!(res.new_state.is_some());
    let new_state = res.new_state.unwrap();
    assert!(new_state.data_listener.is_none());
    assert!(new_state.port_ip.is_some());
}

#[test]
fn no_arg() {
    let mut state = SessionState::default();
    state.file_offset = 1337;
    let result = rest_command_executor(&state, "").unwrap();
    assert_eq!(result.status, 350);
    assert_eq!(result.message, "Start position set to 0.");
    assert!(result.new_state.is_some());
    let new_state = result.new_state.unwrap();
    assert_eq!(new_state.file_offset, 0);
}

#[test]
fn with_arg() {
    let mut state = SessionState::default();
    state.file_offset = 1337;
    let result = rest_command_executor(&state, "420").unwrap();
    assert_eq!(result.status, 350);
    assert_eq!(result.message, "Start position set to 420.");
    assert!(result.new_state.is_some());
    let new_state = result.new_state.unwrap();
    assert_eq!(new_state.file_offset, 420);
}

#[test]
fn no_new_state_if_unchanged() {
    let mut state = SessionState::default();
    state.file_offset = 1337;
    let result = rest_command_executor(&state, "1337").unwrap();
    assert_eq!(result.status, 350);
    assert_eq!(result.message, "Start position set to 1337.");
    assert!(result.new_state.is_none());
}

#[test]
fn rest_accepts_a_leading_plus_sign() {
    let state = SessionState::default();
    let result = rest_command_executor(&state, "+5").unwrap();
    assert_eq!(result.status, 350);
    assert_eq!(result.message, "Start position set to 5.");
    assert_eq!(result.new_state.unwrap().file_offset, 5);
}

#[test]
fn rest_rejects_overflowing_offsets() {
    let state = SessionState::default();
    let result = rest_command_executor(&state, "99999999999999999999999999").unwrap();
    assert_eq!(result.status, 501);
    assert_eq!(result.message, "Invalid parameter.");
}

#[test]
fn port_rejects_anything_after_the_six_fields() {
    let state = SessionState::default();
    for arg in ["127,0,0,1,4,0,junk", "127,0,0,1,4,0,", "127,0,0,1,4,0,7"] {
        let res = port_command_executor(&state, arg).unwrap();
        assert_eq!(res.status, 501);
        assert_eq!(res.message, "Invalid argument.");
        assert!(res.new_state.is_none());
    }
}

#[test]
fn invalid_args() {
    let state = SessionState::default();
    for param in ["foobar", "-213", "123.456"] {
        let result = rest_command_executor(&state, param).unwrap();
        assert_eq!(result.status, 501);
        assert_eq!(result.message, "Invalid parameter.");
        assert!(result.new_state.is_none());
    }
}

#[test]
fn error_file_does_not_exist() {
    let state = SessionState::default();
    let result = retr_command_executor(&state, "/usr/jksdlfkjsd", false).unwrap();
    assert_eq!(result.status, 550);
    assert_eq!(result.message, "File not found.");
}

#[test]
fn relative_file_exists() {
    let mut state = SessionState::default();
    state.name_prefix = "/bin".to_string();
    let result = retr_command_executor(&state, "sh", true).unwrap();
    assert_eq!(result.status, 150);
    assert_eq!(result.message, "Opening data connection.");
}

#[test]
fn return_data_handler() {
    let state = SessionState::default();
    let result = retr_command_executor(&state, "/bin/sh", true).unwrap();
    assert_eq!(result.status, 150);
    assert_eq!(result.message, "Opening data connection.");
    assert!(result.new_state.is_some());
    let new_state = result.new_state.unwrap();
    assert_eq!(new_state.data_transfer_func, Some(TransferPlan::Retrieve));
    assert_eq!(new_state.data_transfer_func_parameter, Some("/bin/sh".to_string()));
}

#[test]
fn retr_handle_no_connection() {
    let (status, msg) = retr::data_transfer_func::<&[u8], Vec<u8>>(
        None,
        0,
        Some(&mut "".as_bytes()),
        None,
    );

    assert_eq!(status, 425);
    assert_eq!(msg, "No data connection was established.");
}

#[test]
fn retr_handle_write_error() {
    let file: Vec<u8> = b"some file contents".to_vec();
    let (status, msg) = retr::data_transfer_func::<&[u8], MockErrorStream>(
        Some(&file),
        0,
        None,
        Some(&mut MockErrorStream::default()),
    );
    assert_eq!(status, 426);
    assert_eq!(msg, "Error while sending data.");
}

#[test]
fn retr_handle_disk_error() {
    let mut out: Vec<u8> = Vec::new();
    let (status, msg) = retr::data_transfer_func::<&[u8], Vec<u8>>(None, 0, None, Some(&mut out));
    assert_eq!(status, 551);
    assert_eq!(msg, "Server error.");
}

#[test]
fn retr_write_file_to_out() {
    let file: Vec<u8> = b"the whole file".to_vec();
    let mut out: Vec<u8> = Vec::new();
    let (status, msg) = retr::data_transfer_func::<&[u8], Vec<u8>>(
        Some(&file),
        0,
        None,
        Some(&mut out),
    );
    assert_eq!(status, 226);
    assert_eq!(msg, "Transfer complete.");
    assert_eq!(out, file);
}

#[test]
fn retr_start_position() {
    let mut file: Vec<u8> = Vec::new();
    for i in 0..200u8 {
        file.push(i);
    }
    let mut out: Vec<u8> = Vec::new();
    let _ = retr::data_transfer_func::<&[u8], Vec<u8>>(Some(&file), 100, None, Some(&mut out));
    assert_eq!(out.len(), 100);
    assert_eq!(out, file[100..].to_vec());
}

#[test]
fn retr_start_past_end_sends_nothing() {
    let file: Vec<u8> = b"short".to_vec();
    let mut out: Vec<u8> = Vec::new();
    let (status, _) = retr::data_transfer_func::<&[u8], Vec<u8>>(
        Some(&file),
        99,
        None,
        Some(&mut out),
    );
    assert_eq!(status, 226);
    assert_eq!(out, b"");
}

#[test]
fn current_dir_no_param_returns_data_handler() {
    let mut state = SessionState::default();
    state.name_prefix = "/usr".to_string();
    let result = list_command_executor(&state, "", true).unwrap();
    assert_eq!(result.status, 150);
    assert_eq!(result.message, "Opening data connection.");
    assert!(result.new_state.is_some());
    let new_state = result.new_state.unwrap();
    assert_eq!(new_state.data_transfer_func, Some(TransferPlan::List));
    assert_eq!(new_state.data_transfer_func_parameter, Some("/usr".to_string()));
}

#[test]
fn absolute_path() {
    let state = SessionState::default();
    let result = list_command_executor(&state, "/usr", true).unwrap();
    assert_eq!(result.status, 150);
    assert_eq!(result.message, "Opening data connection.");
    assert!(result.new_state.is_some());
    let new_state = result.new_state.unwrap();
    assert_eq!(new_state.data_transfer_func_parameter.unwrap(), "/usr");
}

#[test]
fn relative_path() {
    let result = list_command_executor(&SessionState::default(), "usr/bin", true).unwrap();
    assert_eq!(result.status, 150);
    assert_eq!(result.message, "Opening data connection.");
    assert!(result.new_state.is_some());
    let new_state = result.new_state.unwrap();
    assert_eq!(new_state.data_transfer_func_parameter.unwrap(), "/usr/bin");
}

#[test]
fn path_does_not_exist() {
    let result = list_command_executor(&SessionState::default(), "alolashdf", false).unwrap();
    assert_eq!(result.status, 550);
    assert_eq!(result.message, "File not found.");
    assert!(result.new_state.is_none());
}

#[test]
fn list_handle_no_connection() {
    let (status, msg) = list::data_transfer_func::<&[u8], Vec<u8>>(None, 0, None, None);
    assert_eq!(status, 425);
    assert_eq!(msg, "No data connection was established.");
}

#[test]
fn list_handle_write_error() {
    let entries = vec![FileInfo {
        name: "sh".to_string(),
        size: 100,
        is_dir: false,
        mtime_secs: 0,
    }];
    let (status, msg) = list::data_transfer_func::<&[u8], MockErrorStream>(
        Some(&entries),
        0,
        None,
        Some(&mut MockErrorStream::default()),
    );
    assert_eq!(status, 426);
    assert_eq!(msg, "Error while sending data.");
}

#[test]
fn list_handle_disk_permission_error() {
    let mut out: Vec<u8> = Vec::new();
    let (status, msg) = list::data_transfer_func::<&[u8], Vec<u8>>(None, 0, None, Some(&mut out));
    assert_eq!(status, 451);
    assert_eq!(msg, "Error reading directory or file.");
}

#[test]
fn list_write_directory_contents() {
    let now = 1700000000i64;
    let entries = vec![
        FileInfo { name: "usr".to_string(), size: 4096, is_dir: true, mtime_secs: now - 1000 },
        FileInfo { name: "sh".to_string(), size: 125688, is_dir: false, mtime_secs: now - 1000 },
    ];
    let mut out: Vec<u8> = Vec::new();
    let (status, msg) = list::data_transfer_func::<&[u8], Vec<u8>>(
        Some(&entries),
        now,
        None,
        Some(&mut out),
    );
    assert_eq!(status, 226);
    assert_eq!(msg, "Transfer complete.");
    let outstr = String::from_utf8(out).unwrap();
    let lines: Vec<&str> = outstr.split("\r\n").collect();
    assert_eq!(lines.len(), entries.len() + 1);
    assert_eq!(lines[entries.len()], "");
    for entry in &entries {
        assert!(lines.iter().any(|x| x.ends_with(entry.name.as_str())));
    }
}

#[test]
fn list_directory_types() {
    let now = 1700000000i64;
    let entry = FileInfo { name: "usr".to_string(), size: 4096, is_dir: true, mtime_secs: now };
    let line = list::create_list_record(&entry, now);
    assert!(line.starts_with("drwxr-xr-x 1 owner group"));
    assert!(line.ends_with(" usr"));
}

#[test]
fn list_file_types() {
    let now = 1700000000i64;
    let entry = FileInfo { name: "sh".to_string(), size: 125688, is_dir: false, mtime_secs: now };
    let line = list::create_list_record(&entry, now);
    assert!(line.starts_with("-rw-r--r-- 1 owner group"));
    assert!(line.ends_with(" sh"));
}

#[test]
fn list_size_right_aligned_in_13_columns() {
    let now = 1700000000i64;
    let entry = FileInfo { name: "f".to_string(), size: 42, is_dir: false, mtime_secs: now };
    let line = list::create_list_record(&entry, now);
    assert!(line.starts_with("-rw-r--r-- 1 owner group            42 "));
}

#[test]
fn list_recent_date_shows_clock_time() {
    let now = 1623758400i64;
    let line = list::format_date(now, now);
    assert!(line.starts_with("Jun 1"));
    assert!(line.contains(':'));
}

#[test]
fn list_old_date_shows_year() {
    let mtime = 1623758400i64;
    let now = mtime + 400 * 86400;
    let line = list::format_date(mtime, now);
    assert!(line.starts_with("Jun 1"));
    assert!(line.ends_with("  2021"));
    assert!(!line.contains(':'));
}

#[test]
fn nlst_current_dir_no_param_returns_data_handler() {
    let mut state = SessionState::default();
    state.name_prefix = "/usr".to_string();
    let result = nlst_command_executor(&state, "", true).unwrap();
    assert_eq!(result.status, 150);
    assert_eq!(result.message, "Opening data connection.");
    assert!(result.new_state.is_some());
    let new_state = result.new_state.unwrap();
    assert_eq!(new_state.data_transfer_func, Some(TransferPlan::Nlst));
    assert_eq!(new_state.data_transfer_func_parameter, Some("/usr".to_string()));
}

#[test]
fn nlst_path_does_not_exist() {
    let result = nlst_command_executor(&SessionState::default(), "alolashdf", false).unwrap();
    assert_eq!(result.status, 550);
    assert_eq!(result.message, "File not found.");
    assert!(result.new_state.is_none());
}

#[test]
fn nlst_handle_no_connection() {
    let (status, msg) = nlst::data_transfer_func::<&[u8], Vec<u8>>(None, 0, None, None);
    assert_eq!(status, 425);
    assert_eq!(msg, "No data connection was established.");
}

#[test]
fn nlst_write_directory_contents() {
    let names = vec!["bash".to_string(), "sh".to_string()];
    let mut out: Vec<u8> = Vec::new();
    let (status, msg) = nlst::data_transfer_func::<&[u8], Vec<u8>>(
        Some(&names),
        0,
        None,
        Some(&mut out),
    );
    assert_eq!(status, 226);
    assert_eq!(msg, "Transfer complete.");
    assert_eq!(String::from_utf8(out).unwrap(), "bash\r\nsh\r\n");
}

#[test]
fn nlst_write_argument_is_regular_file() {
    let names = vec!["sh".to_string()];
    let mut out: Vec<u8> = Vec::new();
    let (status, msg) = nlst::data_transfer_func::<&[u8], Vec<u8>>(
        Some(&names),
        0,
        None,
        Some(&mut out),
    );
    assert_eq!(status, 226);
    assert_eq!(msg, "Transfer complete.");
    assert_eq!(String::from_utf8(out).unwrap(), "sh\r\n");
}

#[test]
fn syst() {
    let state = SessionState::default();
    let res = syst_command_executor(&state, "").unwrap();
    assert_eq!(res.status, 215);
    assert_eq!(res.message, "UNIX Type: L8");
    assert!(res.new_state.is_none());
}

#[test]
fn not_implemented() {
    let res = stat_command_executor(&SessionState::default(), "").unwrap();
    assert_eq!(res.status, 502);
    assert_eq!(res.message, "Not implemented.");
    assert!(res.new_state.is_none());
}

#[test]
fn help_wihout_param() {
    let res = help_command_executor(&SessionState::default(), "").unwrap();
    assert_eq!(res.status, 211);
    assert_eq!(res.message, "FeTP rust ftp server.\nhttps://github.com/larssonoliver/fetp");
    assert!(res.new_state.is_none());
}

#[test]
fn help_with_param() {
    let res = help_command_executor(&SessionState::default(), "foobar").unwrap();
    assert_eq!(res.status, 504);
    assert_eq!(res.message, "Not implemented for this parameter.",);
    assert!(res.new_state.is_none());
}

#[test]
fn noop() {
    let state = SessionState::default();
    let res = noop_command_executor(&state, "").unwrap();
    assert_eq!(res.status, 200);
    assert_eq!(res.message, "NOOP");
    assert!(res.new_state.is_none());
}

#[test]
fn quit() {
    let res = quit_command_executor(&SessionState::default(), "").unwrap();
    assert_eq!(res.status, 221);
    assert_eq!(res.message, "Bye.");
    assert!(res.new_state.is_none());
}

#[test]
fn always_accept() {
    let state = SessionState::default();
    for arg in ["", "foobar"] {
        let res = allo_command_executor(&state, arg).unwrap();
        assert_eq!(res.status, 202);
        assert_eq!(res.message, "Command not implemented, superfluous at this site.");
        assert!(res.new_state.is_none());
    }
}

#[test]
fn stor_plans_truncating_store() {
    let state = SessionState::default();
    let res = stor_command_executor(&state, "upload.txt").unwrap();
    assert_eq!(res.status, 150);
    assert_eq!(res.message, "Opening data connection.");
    let new_state = res.new_state.unwrap();
    assert_eq!(new_state.data_transfer_func, Some(TransferPlan::Store(StoreMode::Truncate)));
    assert_eq!(new_state.data_transfer_func_parameter, Some("/upload.txt".to_string()));
}

#[test]
fn appe_plans_appending_store() {
    let state = SessionState::default();
    let res = appe_command_executor(&state, "log.txt").unwrap();
    assert_eq!(res.status, 150);
    let new_state = res.new_state.unwrap();
    assert_eq!(new_state.data_transfer_func, Some(TransferPlan::Store(StoreMode::Append)));
}

#[test]
fn stou_candidate_names_count_up_from_the_target() {
    assert_eq!(fetp::executor::store::unique_store_candidate("/up.bin", 0), "/up.bin");
    assert_eq!(fetp::executor::store::unique_store_candidate("/up.bin", 1), "/up.bin.1");
    assert_eq!(fetp::executor::store::unique_store_candidate("/up.bin", 37), "/up.bin.37");
}

#[test]
fn stou_plans_unique_store() {
    let state = SessionState::default();
    let res = stou_command_executor(&state, "tmp").unwrap();
    assert_eq!(res.status, 150);
    let new_state = res.new_state.unwrap();
    assert_eq!(new_state.data_transfer_func, Some(TransferPlan::Store(StoreMode::Unique)));
}

#[test]
fn mkd_reports_created_directory() {
    let state = SessionState::default();
    let res = mkd_command_executor(&state, "fresh", true).unwrap();
    assert_eq!(res.status, 257);
    assert_eq!(res.message, "\"/fresh\" created.");
    let res = mkd_command_executor(&state, "fresh", false).unwrap();
    assert_eq!(res.status, 550);
    assert_eq!(res.message, "Failed to create directory.");
}

#[test]
fn rmd_reports_outcome() {
    let state = SessionState::default();
    let res = rmd_command_executor(&state, "gone", true).unwrap();
    assert_eq!(res.status, 250);
    assert_eq!(res.message, "Okay.");
    let res = rmd_command_executor(&state, "gone", false).unwrap();
    assert_eq!(res.status, 550);
    assert_eq!(res.message, "Failed to remove directory.");
}

#[test]
fn dele_reports_outcome() {
    let state = SessionState::default();
    let res = dele_command_executor(&state, "old.txt", true).unwrap();
    assert_eq!(res.status, 250);
    let res = dele_command_executor(&state, "old.txt", false).unwrap();
    assert_eq!(res.status, 550);
    assert_eq!(res.message, "Failed to delete file.");
}

#[test]
fn rnfr_stages_source() {
    let state = SessionState::default();
    let res = rnfr_command_executor(&state, "a.txt", true).unwrap();
    assert_eq!(res.status, 350);
    assert_eq!(res.message, "Ready for destination name.");
    assert_eq!(res.new_state.unwrap().rename_from, Some("/a.txt".to_string()));
    let res = rnfr_command_executor(&state, "a.txt", false).unwrap();
    assert_eq!(res.status, 550);
    assert_eq!(res.message, "File not found.");
}

#[test]
fn rnto_needs_rnfr_first() {
    let state = SessionState::default();
    let res = rnto_command_executor(&state, "b.txt", None).unwrap();
    assert_eq!(res.status, 503);
    assert_eq!(res.message, "Previous command must be RNFR.");
}

#[test]
fn rnto_commits_and_consumes_the_staged_source() {
    let mut state = SessionState::default();
    state.previous_command = Some(Verb::RNFR);
    state.rename_from = Some("/a.txt".to_string());
    let res = rnto_command_executor(&state, "b.txt", Some(true)).unwrap();
    assert_eq!(res.status, 250);
    assert_eq!(res.message, "Okay.");
    assert_eq!(res.new_state.unwrap().rename_from, None);
    let res = rnto_command_executor(&state, "b.txt", Some(false)).unwrap();
    assert_eq!(res.status, 550);
    assert_eq!(res.message, "Rename failed.");
    assert_eq!(res.new_state.unwrap().rename_from, None);
}
