use simplemm::client::{
    check_server_is_running, fault_message, get_server_pid, is_space, new_command,
    parse_decimal, stop_report, trim, IntFault,
};
use simplemm::error::Error;
use simplemm::file::{
    check_is_file, check_parent_dir_writeable, check_pid_file, check_working_dir,
    check_writeable, check_writeable_file, parent_dir, PathProbe,
};
use simplemm::types::{Action, Command, Config, DaemonState, Timestamp};

fn config() -> Config {
    Config {
        db_url: "mysql://x".to_string(),
        uid: 5,
        gid: 6,
        pid_file: "/run/simplemm/daemon.pid".to_string(),
        working_dir: "/var/lib/simplemm".to_string(),
        socket: "/run/simplemm/daemon.sock".to_string(),
    }
}

fn probe(exists: bool, metadata: Result<bool, &str>, accessible: bool, parent: bool) -> PathProbe {
    PathProbe {
        exists,
        metadata: metadata.map_err(|source| source.to_string()),
        accessible,
        parent_accessible: parent,
    }
}

fn not_writeable(path: &str) -> Error {
    Error::CouldNotWriteToFileOrDirectory { path: path.to_string() }
}

#[test]
fn the_parent_is_the_path_without_its_last_component() {
    assert_eq!(parent_dir("/run/simplemm/daemon.pid"), "/run/simplemm");
    assert_eq!(parent_dir("daemon.pid"), "");
    assert_eq!(parent_dir("/"), "/");
    assert_eq!(parent_dir("/run/simplemm/"), "/run");
}

#[test]
fn a_path_is_writeable_when_it_can_be_read_and_written() {
    assert_eq!(check_writeable("/tmp", true), Ok(()));
    assert_eq!(check_writeable("/tmp", false), Err(not_writeable("/tmp")));
    assert_eq!(check_working_dir(&config(), true), Ok(()));
    assert_eq!(check_working_dir(&config(), false), Err(not_writeable("/var/lib/simplemm")));
}

#[test]
fn a_file_has_to_be_a_regular_file() {
    assert_eq!(check_is_file("/x", &Ok(true)), Ok(()));
    assert_eq!(check_is_file("/x", &Ok(false)), Err(Error::PathNoFile { path: "/x".to_string() }));
    assert_eq!(
        check_is_file("/x", &Err("stale handle".to_string())),
        Err(Error::PathMetadataError { path: "/x".to_string(), source: "stale handle".to_string() })
    );
}

#[test]
fn a_missing_file_needs_a_writeable_directory() {
    assert_eq!(check_parent_dir_writeable("/run/a/b.pid", true), Ok(()));
    assert_eq!(check_parent_dir_writeable("/run/a/b.pid", false), Err(not_writeable("/run/a")));
    assert_eq!(check_writeable_file("/run/a/b.pid", &probe(false, Ok(false), false, true)), Ok(()));
    assert_eq!(
        check_writeable_file("/run/a/b.pid", &probe(false, Ok(true), true, false)),
        Err(not_writeable("/run/a"))
    );
}

#[test]
fn an_existing_file_is_checked_for_kind_and_then_for_access() {
    let path = "/run/a/b.pid";
    assert_eq!(check_writeable_file(path, &probe(true, Ok(true), true, false)), Ok(()));
    assert_eq!(
        check_writeable_file(path, &probe(true, Ok(true), false, true)),
        Err(not_writeable(path))
    );
    assert_eq!(
        check_writeable_file(path, &probe(true, Ok(false), false, true)),
        Err(Error::PathNoFile { path: path.to_string() })
    );
    assert_eq!(
        check_writeable_file(path, &probe(true, Err("io"), false, true)),
        Err(Error::PathMetadataError { path: path.to_string(), source: "io".to_string() })
    );
}

#[test]
fn the_pid_file_of_the_settings_is_checked() {
    assert_eq!(check_pid_file(&config(), &probe(true, Ok(true), true, true)), Ok(()));
    assert_eq!(
        check_pid_file(&config(), &probe(false, Ok(true), true, false)),
        Err(not_writeable("/run/simplemm"))
    );
    assert_eq!(
        check_pid_file(&config(), &probe(true, Ok(false), true, true)),
        Err(Error::PathNoFile { path: "/run/simplemm/daemon.pid".to_string() })
    );
}

#[test]
fn white_space_is_what_the_standard_library_takes_for_it() {
    let mut code: u32 = 0;
    while code <= 0x3100 {
        if let Some(c) = char::from_u32(code) {
            assert_eq!(is_space(c), c.is_whitespace());
        }
        code = code + 1;
    }
    assert!(!is_space('\u{FEFF}'));
    assert!(!is_space('\u{10FFFF}'));
}

#[test]
fn trimming_takes_the_white_space_off_both_ends() {
    let samples = [
        "",
        " ",
        "\n\t ",
        "42",
        " 42",
        "42\n",
        "  4 2 \r\n",
        "\u{3000}-17\u{2009}",
        "ä ö",
        "\u{85}x\u{a0}",
    ];
    for sample in samples {
        assert_eq!(trim(sample), sample.trim());
    }
}

#[test]
fn numbers_are_read_as_the_standard_library_reads_them() {
    let samples = [
        "",
        "+",
        "-",
        "0",
        "-0",
        "+0",
        "7",
        "+7",
        "-7",
        "0042",
        "12345",
        "9223372036854775807",
        "9223372036854775808",
        "-9223372036854775808",
        "-9223372036854775809",
        "99999999999999999999999",
        "-99999999999999999999999",
        "99999999999999999999999x",
        "12a",
        "a12",
        "1 2",
        " 12",
        "--1",
        "+-1",
        "1-",
        "١٢",
        "1.5",
    ];
    for sample in samples {
        let expected: Result<i64, String> =
            sample.parse::<i64>().map_err(|error| error.to_string());
        let found = parse_decimal(sample).map_err(fault_message);
        assert_eq!(found, expected, "reading {:?}", sample);
    }
}

#[test]
fn each_fault_of_a_number_has_its_input() {
    assert_eq!(parse_decimal(""), Err(IntFault::Empty));
    assert_eq!(parse_decimal("x"), Err(IntFault::InvalidDigit));
    assert_eq!(parse_decimal("9223372036854775808"), Err(IntFault::PosOverflow));
    assert_eq!(parse_decimal("-9223372036854775809"), Err(IntFault::NegOverflow));
    assert_eq!(parse_decimal("-9223372036854775808"), Ok(i64::MIN));
    assert_eq!(parse_decimal("9223372036854775807"), Ok(i64::MAX));
}

#[test]
fn the_pid_is_read_from_the_file() {
    assert_eq!(get_server_pid(&config(), &Ok("4711\n".to_string())), Ok(4711));
    assert_eq!(get_server_pid(&config(), &Ok("  -3 ".to_string())), Ok(-3));
    assert_eq!(
        get_server_pid(&config(), &Ok("\n".to_string())),
        Err(Error::PidFileParseError {
            filename: "/run/simplemm/daemon.pid".to_string(),
            source: "cannot parse integer from empty string".to_string()
        })
    );
    assert_eq!(
        get_server_pid(&config(), &Ok("47 11".to_string())),
        Err(Error::PidFileParseError {
            filename: "/run/simplemm/daemon.pid".to_string(),
            source: "invalid digit found in string".to_string()
        })
    );
    assert_eq!(
        get_server_pid(&config(), &Err("No such file or directory".to_string())),
        Err(Error::PidFileReadError {
            filename: "/run/simplemm/daemon.pid".to_string(),
            source: "No such file or directory".to_string()
        })
    );
}

fn state() -> DaemonState {
    DaemonState::new(&config(), &Timestamp { seconds: 99, nanos: 1 }, "0.1.0")
}

#[test]
fn a_running_server_has_a_pid_and_a_state() {
    assert_eq!(
        check_server_is_running(&config(), &Ok("12".to_string()), Ok(state())),
        Ok((12, state()))
    );
    assert_eq!(
        check_server_is_running(
            &config(),
            &Ok("12".to_string()),
            Err(Error::RequestParseError { source: "eof".to_string() })
        ),
        Err(Error::RequestParseError { source: "eof".to_string() })
    );
    assert_eq!(
        check_server_is_running(
            &config(),
            &Ok("twelve".to_string()),
            Err(Error::RequestParseError { source: "eof".to_string() })
        ),
        Err(Error::PidFileParseError {
            filename: "/run/simplemm/daemon.pid".to_string(),
            source: "invalid digit found in string".to_string()
        })
    );
    assert_eq!(
        check_server_is_running(&config(), &Err("denied".to_string()), Ok(state())),
        Err(Error::PidFileReadError {
            filename: "/run/simplemm/daemon.pid".to_string(),
            source: "denied".to_string()
        })
    );
}

#[test]
fn a_command_names_its_sender() {
    assert_eq!(
        new_command(
            Action::Subscribe,
            Some("alice".to_string()),
            Some("l@x.org".to_string()),
            Some("mail".to_string())
        ),
        Command {
            action: Action::Subscribe,
            originator: "alice".to_string(),
            list_name: Some("l@x.org".to_string()),
            data: Some("mail".to_string()),
        }
    );
    assert_eq!(
        new_command(Action::Stop, None, None, None),
        Command {
            action: Action::Stop,
            originator: "<None>".to_string(),
            list_name: None,
            data: None,
        }
    );
}

#[test]
fn a_server_that_still_answers_has_not_stopped() {
    assert_eq!(stop_report(true), "Could not stop server");
    assert_eq!(stop_report(false), "Server stopped successfully");
}

#[test]
fn a_state_is_made_of_copies_of_its_parts() {
    let made = state();
    assert_eq!(made.config, config());
    assert_eq!(made.start_time, Timestamp { seconds: 99, nanos: 1 });
    assert_eq!(made.server_version, "0.1.0");
    assert_eq!(made.clone(), made);
}
