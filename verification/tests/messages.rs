use simplemm::error::Error;
use simplemm::state::{log_end, log_start};
use simplemm::text::{join2, join3, join4, join5, u32_to_decimal};
use simplemm::types::Config;

fn text(value: &str) -> String {
    value.to_string()
}

#[test]
fn failures_of_files_and_settings_are_reported() {
    assert_eq!(
        Error::FileOpenError { filename: text("/etc/x.conf"), source: text("denied") }.message(),
        "Could not open config file \"/etc/x.conf\": denied"
    );
    assert_eq!(
        Error::TomlParsingError { filename: text("/etc/x.conf"), source: text("bad key") }
            .message(),
        "Could not parse configuration file \"/etc/x.conf\": bad key"
    );
    assert_eq!(
        Error::CouldNotWriteToFileOrDirectory { path: text("/var/run") }.message(),
        "Path \"/var/run\" not writeable. Permission error?"
    );
    assert_eq!(Error::PathNoFile { path: text("/tmp") }.message(), "Path /tmp is not a file");
    assert_eq!(
        Error::PathMetadataError { path: text("/tmp/x"), source: text("gone") }.message(),
        "Error obtaining path metadata for /tmp/x: gone"
    );
    assert_eq!(
        Error::PidFileReadError { filename: text("/run/d.pid"), source: text("missing") }
            .message(),
        "Could not read pid file \"/run/d.pid\": missing. Server not running?"
    );
    assert_eq!(
        Error::PidFileParseError { filename: text("/run/d.pid"), source: text("no digits") }
            .message(),
        "Could not parse pid file \"/run/d.pid\": no digits. Server not running?"
    );
    assert_eq!(
        Error::ReadStdinError { source: text("closed") }.message(),
        "Could not read data from stdin: closed"
    );
}

#[test]
fn failures_of_the_database_are_reported() {
    assert_eq!(
        Error::DbConnectionError { source: text("refused") }.message(),
        "Could not reach database: refused"
    );
    assert_eq!(
        Error::DbStartTransactionError { source: text("busy") }.message(),
        "Could not start transaction: busy"
    );
    assert_eq!(
        Error::DbPrepareError { statement: text("SELECT 1"), source: text("syntax") }.message(),
        "Could not prepare statement \"SELECT 1\": \"syntax\""
    );
    assert_eq!(
        Error::DbExecuteError { statement: text("SELECT 1"), source: text("gone") }.message(),
        "Could not execute statement \"SELECT 1\": \"gone\""
    );
    assert_eq!(
        Error::DbRollbackTransactionError { source: text("lost") }.message(),
        "Could not roll back transaction: lost"
    );
    assert_eq!(
        Error::DbCommitTransactionError { source: text("full") }.message(),
        "Could not commit transaction: full"
    );
    assert_eq!(
        Error::DbMailingListDoesNotExist { list_name: text("l@x.org") }.message(),
        "Mailing list l@x.org does not exist in the database"
    );
}

#[test]
fn failures_of_the_daemon_are_reported() {
    assert_eq!(
        Error::DaemonizeError { source: text("locked") }.message(),
        "Could not daemonize: locked. Server already running?"
    );
    assert_eq!(
        Error::SyslogError { source: text("no socket") }.message(),
        "Could not connect to syslog: no socket"
    );
    assert_eq!(
        Error::SetLoggerError { source: text("twice") }.message(),
        "Error when initializing the logging subsystem: twice"
    );
    assert_eq!(
        Error::SocketBindError { path: text("/run/s"), source: text("in use") }.message(),
        "Could not bind to socket /run/s: in use"
    );
    assert_eq!(
        Error::SocketAcceptError { socket: text("/run/s"), source: text("too many files") }
            .message(),
        "Could not accept a connection on socket /run/s: too many files"
    );
    assert_eq!(
        Error::ExitHandlerError { source: text("twice") }.message(),
        "Could not bind exit handler: twice"
    );
    assert_eq!(
        Error::ServerStateError { source: text("poisoned") }.message(),
        "Could not read/write server state: poisoned"
    );
    assert_eq!(
        Error::SocketConnectError { socket: text("/run/s"), source: text("refused") }.message(),
        "Could not connect to socket /run/s: refused. Server not running?"
    );
    assert_eq!(
        Error::SocketPermissionError { socket: text("/run/s"), source: text("denied") }
            .message(),
        "Could not change permissions of socket /run/s: denied"
    );
    assert_eq!(
        Error::SocketCloseError { socket: text("/run/s"), source: text("reset") }.message(),
        "Could not close socket /run/s: reset"
    );
}

#[test]
fn failures_of_requests_are_reported() {
    assert_eq!(
        Error::RequestParseError { source: text("eof") }.message(),
        "Could not parse request: eof"
    );
    assert_eq!(
        Error::RequestSerializeError { source: text("io") }.message(),
        "Could not serialize request: io"
    );
    assert_eq!(
        Error::MailParseError { source: text("bad header") }.message(),
        "Could not parse mail: bad header"
    );
    assert_eq!(
        Error::SubscriptionRequestWithoutData.message(),
        "Subscription request without data"
    );
}

#[test]
fn the_request_is_quoted_the_way_a_debugger_shows_it() {
    assert_eq!(
        Error::EmptyOrMissingHeader { header: text("FROM"), request: text("To: \"x\"\n") }
            .message(),
        "Empty or missing FROM header in request \"\"To: \\\"x\\\"\\n\"\""
    );
    assert_eq!(
        Error::CouldNotParseHeader { header: text("FROM"), request: text("From: none\n") }
            .message(),
        "Could not parse FROM header in request \"\"From: none\\n\"\""
    );
    assert_eq!(
        Error::RequestWithoutListName { request_type: text("SUBSCRIBE"), request: text("a\tb") }
            .message(),
        "Request SUBSCRIBE without list name: \"\"a\\tb\"\""
    );
}

#[test]
fn numbers_are_written_in_decimal() {
    assert_eq!(u32_to_decimal(0), "0");
    assert_eq!(u32_to_decimal(7), "7");
    assert_eq!(u32_to_decimal(10), "10");
    assert_eq!(u32_to_decimal(1000), "1000");
    assert_eq!(u32_to_decimal(90210), "90210");
    assert_eq!(u32_to_decimal(u32::MAX), "4294967295");
}

#[test]
fn pieces_are_joined_in_order() {
    assert_eq!(join2("a", "b"), "ab");
    assert_eq!(join3("a", "", "c"), "ac");
    assert_eq!(join4("a", "b", "c", "d"), "abcd");
    assert_eq!(join5("1", "2", "3", "4", "5"), "12345");
}

#[test]
fn start_and_end_are_recorded_with_the_ids() {
    let config = Config {
        db_url: text("mysql://x"),
        uid: 1000,
        gid: 0,
        pid_file: text("/run/d.pid"),
        working_dir: text("/"),
        socket: text("/run/d.sock"),
    };
    assert_eq!(log_start(&config), "simplemmd started, uid = 1000, gid = 0");
    assert_eq!(log_end(&config), "simplemmd stopped, uid = 1000, gid = 0");
}
