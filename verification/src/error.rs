//! Everything that can go wrong in the daemon and its client, and the line
//! that reports each failure.
//!
//! A failure that comes from outside (the operating system, the database, a
//! parser) is carried as the text of its report, in the field `source`.

use crate::text::{join2, join3, join4, join5};
use vstd::prelude::*;

verus! {

#[derive(Debug, PartialEq, Eq)]
pub enum Error {
    FileOpenError { filename: String, source: String },
    TomlParsingError { filename: String, source: String },
    DbConnectionError { source: String },
    DbStartTransactionError { source: String },
    DbPrepareError { statement: String, source: String },
    DbExecuteError { statement: String, source: String },
    DbRollbackTransactionError { source: String },
    DbCommitTransactionError { source: String },
    DaemonizeError { source: String },
    SyslogError { source: String },
    SetLoggerError { source: String },
    CouldNotWriteToFileOrDirectory { path: String },
    PathNoFile { path: String },
    PathMetadataError { path: String, source: String },
    SocketBindError { path: String, source: String },
    SocketAcceptError { socket: String, source: String },
    ExitHandlerError { source: String },
    RequestParseError { source: String },
    RequestSerializeError { source: String },
    ServerStateError { source: String },
    PidFileReadError { filename: String, source: String },
    PidFileParseError { filename: String, source: String },
    SocketConnectError { socket: String, source: String },
    SocketPermissionError { socket: String, source: String },
    SocketCloseError { socket: String, source: String },
    ReadStdinError { source: String },
    MailParseError { source: String },
    SubscriptionRequestWithoutData,
    EmptyOrMissingHeader { header: String, request: String },
    CouldNotParseHeader { header: String, request: String },
    RequestWithoutListName { request_type: String, request: String },
    DbMailingListDoesNotExist { list_name: String },
}

/// What an `Error` holds, as mathematical values.
pub enum ErrorView {
    FileOpenError { filename: Seq<char>, source: Seq<char> },
    TomlParsingError { filename: Seq<char>, source: Seq<char> },
    DbConnectionError { source: Seq<char> },
    DbStartTransactionError { source: Seq<char> },
    DbPrepareError { statement: Seq<char>, source: Seq<char> },
    DbExecuteError { statement: Seq<char>, source: Seq<char> },
    DbRollbackTransactionError { source: Seq<char> },
    DbCommitTransactionError { source: Seq<char> },
    DaemonizeError { source: Seq<char> },
    SyslogError { source: Seq<char> },
    SetLoggerError { source: Seq<char> },
    CouldNotWriteToFileOrDirectory { path: Seq<char> },
    PathNoFile { path: Seq<char> },
    PathMetadataError { path: Seq<char>, source: Seq<char> },
    SocketBindError { path: Seq<char>, source: Seq<char> },
    SocketAcceptError { socket: Seq<char>, source: Seq<char> },
    ExitHandlerError { source: Seq<char> },
    RequestParseError { source: Seq<char> },
    RequestSerializeError { source: Seq<char> },
    ServerStateError { source: Seq<char> },
    PidFileReadError { filename: Seq<char>, source: Seq<char> },
    PidFileParseError { filename: Seq<char>, source: Seq<char> },
    SocketConnectError { socket: Seq<char>, source: Seq<char> },
    SocketPermissionError { socket: Seq<char>, source: Seq<char> },
    SocketCloseError { socket: Seq<char>, source: Seq<char> },
    ReadStdinError { source: Seq<char> },
    MailParseError { source: Seq<char> },
    SubscriptionRequestWithoutData,
    EmptyOrMissingHeader { header: Seq<char>, request: Seq<char> },
    CouldNotParseHeader { header: Seq<char>, request: Seq<char> },
    RequestWithoutListName { request_type: Seq<char>, request: Seq<char> },
    DbMailingListDoesNotExist { list_name: Seq<char> },
}

impl View for Error {
    type V = ErrorView;

    open spec fn view(&self) -> ErrorView {
        match *self {
            Error::FileOpenError { filename, source } => ErrorView::FileOpenError {
                filename: filename@,
                source: source@,
            },
            Error::TomlParsingError { filename, source } => ErrorView::TomlParsingError {
                filename: filename@,
                source: source@,
            },
            Error::DbConnectionError { source } => ErrorView::DbConnectionError {
                source: source@,
            },
            Error::DbStartTransactionError { source } => ErrorView::DbStartTransactionError {
                source: source@,
            },
            Error::DbPrepareError { statement, source } => ErrorView::DbPrepareError {
                statement: statement@,
                source: source@,
            },
            Error::DbExecuteError { statement, source } => ErrorView::DbExecuteError {
                statement: statement@,
                source: source@,
            },
            Error::DbRollbackTransactionError { source } => ErrorView::DbRollbackTransactionError {
                source: source@,
            },
            Error::DbCommitTransactionError { source } => ErrorView::DbCommitTransactionError {
                source: source@,
            },
            Error::DaemonizeError { source } => ErrorView::DaemonizeError { source: source@ },
            Error::SyslogError { source } => ErrorView::SyslogError { source: source@ },
            Error::SetLoggerError { source } => ErrorView::SetLoggerError { source: source@ },
            Error::CouldNotWriteToFileOrDirectory { path } => {
                ErrorView::CouldNotWriteToFileOrDirectory { path: path@ }
            },
            Error::PathNoFile { path } => ErrorView::PathNoFile { path: path@ },
            Error::PathMetadataError { path, source } => ErrorView::PathMetadataError {
                path: path@,
                source: source@,
            },
            Error::SocketBindError { path, source } => ErrorView::SocketBindError {
                path: path@,
                source: source@,
            },
            Error::SocketAcceptError { socket, source } => ErrorView::SocketAcceptError {
                socket: socket@,
                source: source@,
            },
            Error::ExitHandlerError { source } => ErrorView::ExitHandlerError { source: source@ },
            Error::RequestParseError { source } => ErrorView::RequestParseError {
                source: source@,
            },
            Error::RequestSerializeError { source } => ErrorView::RequestSerializeError {
                source: source@,
            },
            Error::ServerStateError { source } => ErrorView::ServerStateError { source: source@ },
            Error::PidFileReadError { filename, source } => ErrorView::PidFileReadError {
                filename: filename@,
                source: source@,
            },
            Error::PidFileParseError { filename, source } => ErrorView::PidFileParseError {
                filename: filename@,
                source: source@,
            },
            Error::SocketConnectError { socket, source } => ErrorView::SocketConnectError {
                socket: socket@,
                source: source@,
            },
            Error::SocketPermissionError { socket, source } => ErrorView::SocketPermissionError {
                socket: socket@,
                source: source@,
            },
            Error::SocketCloseError { socket, source } => ErrorView::SocketCloseError {
                socket: socket@,
                source: source@,
            },
            Error::ReadStdinError { source } => ErrorView::ReadStdinError { source: source@ },
            Error::MailParseError { source } => ErrorView::MailParseError { source: source@ },
            Error::SubscriptionRequestWithoutData => ErrorView::SubscriptionRequestWithoutData,
            Error::EmptyOrMissingHeader { header, request } => ErrorView::EmptyOrMissingHeader {
                header: header@,
                request: request@,
            },
            Error::CouldNotParseHeader { header, request } => ErrorView::CouldNotParseHeader {
                header: header@,
                request: request@,
            },
            Error::RequestWithoutListName { request_type, request } => {
                ErrorView::RequestWithoutListName {
                    request_type: request_type@,
                    request: request@,
                }
            },
            Error::DbMailingListDoesNotExist { list_name } => {
                ErrorView::DbMailingListDoesNotExist { list_name: list_name@ }
            },
        }
    }
}

/// `text` written the way a debugger shows a string: between double quotes,
/// with the characters that need it escaped.
pub uninterp spec fn debug_form(text: Seq<char>) -> Seq<char>;

/// Calls the `Debug` formatting of `str` in the standard library. The contract
/// only names what that formatting returns; it is the same for the same text.
#[verifier::external_body]
fn debug_text(text: &str) -> (quoted: String)
    ensures
        quoted@ == debug_form(text@),
{
    format!("{:?}", text)
}

/// The line that reports `error`.
pub open spec fn message_text(error: ErrorView) -> Seq<char> {
    match error {
        ErrorView::FileOpenError { filename, source } => "Could not open config file \""@
            + filename + "\": "@ + source,
        ErrorView::TomlParsingError { filename, source } =>
            "Could not parse configuration file \""@ + filename + "\": "@ + source,
        ErrorView::DbConnectionError { source } => "Could not reach database: "@ + source,
        ErrorView::DbStartTransactionError { source } => "Could not start transaction: "@
            + source,
        ErrorView::DbPrepareError { statement, source } => "Could not prepare statement \""@
            + statement + "\": \""@ + source + "\""@,
        ErrorView::DbExecuteError { statement, source } => "Could not execute statement \""@
            + statement + "\": \""@ + source + "\""@,
        ErrorView::DbRollbackTransactionError { source } => "Could not roll back transaction: "@
            + source,
        ErrorView::DbCommitTransactionError { source } => "Could not commit transaction: "@
            + source,
        ErrorView::DaemonizeError { source } => "Could not daemonize: "@ + source
            + ". Server already running?"@,
        ErrorView::SyslogError { source } => "Could not connect to syslog: "@ + source,
        ErrorView::SetLoggerError { source } =>
            "Error when initializing the logging subsystem: "@ + source,
        ErrorView::CouldNotWriteToFileOrDirectory { path } => "Path \""@ + path
            + "\" not writeable. Permission error?"@,
        ErrorView::PathNoFile { path } => "Path "@ + path + " is not a file"@,
        ErrorView::PathMetadataError { path, source } => "Error obtaining path metadata for "@
            + path + ": "@ + source,
        ErrorView::SocketBindError { path, source } => "Could not bind to socket "@ + path
            + ": "@ + source,
        ErrorView::SocketAcceptError { socket, source } =>
            "Could not accept a connection on socket "@ + socket + ": "@ + source,
        ErrorView::ExitHandlerError { source } => "Could not bind exit handler: "@ + source,
        ErrorView::RequestParseError { source } => "Could not parse request: "@ + source,
        ErrorView::RequestSerializeError { source } => "Could not serialize request: "@
            + source,
        ErrorView::ServerStateError { source } => "Could not read/write server state: "@
            + source,
        ErrorView::PidFileReadError { filename, source } => "Could not read pid file \""@
            + filename + "\": "@ + source + ". Server not running?"@,
        ErrorView::PidFileParseError { filename, source } => "Could not parse pid file \""@
            + filename + "\": "@ + source + ". Server not running?"@,
        ErrorView::SocketConnectError { socket, source } => "Could not connect to socket "@
            + socket + ": "@ + source + ". Server not running?"@,
        ErrorView::SocketPermissionError { socket, source } =>
            "Could not change permissions of socket "@ + socket + ": "@ + source,
        ErrorView::SocketCloseError { socket, source } => "Could not close socket "@ + socket
            + ": "@ + source,
        ErrorView::ReadStdinError { source } => "Could not read data from stdin: "@ + source,
        ErrorView::MailParseError { source } => "Could not parse mail: "@ + source,
        ErrorView::SubscriptionRequestWithoutData => "Subscription request without data"@,
        ErrorView::EmptyOrMissingHeader { header, request } => "Empty or missing "@ + header
            + " header in request \""@ + debug_form(request) + "\""@,
        ErrorView::CouldNotParseHeader { header, request } => "Could not parse "@ + header
            + " header in request \""@ + debug_form(request) + "\""@,
        ErrorView::RequestWithoutListName { request_type, request } => "Request "@
            + request_type + " without list name: \""@ + debug_form(request) + "\""@,
        ErrorView::DbMailingListDoesNotExist { list_name } => "Mailing list "@ + list_name
            + " does not exist in the database"@,
    }
}

impl Error {
    /// The line that reports this error.
    pub fn message(&self) -> (text: String)
        ensures
            text@ == message_text(self@),
    {
        match self {
            Error::FileOpenError { filename, source } => join4(
                "Could not open config file \"",
                filename.as_str(),
                "\": ",
                source.as_str(),
            ),
            Error::TomlParsingError { filename, source } => join4(
                "Could not parse configuration file \"",
                filename.as_str(),
                "\": ",
                source.as_str(),
            ),
            Error::DbConnectionError { source } => join2(
                "Could not reach database: ",
                source.as_str(),
            ),
            Error::DbStartTransactionError { source } => join2(
                "Could not start transaction: ",
                source.as_str(),
            ),
            Error::DbPrepareError { statement, source } => join5(
                "Could not prepare statement \"",
                statement.as_str(),
                "\": \"",
                source.as_str(),
                "\"",
            ),
            Error::DbExecuteError { statement, source } => join5(
                "Could not execute statement \"",
                statement.as_str(),
                "\": \"",
                source.as_str(),
                "\"",
            ),
            Error::DbRollbackTransactionError { source } => join2(
                "Could not roll back transaction: ",
                source.as_str(),
            ),
            Error::DbCommitTransactionError { source } => join2(
                "Could not commit transaction: ",
                source.as_str(),
            ),
            Error::DaemonizeError { source } => join3(
                "Could not daemonize: ",
                source.as_str(),
                ". Server already running?",
            ),
            Error::SyslogError { source } => join2(
                "Could not connect to syslog: ",
                source.as_str(),
            ),
            Error::SetLoggerError { source } => join2(
                "Error when initializing the logging subsystem: ",
                source.as_str(),
            ),
            Error::CouldNotWriteToFileOrDirectory { path } => join3(
                "Path \"",
                path.as_str(),
                "\" not writeable. Permission error?",
            ),
            Error::PathNoFile { path } => join3("Path ", path.as_str(), " is not a file"),
            Error::PathMetadataError { path, source } => join4(
                "Error obtaining path metadata for ",
                path.as_str(),
                ": ",
                source.as_str(),
            ),
            Error::SocketBindError { path, source } => join4(
                "Could not bind to socket ",
                path.as_str(),
                ": ",
                source.as_str(),
            ),
            Error::SocketAcceptError { socket, source } => join4(
                "Could not accept a connection on socket ",
                socket.as_str(),
                ": ",
                source.as_str(),
            ),
            Error::ExitHandlerError { source } => join2(
                "Could not bind exit handler: ",
                source.as_str(),
            ),
            Error::RequestParseError { source } => join2(
                "Could not parse request: ",
                source.as_str(),
            ),
            Error::RequestSerializeError { source } => join2(
                "Could not serialize request: ",
                source.as_str(),
            ),
            Error::ServerStateError { source } => join2(
                "Could not read/write server state: ",
                source.as_str(),
            ),
            Error::PidFileReadError { filename, source } => join5(
                "Could not read pid file \"",
                filename.as_str(),
                "\": ",
                source.as_str(),
                ". Server not running?",
            ),
            Error::PidFileParseError { filename, source } => join5(
                "Could not parse pid file \"",
                filename.as_str(),
                "\": ",
                source.as_str(),
                ". Server not running?",
            ),
            Error::SocketConnectError { socket, source } => join5(
                "Could not connect to socket ",
                socket.as_str(),
                ": ",
                source.as_str(),
                ". Server not running?",
            ),
            Error::SocketPermissionError { socket, source } => join4(
                "Could not change permissions of socket ",
                socket.as_str(),
                ": ",
                source.as_str(),
            ),
            Error::SocketCloseError { socket, source } => join4(
                "Could not close socket ",
                socket.as_str(),
                ": ",
                source.as_str(),
            ),
            Error::ReadStdinError { source } => join2(
                "Could not read data from stdin: ",
                source.as_str(),
            ),
            Error::MailParseError { source } => join2("Could not parse mail: ", source.as_str()),
            Error::SubscriptionRequestWithoutData => "Subscription request without data".to_owned(),
            Error::EmptyOrMissingHeader { header, request } => {
                let quoted = debug_text(request.as_str());
                join5(
                    "Empty or missing ",
                    header.as_str(),
                    " header in request \"",
                    quoted.as_str(),
                    "\"",
                )
            },
            Error::CouldNotParseHeader { header, request } => {
                let quoted = debug_text(request.as_str());
                join5(
                    "Could not parse ",
                    header.as_str(),
                    " header in request \"",
                    quoted.as_str(),
                    "\"",
                )
            },
            Error::RequestWithoutListName { request_type, request } => {
                let quoted = debug_text(request.as_str());
                join5(
                    "Request ",
                    request_type.as_str(),
                    " without list name: \"",
                    quoted.as_str(),
                    "\"",
                )
            },
            Error::DbMailingListDoesNotExist { list_name } => join3(
                "Mailing list ",
                list_name.as_str(),
                " does not exist in the database",
            ),
        }
    }
}

} // verus!
