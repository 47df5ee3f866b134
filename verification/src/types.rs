//! The values that travel between the daemon, its clients and the database.

use vstd::prelude::*;

verus! {

/// Settings of one daemon, loaded once and never changed afterwards.
#[derive(Debug, PartialEq, Eq)]
pub struct Config {
    pub db_url: String,
    pub uid: u32,
    pub gid: u32,
    pub pid_file: String,
    pub working_dir: String,
    pub socket: String,
}

/// What a `Config` holds, as mathematical values.
pub struct ConfigView {
    pub db_url: Seq<char>,
    pub uid: u32,
    pub gid: u32,
    pub pid_file: Seq<char>,
    pub working_dir: Seq<char>,
    pub socket: Seq<char>,
}

impl View for Config {
    type V = ConfigView;

    open spec fn view(&self) -> ConfigView {
        ConfigView {
            db_url: self.db_url@,
            uid: self.uid,
            gid: self.gid,
            pid_file: self.pid_file@,
            working_dir: self.working_dir@,
            socket: self.socket@,
        }
    }
}

impl Clone for Config {
    fn clone(&self) -> (copy: Self)
        ensures
            copy@ == self@,
    {
        Config {
            db_url: self.db_url.clone(),
            uid: self.uid,
            gid: self.gid,
            pid_file: self.pid_file.clone(),
            working_dir: self.working_dir.clone(),
            socket: self.socket.clone(),
        }
    }
}

/// The operation that a command asks for.
#[derive(Clone, Copy, Debug, PartialEq, Eq, Structural)]
pub enum Action {
    Stop,
    Alive,
    Subscribe,
}

/// One request on the control socket; each connection carries exactly one.
#[derive(Debug, PartialEq, Eq)]
pub struct Command {
    pub action: Action,
    /// Who sent the command; recorded for audit only.
    pub originator: String,
    pub list_name: Option<String>,
    pub data: Option<String>,
}

/// What a `Command` holds, as mathematical values.
pub struct CommandView {
    pub action: Action,
    pub originator: Seq<char>,
    pub list_name: Option<Seq<char>>,
    pub data: Option<Seq<char>>,
}

/// The characters of an optional string.
pub open spec fn option_text(value: Option<String>) -> Option<Seq<char>> {
    match value {
        Some(text) => Some(text@),
        None => None,
    }
}

impl View for Command {
    type V = CommandView;

    open spec fn view(&self) -> CommandView {
        CommandView {
            action: self.action,
            originator: self.originator@,
            list_name: option_text(self.list_name),
            data: option_text(self.data),
        }
    }
}

/// A point in time on the UTC scale: whole seconds since 1970-01-01 00:00:00
/// and the nanoseconds into that second. During a leap second the nanoseconds
/// run from 1,000,000,000 up to 1,999,999,999.
#[derive(Clone, Copy, Debug, PartialEq, Eq, Structural)]
pub struct Timestamp {
    pub seconds: i64,
    pub nanos: u32,
}

impl Timestamp {
    /// The nanoseconds stay below two seconds' worth.
    pub open spec fn wf(&self) -> bool {
        self.nanos < 2_000_000_000
    }
}

/// Identity of a running daemon: its settings, when it started and its version.
#[derive(Debug, PartialEq, Eq)]
pub struct DaemonState {
    pub config: Config,
    pub start_time: Timestamp,
    pub server_version: String,
}

/// What a `DaemonState` holds, as mathematical values.
pub struct DaemonStateView {
    pub config: ConfigView,
    pub start_time: Timestamp,
    pub server_version: Seq<char>,
}

impl View for DaemonState {
    type V = DaemonStateView;

    open spec fn view(&self) -> DaemonStateView {
        DaemonStateView {
            config: self.config@,
            start_time: self.start_time,
            server_version: self.server_version@,
        }
    }
}

impl DaemonState {
    /// Builds the state of a daemon from copies of its three parts.
    pub fn new(config: &Config, start_time: &Timestamp, server_version: &str) -> (state:
        DaemonState)
        ensures
            state@ == (DaemonStateView {
                config: config@,
                start_time: *start_time,
                server_version: server_version@,
            }),
    {
        DaemonState {
            config: config.clone(),
            start_time: *start_time,
            server_version: server_version.to_owned(),
        }
    }
}

impl Clone for DaemonState {
    fn clone(&self) -> (copy: Self)
        ensures
            copy@ == self@,
    {
        DaemonState {
            config: self.config.clone(),
            start_time: self.start_time,
            server_version: self.server_version.clone(),
        }
    }
}

/// One address that asks to join a list, under the identifier that its
/// request is stored with.
#[derive(Debug, PartialEq, Eq)]
pub struct Subscription {
    pub email: String,
    pub uuid: String,
}

/// What a `Subscription` holds, as mathematical values.
pub struct SubscriptionView {
    pub email: Seq<char>,
    pub uuid: Seq<char>,
}

impl View for Subscription {
    type V = SubscriptionView;

    open spec fn view(&self) -> SubscriptionView {
        SubscriptionView { email: self.email@, uuid: self.uuid@ }
    }
}

impl Clone for Subscription {
    fn clone(&self) -> (copy: Self)
        ensures
            copy@ == self@,
    {
        Subscription { email: self.email.clone(), uuid: self.uuid.clone() }
    }
}

} // verus!
