//! The state of the running server: a cell that many connections read at
//! once and that one of them empties when the server is told to stop.
//!
//! A cell belongs to one run of the server. It is made when the server
//! starts, holding the identity of that run, and from then on holds either
//! that identity or nothing. Readers share the cell; emptying it excludes
//! everyone else.

use crate::error::{Error, ErrorView};
use crate::text::{decimal, join4, texts_view, u32_to_decimal};
use crate::types::{Config, ConfigView, DaemonState, DaemonStateView, Timestamp};
use vstd::prelude::*;
use vstd::rwlock::{RwLock, RwLockPredicate, WriteHandle};

verus! {

/// The version that the server reports.
pub const SERVER_VERSION: &'static str = "0.1.0";

/// What reading the state reports once the server has been stopped.
pub const NOT_RUNNING: &'static str = "the server is not running";

/// The version that the server reports.
pub fn get_server_version() -> (version: &'static str)
    ensures
        version@ == SERVER_VERSION@,
{
    SERVER_VERSION
}

/// What a cell may hold: the identity of the run it was made for, or nothing.
pub struct OneRun {
    pub started: DaemonStateView,
}

impl RwLockPredicate<Option<DaemonState>> for OneRun {
    open spec fn inv(self, held: Option<DaemonState>) -> bool {
        held matches Some(state) ==> state@ == self.started
    }
}

/// The cell of one run of the server.
pub struct ServerState {
    cell: RwLock<Option<DaemonState>, OneRun>,
}

impl ServerState {
    /// The identity of the run that the cell was made for.
    pub closed spec fn started(&self) -> DaemonStateView {
        self.cell.pred().started
    }
}

/// Reads the clock with `chrono::Utc::now` and takes the seconds and the
/// nanoseconds of what it returns. That function counts from 1970 and fails
/// on a clock set before that year, so the seconds are not negative; it
/// never reports a leap second.
#[verifier::external_body]
fn utc_now() -> (now: Timestamp)
    ensures
        now.seconds >= 0,
        now.nanos < 1_000_000_000,
{
    let now = chrono::Utc::now();
    Timestamp { seconds: now.timestamp(), nanos: now.timestamp_subsec_nanos() }
}

/// Starts a run of the server with the settings `config`, at the time that
/// the clock shows.
pub fn start_server(config: &Config) -> (server: ServerState)
    ensures
        server.started().config == config@,
        server.started().server_version == SERVER_VERSION@,
        server.started().start_time.seconds >= 0,
        server.started().start_time.wf(),
{
    let now = utc_now();
    start_server_at(config, now)
}

/// Starts a run of the server with the settings `config`, at the time `now`.
pub fn start_server_at(config: &Config, now: Timestamp) -> (server: ServerState)
    ensures
        server.started() == (DaemonStateView {
            config: config@,
            start_time: now,
            server_version: SERVER_VERSION@,
        }),
{
    let held = first_content(config, now);
    let ghost run = OneRun { started: held->0@ };
    ServerState { cell: RwLock::new(held, Ghost(run)) }
}

/// What the cell of a server is filled with when the server starts with the
/// settings `config` at the time `now`: the state of that run.
pub fn first_content(config: &Config, now: Timestamp) -> (held: Option<DaemonState>)
    ensures
        held matches Some(state) && state@ == (DaemonStateView {
            config: config@,
            start_time: now,
            server_version: SERVER_VERSION@,
        }),
{
    Some(DaemonState::new(config, &now, get_server_version()))
}

/// What a reader is given for the content `held` of a cell: a copy of the
/// state, or the report that the server is not running.
pub fn snapshot(held: &Option<DaemonState>) -> (read: Result<DaemonState, Error>)
    ensures
        match *held {
            Some(state) => read matches Ok(copy) && copy@ == state@,
            None => read matches Err(error) && error@ == (ErrorView::ServerStateError {
                source: NOT_RUNNING@,
            }),
        },
{
    match held {
        Some(state) => Ok(state.clone()),
        None => Err(Error::ServerStateError { source: NOT_RUNNING.to_owned() }),
    }
}

/// What reading the cell of `server` can give: the identity of the one run
/// that the cell was made for, whole; or the report that the server is not
/// running.
pub open spec fn may_read(server: ServerState, read: Result<DaemonState, Error>) -> bool {
    match read {
        Ok(state) => state@ == server.started(),
        Err(error) => error@ == (ErrorView::ServerStateError { source: NOT_RUNNING@ }),
    }
}

/// Reads the state of the server, sharing the cell with other readers.
///
/// Nothing else can be read from a cell than what [`may_read`] allows,
/// however many read it and whenever it is emptied.
pub fn get_server_state(server: &ServerState) -> (read: Result<DaemonState, Error>)
    ensures
        may_read(*server, read),
{
    let handle = server.cell.acquire_read();
    let read = snapshot(handle.borrow());
    handle.release_read();
    read
}

/// The line that records the start of a server under `config`.
pub open spec fn start_line(config: ConfigView) -> Seq<char> {
    "simplemmd started, uid = "@ + decimal(config.uid as nat) + ", gid = "@ + decimal(
        config.gid as nat,
    )
}

/// The line that records the end of a server under `config`.
pub open spec fn end_line(config: ConfigView) -> Seq<char> {
    "simplemmd stopped, uid = "@ + decimal(config.uid as nat) + ", gid = "@ + decimal(
        config.gid as nat,
    )
}

/// The line that records the start of a server under `config`.
pub fn log_start(config: &Config) -> (line: String)
    ensures
        line@ == start_line(config@),
{
    let uid = u32_to_decimal(config.uid);
    let gid = u32_to_decimal(config.gid);
    join4("simplemmd started, uid = ", uid.as_str(), ", gid = ", gid.as_str())
}

/// The line that records the end of a server under `config`.
pub fn log_end(config: &Config) -> (line: String)
    ensures
        line@ == end_line(config@),
{
    let uid = u32_to_decimal(config.uid);
    let gid = u32_to_decimal(config.gid);
    join4("simplemmd stopped, uid = ", uid.as_str(), ", gid = ", gid.as_str())
}

/// A stop in progress. It holds the cell to itself until [`Shutdown::finish`]
/// empties and releases it; a program that ends instead never lets a second
/// stop in.
pub struct Shutdown<'a> {
    handle: WriteHandle<'a, Option<DaemonState>, OneRun>,
    state: Option<DaemonState>,
}

/// The files that a server under `config` leaves behind: its socket and the
/// file with its process id, in that order.
pub open spec fn files_of(config: ConfigView) -> Seq<Seq<char>> {
    seq![config.socket, config.pid_file]
}

impl<'a> Shutdown<'a> {
    /// The state that the stop found in the cell: that of the run, or nothing
    /// where an earlier stop had emptied the cell.
    pub closed spec fn found(&self) -> Option<DaemonStateView> {
        match self.state {
            Some(state) => Some(state@),
            None => None,
        }
    }

    /// Whether this stop found the server running.
    pub fn was_running(&self) -> (running: bool)
        ensures
            running == self.found().is_some(),
    {
        self.state.is_some()
    }

    /// The files to delete: those of the server that was found, none where
    /// none was found.
    pub fn files(&self) -> (files: Vec<String>)
        ensures
            texts_view(files@) == match self.found() {
                Some(state) => files_of(state.config),
                None => Seq::<Seq<char>>::empty(),
            },
    {
        let mut files: Vec<String> = Vec::new();
        match &self.state {
            Some(state) => {
                files.push(state.config.socket.clone());
                files.push(state.config.pid_file.clone());
                assert(texts_view(files@) =~= files_of(state@.config));
            },
            None => {
                assert(texts_view(files@) =~= Seq::<Seq<char>>::empty());
            },
        }
        files
    }

    /// The line that records the end of the server that was found.
    pub fn log_line(&self) -> (line: Option<String>)
        ensures
            match self.found() {
                Some(state) => line matches Some(text) && text@ == end_line(state.config),
                None => line is None,
            },
    {
        match &self.state {
            Some(state) => Some(log_end(&state.config)),
            None => None,
        }
    }

    /// Leaves the cell empty and lets others in again.
    pub fn finish(self) {
        let Shutdown { handle, state: _ } = self;
        handle.release_write(None);
    }
}

/// Begins to stop the server: waits until nobody else uses the cell, then
/// takes out what it holds.
///
/// Whatever is found is the state of the run that the cell was made for.
pub fn stop_server(server: &ServerState) -> (shutdown: Shutdown<'_>)
    ensures
        shutdown.found() matches Some(state) ==> state == server.started(),
{
    let (state, handle) = server.cell.acquire_write();
    shutdown_holding(state, handle)
}

/// The stop that holds the cell by `handle` and has taken `state` out of it:
/// it has found what was taken out.
pub fn shutdown_holding<'a>(
    state: Option<DaemonState>,
    handle: WriteHandle<'a, Option<DaemonState>, OneRun>,
) -> (shutdown: Shutdown<'a>)
    ensures
        shutdown.found() == match state {
            Some(held) => Some(held@),
            None => None,
        },
{
    Shutdown { handle, state }
}

/// All that is read of one server agrees: two readings that gave a state
/// gave the same settings, the same time of start and the same version,
/// whenever they were made.
pub proof fn lemma_readings_agree(server: ServerState, first: DaemonState, second: DaemonState)
    requires
        may_read(server, Ok(first)),
        may_read(server, Ok(second)),
    ensures
        first@.config == second@.config,
        first@.start_time == second@.start_time,
        first@.server_version == second@.server_version,
{
}

/// A state that is read is that of one start: of a server whose cell was
/// made for the settings `config` at the time `now`, every reading that
/// gives a state gives these settings, this time and the version of this
/// library, and never a part of anything else.
pub proof fn lemma_reading_is_of_one_start(
    server: ServerState,
    config: Config,
    now: Timestamp,
    read: DaemonState,
)
    requires
        server.started() == (DaemonStateView {
            config: config@,
            start_time: now,
            server_version: SERVER_VERSION@,
        }),
        may_read(server, Ok(read)),
    ensures
        read@.config == config@,
        read@.start_time == now,
        read@.server_version == SERVER_VERSION@,
{
}

} // verus!
