//! The database side of an enrollment: one transaction that records every
//! address of a request against its list, or none of them.
//!
//! The library does not talk to the database. An [`Enrollment`] says which
//! action is due next; the program carries it out and reports how it went;
//! the enrollment then moves on. Every request ends in the action
//! [`DbAction::Finish`], after which [`Enrollment::into_result`] tells how the
//! request ended.

use crate::error::{Error, ErrorView};
use crate::state::{get_server_state, ServerState, NOT_RUNNING};
use crate::types::{DaemonState, Subscription, SubscriptionView};
use vstd::prelude::*;

verus! {

/// Finds the row of a mailing list by the list's address.
pub const LOOKUP_STATEMENT: &'static str = "SELECT id FROM mailing_lists WHERE email = :email";

/// Stores one subscription.
pub const INSERT_STATEMENT: &'static str =
    "INSERT INTO subscriptions (uuid, list_id, email, request)\n                           VALUES (:uuid, :list_id, :email, :request)";

/// One row for the table of subscriptions.
#[derive(Debug, PartialEq, Eq)]
pub struct Row {
    pub uuid: String,
    pub list_id: i32,
    pub email: String,
    /// The text of the request that asked for the subscription, unchanged.
    pub request: String,
}

/// What a `Row` holds, as mathematical values.
pub struct RowView {
    pub uuid: Seq<char>,
    pub list_id: i32,
    pub email: Seq<char>,
    pub request: Seq<char>,
}

impl View for Row {
    type V = RowView;

    open spec fn view(&self) -> RowView {
        RowView {
            uuid: self.uuid@,
            list_id: self.list_id,
            email: self.email@,
            request: self.request@,
        }
    }
}

/// The views of the rows of `rows`, in order.
pub open spec fn rows_view(rows: Seq<Row>) -> Seq<RowView> {
    Seq::new(rows.len(), |i: int| rows[i]@)
}

/// The views of the subscriptions of `subscriptions`, in order.
pub open spec fn subscriptions_view(subscriptions: Seq<Subscription>) -> Seq<SubscriptionView> {
    Seq::new(subscriptions.len(), |i: int| subscriptions[i]@)
}

/// What the program is asked to do next.
#[derive(Debug, PartialEq, Eq)]
pub enum DbAction {
    /// Open a connection to the database at `db_url`.
    Connect { db_url: String },
    /// Open a transaction on the connection.
    StartTransaction,
    /// Prepare `statement` inside the transaction.
    Prepare { statement: String },
    /// Run the prepared `statement` with `email` for its parameter and report
    /// the `id` of the first row, if there is one.
    FindList { statement: String, email: String },
    /// Run `statement` once for each of `rows`, inside the transaction.
    InsertBatch { statement: String, rows: Vec<Row> },
    /// Do what has to follow the insertion of `subscription`.
    PostProcess { subscription: Subscription },
    /// Undo the transaction.
    Rollback,
    /// Make the transaction permanent.
    Commit,
    /// Nothing is left to do: drop what is still open.
    Finish,
}

/// What a `DbAction` holds, as mathematical values.
pub enum DbActionView {
    Connect { db_url: Seq<char> },
    StartTransaction,
    Prepare { statement: Seq<char> },
    FindList { statement: Seq<char>, email: Seq<char> },
    InsertBatch { statement: Seq<char>, rows: Seq<RowView> },
    PostProcess { subscription: SubscriptionView },
    Rollback,
    Commit,
    Finish,
}

impl View for DbAction {
    type V = DbActionView;

    open spec fn view(&self) -> DbActionView {
        match *self {
            DbAction::Connect { db_url } => DbActionView::Connect { db_url: db_url@ },
            DbAction::StartTransaction => DbActionView::StartTransaction,
            DbAction::Prepare { statement } => DbActionView::Prepare { statement: statement@ },
            DbAction::FindList { statement, email } => DbActionView::FindList {
                statement: statement@,
                email: email@,
            },
            DbAction::InsertBatch { statement, rows } => DbActionView::InsertBatch {
                statement: statement@,
                rows: rows_view(rows@),
            },
            DbAction::PostProcess { subscription } => DbActionView::PostProcess {
                subscription: subscription@,
            },
            DbAction::Rollback => DbActionView::Rollback,
            DbAction::Commit => DbActionView::Commit,
            DbAction::Finish => DbActionView::Finish,
        }
    }
}

/// How far an enrollment has come. Each phase but the last waits for the
/// report on one action.
#[derive(Debug, PartialEq, Eq)]
pub enum Phase {
    Connecting,
    StartingTransaction,
    PreparingLookup,
    ResolvingList,
    /// The list is found; the batch is being inserted.
    Inserting,
    /// The batch is inserted; subscription number `next` is being processed,
    /// those before it are done.
    PostProcessing { next: usize },
    Committing,
    /// Something failed after the first insert; `cause` is what to report.
    RollingBack { cause: Error },
    Finished { result: Result<(), Error> },
}

/// What a `Phase` holds, as mathematical values.
pub enum PhaseView {
    Connecting,
    StartingTransaction,
    PreparingLookup,
    ResolvingList,
    Inserting,
    PostProcessing { next: nat },
    Committing,
    RollingBack { cause: ErrorView },
    Finished { result: Result<(), ErrorView> },
}

/// The view of how a request ended.
pub open spec fn result_view(result: Result<(), Error>) -> Result<(), ErrorView> {
    match result {
        Ok(_) => Ok(()),
        Err(error) => Err(error@),
    }
}

impl View for Phase {
    type V = PhaseView;

    open spec fn view(&self) -> PhaseView {
        match *self {
            Phase::Connecting => PhaseView::Connecting,
            Phase::StartingTransaction => PhaseView::StartingTransaction,
            Phase::PreparingLookup => PhaseView::PreparingLookup,
            Phase::ResolvingList => PhaseView::ResolvingList,
            Phase::Inserting => PhaseView::Inserting,
            Phase::PostProcessing { next } => PhaseView::PostProcessing { next: next as nat },
            Phase::Committing => PhaseView::Committing,
            Phase::RollingBack { cause } => PhaseView::RollingBack { cause: cause@ },
            Phase::Finished { result } => PhaseView::Finished { result: result_view(result) },
        }
    }
}

/// An enrollment as a mathematical value: what was asked for, and how far it
/// has come.
pub struct EnrollmentView {
    pub db_url: Seq<char>,
    pub list_name: Seq<char>,
    pub subscriptions: Seq<SubscriptionView>,
    pub request: Seq<char>,
    /// The row of the list, once the lookup inside the transaction has found
    /// it.
    pub list_id: Option<i32>,
    pub phase: PhaseView,
}

impl EnrollmentView {
    /// While subscriptions are being processed, the one in turn exists; and
    /// nothing is inserted, processed or committed before the list is found.
    pub open spec fn wf(self) -> bool {
        &&& self.phase matches PhaseView::PostProcessing { next } ==> next
            < self.subscriptions.len()
        &&& self.phase is Inserting || self.phase is PostProcessing || self.phase is Committing
            || (self.phase matches PhaseView::Finished { result: Ok(_) }) ==> self.list_id is Some
    }

    /// The rows of the batch: one for each subscription, in order, each bound
    /// to the row of the list and holding the text of the request. Before the
    /// list is found there are none.
    pub open spec fn rows(self) -> Seq<RowView> {
        match self.list_id {
            Some(list_id) => Seq::new(
                self.subscriptions.len(),
                |i: int|
                    RowView {
                        uuid: self.subscriptions[i].uuid,
                        list_id,
                        email: self.subscriptions[i].email,
                        request: self.request,
                    },
            ),
            None => Seq::empty(),
        }
    }

    /// The action that the enrollment waits for.
    pub open spec fn action(self) -> DbActionView {
        match self.phase {
            PhaseView::Connecting => DbActionView::Connect { db_url: self.db_url },
            PhaseView::StartingTransaction => DbActionView::StartTransaction,
            PhaseView::PreparingLookup => DbActionView::Prepare { statement: LOOKUP_STATEMENT@ },
            PhaseView::ResolvingList => DbActionView::FindList {
                statement: LOOKUP_STATEMENT@,
                email: self.list_name,
            },
            PhaseView::Inserting => DbActionView::InsertBatch {
                statement: INSERT_STATEMENT@,
                rows: self.rows(),
            },
            PhaseView::PostProcessing { next } => DbActionView::PostProcess {
                subscription: self.subscriptions[next as int],
            },
            PhaseView::Committing => DbActionView::Commit,
            PhaseView::RollingBack { .. } => DbActionView::Rollback,
            PhaseView::Finished { .. } => DbActionView::Finish,
        }
    }

    /// The same enrollment in another phase.
    pub open spec fn at(self, phase: PhaseView) -> EnrollmentView {
        EnrollmentView { phase, ..self }
    }

    /// The enrollment after the database has answered the action that was due.
    /// `Ok` reports success, with the row that a lookup found, if any; `Err`
    /// carries the database's report of a failure.
    ///
    /// Up to the lookup a failure ends the request at once: nothing has been
    /// written. From the insert on a failure is followed by a rollback.
    /// While a subscription is being processed, and after the end, the
    /// database has nothing to answer, and the enrollment stays as it is.
    pub open spec fn after_database_reply(
        self,
        reply: Result<Option<i32>, Seq<char>>,
    ) -> EnrollmentView {
        match self.phase {
            PhaseView::Connecting => match reply {
                Ok(_) => self.at(PhaseView::StartingTransaction),
                Err(source) => self.failed(ErrorView::DbConnectionError { source }),
            },
            PhaseView::StartingTransaction => match reply {
                Ok(_) => self.at(PhaseView::PreparingLookup),
                Err(source) => self.failed(ErrorView::DbStartTransactionError { source }),
            },
            PhaseView::PreparingLookup => match reply {
                Ok(_) => self.at(PhaseView::ResolvingList),
                Err(source) => self.failed(
                    ErrorView::DbPrepareError { statement: LOOKUP_STATEMENT@, source },
                ),
            },
            PhaseView::ResolvingList => match reply {
                Ok(Some(list_id)) => EnrollmentView {
                    list_id: Some(list_id),
                    phase: PhaseView::Inserting,
                    ..self
                },
                Ok(None) => self.failed(
                    ErrorView::DbMailingListDoesNotExist { list_name: self.list_name },
                ),
                Err(source) => self.failed(
                    ErrorView::DbExecuteError { statement: LOOKUP_STATEMENT@, source },
                ),
            },
            PhaseView::Inserting => match reply {
                Ok(_) => if self.subscriptions.len() == 0 {
                    self.at(PhaseView::Committing)
                } else {
                    self.at(PhaseView::PostProcessing { next: 0 })
                },
                Err(source) => self.at(
                    PhaseView::RollingBack {
                        cause: ErrorView::DbExecuteError { statement: INSERT_STATEMENT@, source },
                    },
                ),
            },
            PhaseView::PostProcessing { .. } => self,
            PhaseView::Committing => match reply {
                Ok(_) => self.at(PhaseView::Finished { result: Ok(()) }),
                Err(source) => self.failed(ErrorView::DbCommitTransactionError { source }),
            },
            PhaseView::RollingBack { cause } => match reply {
                Ok(_) => self.failed(cause),
                Err(source) => self.failed(ErrorView::DbRollbackTransactionError { source }),
            },
            PhaseView::Finished { .. } => self,
        }
    }

    /// The enrollment, ended with `error`.
    pub open spec fn failed(self, error: ErrorView) -> EnrollmentView {
        self.at(PhaseView::Finished { result: Err(error) })
    }

    /// The enrollment after the processing of the subscription in turn has
    /// ended with `result`. After a success the next subscription is due, or
    /// the commit when there is none left. A failure is followed by a
    /// rollback, and the subscriptions behind the failed one are left alone.
    /// In a phase that processes no subscription the enrollment stays as it
    /// is.
    pub open spec fn after_post_processing(self, result: Result<(), ErrorView>) -> EnrollmentView {
        match self.phase {
            PhaseView::PostProcessing { next } => match result {
                Ok(_) => if next + 1 < self.subscriptions.len() {
                    self.at(PhaseView::PostProcessing { next: next + 1 })
                } else {
                    self.at(PhaseView::Committing)
                },
                Err(cause) => self.at(PhaseView::RollingBack { cause }),
            },
            _ => self,
        }
    }
}

/// The view of what the database answered.
pub open spec fn reply_view(reply: Result<Option<i32>, String>) -> Result<Option<i32>, Seq<char>> {
    match reply {
        Ok(found) => Ok(found),
        Err(source) => Err(source@),
    }
}

/// One request to record subscriptions, on its way through the database.
#[derive(Debug)]
pub struct Enrollment {
    db_url: String,
    list_name: String,
    subscriptions: Vec<Subscription>,
    request: String,
    list_id: Option<i32>,
    phase: Phase,
}

impl View for Enrollment {
    type V = EnrollmentView;

    closed spec fn view(&self) -> EnrollmentView {
        EnrollmentView {
            db_url: self.db_url@,
            list_name: self.list_name@,
            subscriptions: subscriptions_view(self.subscriptions@),
            request: self.request@,
            list_id: self.list_id,
            phase: self.phase@,
        }
    }
}

impl Enrollment {
    #[verifier::type_invariant]
    spec fn in_order(&self) -> bool {
        self@.wf()
    }

    /// The action that is due.
    pub fn action(&self) -> (action: DbAction)
        ensures
            self@.wf(),
            action@ == self@.action(),
    {
        proof {
            use_type_invariant(self);
        }
        match &self.phase {
            Phase::Connecting => DbAction::Connect { db_url: self.db_url.clone() },
            Phase::StartingTransaction => DbAction::StartTransaction,
            Phase::PreparingLookup => DbAction::Prepare {
                statement: LOOKUP_STATEMENT.to_owned(),
            },
            Phase::ResolvingList => DbAction::FindList {
                statement: LOOKUP_STATEMENT.to_owned(),
                email: self.list_name.clone(),
            },
            Phase::Inserting => match self.list_id {
                Some(list_id) => {
                    let rows = self.batch(list_id);
                    DbAction::InsertBatch { statement: INSERT_STATEMENT.to_owned(), rows }
                },
                None => {
                    let rows: Vec<Row> = Vec::new();
                    assert(rows_view(rows@) =~= self@.rows());
                    DbAction::InsertBatch { statement: INSERT_STATEMENT.to_owned(), rows }
                },
            },
            Phase::PostProcessing { next } => DbAction::PostProcess {
                subscription: self.subscriptions[*next].clone(),
            },
            Phase::Committing => DbAction::Commit,
            Phase::RollingBack { .. } => DbAction::Rollback,
            Phase::Finished { .. } => DbAction::Finish,
        }
    }

    /// The rows of the batch, for the list in row `list_id`.
    fn batch(&self, list_id: i32) -> (rows: Vec<Row>)
        requires
            self.list_id == Some(list_id),
        ensures
            rows_view(rows@) == self@.rows(),
    {
        let mut rows: Vec<Row> = Vec::new();
        let mut i: usize = 0;
        while i < self.subscriptions.len()
            invariant
                i <= self.subscriptions.len(),
                rows.len() == i,
                forall|k: int|
                    0 <= k < i ==> (#[trigger] rows[k])@ == (RowView {
                        uuid: self.subscriptions[k].uuid@,
                        list_id,
                        email: self.subscriptions[k].email@,
                        request: self.request@,
                    }),
            decreases self.subscriptions.len() - i,
        {
            let subscription = &self.subscriptions[i];
            rows.push(
                Row {
                    uuid: subscription.uuid.clone(),
                    list_id,
                    email: subscription.email.clone(),
                    request: self.request.clone(),
                },
            );
            i = i + 1;
        }
        assert(rows_view(rows@) =~= self@.rows());
        rows
    }

    /// Takes the database's report on the action that was due.
    pub fn database_replied(self, reply: Result<Option<i32>, String>) -> (next: Enrollment)
        ensures
            next@ == self@.after_database_reply(reply_view(reply)),
    {
        proof {
            use_type_invariant(&self);
        }
        let Enrollment { db_url, list_name, subscriptions, request, list_id, phase } = self;
        let mut found = list_id;
        let phase = match phase {
            Phase::Connecting => match reply {
                Ok(_) => Phase::StartingTransaction,
                Err(source) => Phase::Finished { result: Err(Error::DbConnectionError { source }) },
            },
            Phase::StartingTransaction => match reply {
                Ok(_) => Phase::PreparingLookup,
                Err(source) => Phase::Finished {
                    result: Err(Error::DbStartTransactionError { source }),
                },
            },
            Phase::PreparingLookup => match reply {
                Ok(_) => Phase::ResolvingList,
                Err(source) => Phase::Finished {
                    result: Err(
                        Error::DbPrepareError { statement: LOOKUP_STATEMENT.to_owned(), source },
                    ),
                },
            },
            Phase::ResolvingList => match reply {
                Ok(Some(list_id)) => {
                    found = Some(list_id);
                    Phase::Inserting
                },
                Ok(None) => Phase::Finished {
                    result: Err(Error::DbMailingListDoesNotExist { list_name: list_name.clone() }),
                },
                Err(source) => Phase::Finished {
                    result: Err(
                        Error::DbExecuteError { statement: LOOKUP_STATEMENT.to_owned(), source },
                    ),
                },
            },
            Phase::Inserting => match reply {
                Ok(_) => if subscriptions.len() == 0 {
                    Phase::Committing
                } else {
                    Phase::PostProcessing { next: 0 }
                },
                Err(source) => Phase::RollingBack {
                    cause: Error::DbExecuteError { statement: INSERT_STATEMENT.to_owned(), source },
                },
            },
            Phase::PostProcessing { next } => Phase::PostProcessing { next },
            Phase::Committing => match reply {
                Ok(_) => Phase::Finished { result: Ok(()) },
                Err(source) => Phase::Finished {
                    result: Err(Error::DbCommitTransactionError { source }),
                },
            },
            Phase::RollingBack { cause } => match reply {
                Ok(_) => Phase::Finished { result: Err(cause) },
                Err(source) => Phase::Finished {
                    result: Err(Error::DbRollbackTransactionError { source }),
                },
            },
            Phase::Finished { result } => Phase::Finished { result },
        };
        Enrollment { db_url, list_name, subscriptions, request, list_id: found, phase }
    }

    /// Takes the outcome of processing the subscription that was in turn.
    pub fn post_processed(self, result: Result<(), Error>) -> (next: Enrollment)
        ensures
            next@ == self@.after_post_processing(result_view(result)),
    {
        proof {
            use_type_invariant(&self);
            assert(self.phase matches Phase::PostProcessing { next } ==> next
                < self.subscriptions@.len());
        }
        let Enrollment { db_url, list_name, subscriptions, request, list_id, phase } = self;
        let phase = match phase {
            Phase::PostProcessing { next } => match result {
                Ok(_) => if next < subscriptions.len() - 1 {
                    Phase::PostProcessing { next: next + 1 }
                } else {
                    Phase::Committing
                },
                Err(cause) => Phase::RollingBack { cause },
            },
            other => other,
        };
        Enrollment { db_url, list_name, subscriptions, request, list_id, phase }
    }

    /// How the request ended: `None` as long as it has not.
    pub fn into_result(self) -> (result: Option<Result<(), Error>>)
        ensures
            match result {
                Some(ended) => self@.phase == (PhaseView::Finished { result: result_view(ended) }),
                None => !(self@.phase is Finished),
            },
    {
        match self.phase {
            Phase::Finished { result } => Some(result),
            _ => None,
        }
    }
}

/// Starts the enrollment of `subscriptions` in the list with the address
/// `list_name`; `request` is the text that asked for them. The database is
/// the one that the running server is set up with.
///
/// Fails, with nothing started, when the server has been stopped.
pub fn insert_subscriptions(
    server: &ServerState,
    list_name: &str,
    subscriptions: Vec<Subscription>,
    request: &str,
) -> (started: Result<Enrollment, Error>)
    ensures
        match started {
            Ok(enrollment) => enrollment@ == (EnrollmentView {
                db_url: server.started().config.db_url,
                list_name: list_name@,
                subscriptions: subscriptions_view(subscriptions@),
                request: request@,
                list_id: None,
                phase: PhaseView::Connecting,
            }),
            Err(error) => error@ == (ErrorView::ServerStateError { source: NOT_RUNNING@ }),
        },
{
    enrollment_for(get_server_state(server), list_name, subscriptions, request)
}

/// The enrollment to start once the state of the server has been read: on
/// a state, the enrollment of `subscriptions` in the list `list_name` on the
/// database of that state, with nothing done yet; on a failed reading, that
/// failure, and no enrollment.
pub fn enrollment_for(
    read: Result<DaemonState, Error>,
    list_name: &str,
    subscriptions: Vec<Subscription>,
    request: &str,
) -> (started: Result<Enrollment, Error>)
    ensures
        match read {
            Ok(state) => started matches Ok(enrollment) && enrollment@ == (EnrollmentView {
                db_url: state@.config.db_url,
                list_name: list_name@,
                subscriptions: subscriptions_view(subscriptions@),
                request: request@,
                list_id: None,
                phase: PhaseView::Connecting,
            }),
            Err(error) => started == Err::<Enrollment, Error>(error),
        },
{
    match read {
        Ok(state) => Ok(
            Enrollment {
                db_url: state.config.db_url,
                list_name: list_name.to_owned(),
                subscriptions,
                request: request.to_owned(),
                list_id: None,
                phase: Phase::Connecting,
            },
        ),
        Err(error) => Err(error),
    }
}

/// One report to an enrollment: the database's on the action that was due,
/// or that of the processing of a subscription.
pub enum Report {
    Database(Result<Option<i32>, Seq<char>>),
    PostProcessing(Result<(), ErrorView>),
}

/// The table of subscriptions as the database keeps it: the rows that every
/// reader sees, and the rows written in the transaction that is open.
pub struct Table {
    pub visible: Seq<RowView>,
    pub staged: Seq<RowView>,
}

impl Table {
    /// What the table becomes when `action` is due and `report` arrives, in a
    /// database whose transactions are atomic. An insert stages its rows; a
    /// failed one may have staged some, and is taken to have staged them all.
    /// A commit that succeeds makes the staged rows visible, and one that
    /// fails loses them; a rollback drops them. A report that does not answer
    /// the action shows that the action was not carried out.
    pub open spec fn after(self, action: DbActionView, report: Report) -> Table {
        match (action, report) {
            (DbActionView::InsertBatch { rows, .. }, Report::Database(_)) => Table {
                staged: self.staged + rows,
                ..self
            },
            (DbActionView::Commit, Report::Database(Ok(_))) => Table {
                visible: self.visible + self.staged,
                staged: Seq::empty(),
            },
            (DbActionView::Commit, Report::Database(Err(_))) => Table {
                staged: Seq::empty(),
                ..self
            },
            (DbActionView::Rollback, Report::Database(_)) => Table {
                staged: Seq::empty(),
                ..self
            },
            _ => self,
        }
    }
}

impl EnrollmentView {
    /// The enrollment after `report`.
    pub open spec fn after(self, report: Report) -> EnrollmentView {
        match report {
            Report::Database(reply) => self.after_database_reply(reply),
            Report::PostProcessing(result) => self.after_post_processing(result),
        }
    }

    /// The enrollment after all of `reports`, taken in order.
    pub open spec fn after_all(self, reports: Seq<Report>) -> EnrollmentView
        decreases reports.len(),
    {
        if reports.len() == 0 {
            self
        } else {
            self.after_all(reports.drop_last()).after(reports.last())
        }
    }

    /// The table after all of `reports`, when each action of this enrollment
    /// is carried out on `table` as it falls due.
    pub open spec fn table_after_all(self, table: Table, reports: Seq<Report>) -> Table
        decreases reports.len(),
    {
        if reports.len() == 0 {
            table
        } else {
            self.table_after_all(table, reports.drop_last()).after(
                self.after_all(reports.drop_last()).action(),
                reports.last(),
            )
        }
    }

    /// Whether the request can only fail from here on: a rollback is due, or
    /// the request has ended with an error.
    pub open spec fn doomed(self) -> bool {
        self.phase is RollingBack || (self.phase matches PhaseView::Finished { result }
            && result is Err)
    }

    /// Whether this enrollment is `start` at a later time: the same request,
    /// and `table` is what the actions so far have made of a table whose
    /// visible rows were `before`.
    pub open spec fn follows(self, start: EnrollmentView, table: Table, before: Seq<RowView>) -> bool {
        &&& self.wf()
        &&& self.db_url == start.db_url
        &&& self.list_name == start.list_name
        &&& self.subscriptions == start.subscriptions
        &&& self.request == start.request
        &&& match self.phase {
            PhaseView::Connecting
            | PhaseView::StartingTransaction
            | PhaseView::PreparingLookup
            | PhaseView::ResolvingList
            | PhaseView::Inserting => table.visible == before && table.staged == Seq::<
                RowView,
            >::empty(),
            PhaseView::PostProcessing { .. } | PhaseView::Committing => table.visible == before
                && table.staged == self.rows(),
            PhaseView::RollingBack { .. } => table.visible == before,
            PhaseView::Finished { result: Ok(_) } => table.visible == before + self.rows()
                && table.staged == Seq::<RowView>::empty(),
            PhaseView::Finished { result: Err(_) } => table.visible == before && table.staged
                == Seq::<RowView>::empty(),
        }
    }
}

/// One report keeps an enrollment and its table in step.
proof fn lemma_step_follows(
    start: EnrollmentView,
    now: EnrollmentView,
    table: Table,
    before: Seq<RowView>,
    report: Report,
)
    requires
        now.follows(start, table, before),
    ensures
        now.after(report).follows(start, table.after(now.action(), report), before),
{
    let next = now.after(report);
    let changed = table.after(now.action(), report);
    assert(Seq::<RowView>::empty() + now.rows() =~= now.rows());
    assert(next.rows() == now.rows() || now.phase is ResolvingList);
    if now.phase is Inserting && report is Database {
        assert(changed.staged =~= now.rows());
    }
}

/// Every run keeps an enrollment and its table in step.
proof fn lemma_run_follows(start: EnrollmentView, table: Table, reports: Seq<Report>)
    requires
        start.phase is Connecting,
        table.staged.len() == 0,
    ensures
        start.after_all(reports).follows(
            start,
            start.table_after_all(table, reports),
            table.visible,
        ),
    decreases reports.len(),
{
    if reports.len() == 0 {
        assert(table.staged =~= Seq::<RowView>::empty());
    } else {
        lemma_run_follows(start, table, reports.drop_last());
        lemma_step_follows(
            start,
            start.after_all(reports.drop_last()),
            start.table_after_all(table, reports.drop_last()),
            table.visible,
            reports.last(),
        );
    }
}

/// A request that can only fail stays so, whatever is reported.
proof fn lemma_doomed_stays(start: EnrollmentView, reports: Seq<Report>, from: int, to: int)
    requires
        0 <= from <= to <= reports.len(),
        start.after_all(reports.take(from)).doomed(),
    ensures
        start.after_all(reports.take(to)).doomed(),
    decreases to - from,
{
    if from < to {
        lemma_doomed_stays(start, reports, from, to - 1);
        assert(reports.take(to).drop_last() =~= reports.take(to - 1));
        assert(reports.take(to).last() == reports[to - 1]);
    }
}

/// A batch becomes visible as a whole or not at all. Start an enrollment on a
/// database with no transaction open and let any reports arrive, fitting or
/// not, in any number. If the request has then ended well, the table shows
/// the rows it showed before and, behind them, one row for each subscription
/// of the request, each bound to the list that the lookup found and holding
/// the request's text. At every other moment, and however else the request
/// ends, the table shows exactly the rows it showed before.
pub proof fn lemma_all_or_nothing(start: EnrollmentView, table: Table, reports: Seq<Report>)
    requires
        start.phase is Connecting,
        table.staged.len() == 0,
    ensures
        ({
            let end = start.after_all(reports);
            let shown = start.table_after_all(table, reports).visible;
            if end.phase matches PhaseView::Finished { result: Ok(_) } {
                &&& end.list_id is Some
                &&& shown == table.visible + end.rows()
                &&& end.rows().len() == start.subscriptions.len()
            } else {
                shown == table.visible
            }
        }),
{
    lemma_run_follows(start, table, reports);
}

/// When the processing of one subscription fails, none of the request's rows
/// is ever shown: the rollback is due at once, no later report brings a commit
/// or a good end, and the table shows what it showed before the request.
pub proof fn lemma_failed_post_processing_leaves_no_row(
    start: EnrollmentView,
    table: Table,
    reports: Seq<Report>,
    at: int,
)
    requires
        start.phase is Connecting,
        table.staged.len() == 0,
        0 <= at < reports.len(),
        start.after_all(reports.take(at)).phase is PostProcessing,
        reports[at] matches Report::PostProcessing(Err(_)),
    ensures
        start.after_all(reports.take(at + 1)).action() is Rollback,
        forall|n: int|
            at < n <= reports.len() ==> !(#[trigger] start.after_all(reports.take(n)).action()
                is Commit),
        start.after_all(reports).doomed(),
        start.table_after_all(table, reports).visible == table.visible,
{
    assert(reports.take(at + 1).drop_last() =~= reports.take(at));
    assert(reports.take(at + 1).last() == reports[at]);
    assert forall|n: int| at < n <= reports.len() implies !(#[trigger] start.after_all(
        reports.take(n),
    ).action() is Commit) by {
        lemma_doomed_stays(start, reports, at + 1, n);
    }
    lemma_doomed_stays(start, reports, at + 1, reports.len() as int);
    assert(reports.take(reports.len() as int) =~= reports);
    lemma_run_follows(start, table, reports);
}

/// When the lookup finds no list with the address, the request ends with the
/// report that the list does not exist, and stays so; no insert is ever due,
/// before or after, and the table is left as it was.
pub proof fn lemma_absent_list_inserts_nothing(
    start: EnrollmentView,
    table: Table,
    reports: Seq<Report>,
    at: int,
)
    requires
        start.phase is Connecting,
        table.staged.len() == 0,
        0 <= at < reports.len(),
        start.after_all(reports.take(at)).phase is ResolvingList,
        reports[at] == Report::Database(Ok(None)),
    ensures
        start.after_all(reports).phase == (PhaseView::Finished {
            result: Err(ErrorView::DbMailingListDoesNotExist { list_name: start.list_name }),
        }),
        forall|n: int|
            0 <= n <= reports.len() ==> !(#[trigger] start.after_all(reports.take(n)).action()
                is InsertBatch),
        start.table_after_all(table, reports) == table,
{
    let missing = PhaseView::Finished {
        result: Err(ErrorView::DbMailingListDoesNotExist { list_name: start.list_name }),
    };
    lemma_run_follows(start, table, reports.take(at));
    assert(reports.take(at + 1).drop_last() =~= reports.take(at));
    assert(reports.take(at + 1).last() == reports[at]);
    assert(start.after_all(reports.take(at + 1)).phase == missing);
    assert forall|n: int| 0 <= n <= reports.len() implies !(#[trigger] start.after_all(
        reports.take(n),
    ).action() is InsertBatch) by {
        if n <= at {
            lemma_not_yet_inserting(start, reports, n, at);
        } else {
            lemma_ended_stays(start, reports, at + 1, n);
        }
    }
    lemma_ended_stays(start, reports, at + 1, reports.len() as int);
    assert(reports.take(reports.len() as int) =~= reports);
    lemma_run_follows(start, table, reports);
    assert(start.table_after_all(table, reports).staged =~= table.staged);
}

/// The reports of a request up to the end of the processing of its first
/// `done` subscriptions, when all goes well: the connection, the transaction
/// and the prepared lookup succeed, the lookup finds the list in row
/// `list_id`, the insert succeeds, and so does the processing of each of the
/// `done` subscriptions.
pub open spec fn good_reports_up_to(done: nat, list_id: i32) -> Seq<Report>
    decreases done,
{
    if done == 0 {
        seq![
            Report::Database(Ok(None)),
            Report::Database(Ok(None)),
            Report::Database(Ok(None)),
            Report::Database(Ok(Some(list_id))),
            Report::Database(Ok(None)),
        ]
    } else {
        good_reports_up_to((done - 1) as nat, list_id).push(Report::PostProcessing(Ok(())))
    }
}

/// The reports of a whole request with `subscriptions` subscriptions in
/// which all goes well, the commit included.
pub open spec fn good_reports(subscriptions: nat, list_id: i32) -> Seq<Report> {
    good_reports_up_to(subscriptions, list_id).push(Report::Database(Ok(None)))
}

/// One more report takes the enrollment one step further.
proof fn lemma_one_more_report(start: EnrollmentView, reports: Seq<Report>, report: Report)
    ensures
        start.after_all(reports.push(report)) == start.after_all(reports).after(report),
{
    assert(reports.push(report).drop_last() =~= reports);
    assert(reports.push(report).last() == report);
}

/// While all goes well, the subscriptions are processed one after the other,
/// and the commit is due once none is left.
proof fn lemma_good_reports_up_to(start: EnrollmentView, list_id: i32, done: nat)
    requires
        start.phase is Connecting,
        done <= start.subscriptions.len(),
    ensures
        start.after_all(good_reports_up_to(done, list_id)) == (EnrollmentView {
            list_id: Some(list_id),
            phase: if done < start.subscriptions.len() {
                PhaseView::PostProcessing { next: done }
            } else {
                PhaseView::Committing
            },
            ..start
        }),
    decreases done,
{
    if done == 0 {
        let good = Report::Database(Ok(None));
        let found = Report::Database(Ok(Some(list_id)));
        let none = Seq::<Report>::empty();
        let one = none.push(good);
        let two = one.push(good);
        let three = two.push(good);
        let four = three.push(found);
        let five = four.push(good);
        assert(five =~= good_reports_up_to(0, list_id));
        assert(start.after_all(none) == start);
        lemma_one_more_report(start, none, good);
        lemma_one_more_report(start, one, good);
        lemma_one_more_report(start, two, good);
        lemma_one_more_report(start, three, found);
        lemma_one_more_report(start, four, good);
    } else {
        lemma_good_reports_up_to(start, list_id, (done - 1) as nat);
        lemma_one_more_report(
            start,
            good_reports_up_to((done - 1) as nat, list_id),
            Report::PostProcessing(Ok(())),
        );
    }
}

/// Where everything goes well, everyone is enrolled. Start an enrollment on
/// a database with no transaction open, and let every action succeed, the
/// lookup finding the list in row `list_id`. Then the request ends well,
/// and the table shows the rows it showed before and, behind them, one row
/// for each subscription of the request, in order: with the subscription's
/// identifier and address, bound to row `list_id`, and holding the
/// request's text unchanged.
pub proof fn lemma_good_replies_enroll_everyone(start: EnrollmentView, table: Table, list_id: i32)
    requires
        start.phase is Connecting,
        table.staged.len() == 0,
    ensures
        ({
            let reports = good_reports(start.subscriptions.len(), list_id);
            let rows = Seq::new(
                start.subscriptions.len(),
                |i: int|
                    RowView {
                        uuid: start.subscriptions[i].uuid,
                        list_id,
                        email: start.subscriptions[i].email,
                        request: start.request,
                    },
            );
            &&& start.after_all(reports).phase == (PhaseView::Finished { result: Ok(()) })
            &&& start.table_after_all(table, reports).visible == table.visible + rows
        }),
{
    let count = start.subscriptions.len();
    let before = good_reports_up_to(count, list_id);
    lemma_good_reports_up_to(start, list_id, count);
    lemma_one_more_report(start, before, Report::Database(Ok(None)));
    lemma_all_or_nothing(start, table, good_reports(count, list_id));
    let end = start.after_all(good_reports(count, list_id));
    assert(end.rows() =~= Seq::new(
        count,
        |i: int|
            RowView {
                uuid: start.subscriptions[i].uuid,
                list_id,
                email: start.subscriptions[i].email,
                request: start.request,
            },
    ));
}

/// Where the list does not exist, nobody is enrolled. Start an enrollment
/// on a database with no transaction open, let the connection, the
/// transaction and the prepared lookup succeed and the lookup find no row.
/// Then the request has ended with the report that the list of this name
/// does not exist, whatever is reported afterwards, and the table is left
/// as it was.
pub proof fn lemma_absent_list_ends_the_request(
    start: EnrollmentView,
    table: Table,
    afterwards: Seq<Report>,
)
    requires
        start.phase is Connecting,
        table.staged.len() == 0,
    ensures
        ({
            let reports = seq![
                Report::Database(Ok(None)),
                Report::Database(Ok(None)),
                Report::Database(Ok(None)),
                Report::Database(Ok(None)),
            ] + afterwards;
            &&& start.after_all(reports).phase == (PhaseView::Finished {
                result: Err(ErrorView::DbMailingListDoesNotExist { list_name: start.list_name }),
            })
            &&& start.table_after_all(table, reports) == table
        }),
{
    let good = Report::Database(Ok(None));
    let reports = seq![good, good, good, good] + afterwards;
    let none = Seq::<Report>::empty();
    let one = none.push(good);
    let two = one.push(good);
    let three = two.push(good);
    assert(start.after_all(none) == start);
    lemma_one_more_report(start, none, good);
    lemma_one_more_report(start, one, good);
    lemma_one_more_report(start, two, good);
    assert(reports.take(3) =~= three);
    assert(reports[3] == good);
    lemma_absent_list_inserts_nothing(start, table, reports, 3);
}

/// How far a phase lies along the way of a request.
spec fn stage(phase: PhaseView) -> int {
    match phase {
        PhaseView::Connecting => 0,
        PhaseView::StartingTransaction => 1,
        PhaseView::PreparingLookup => 2,
        PhaseView::ResolvingList => 3,
        PhaseView::Inserting => 4,
        PhaseView::PostProcessing { .. } => 5,
        PhaseView::Committing => 6,
        PhaseView::RollingBack { .. } => 7,
        PhaseView::Finished { .. } => 8,
    }
}

/// A request never goes back. So while the lookup is still due, no insert has
/// been due before.
proof fn lemma_not_yet_inserting(start: EnrollmentView, reports: Seq<Report>, n: int, at: int)
    requires
        0 <= n <= at <= reports.len(),
        start.after_all(reports.take(at)).phase is ResolvingList,
    ensures
        stage(start.after_all(reports.take(n)).phase) <= 3,
    decreases at - n,
{
    if n < at {
        lemma_not_yet_inserting(start, reports, n + 1, at);
        assert(reports.take(n + 1).drop_last() =~= reports.take(n));
        assert(reports.take(n + 1).last() == reports[n]);
    }
}

/// A request that has ended stays as it ended.
proof fn lemma_ended_stays(start: EnrollmentView, reports: Seq<Report>, from: int, to: int)
    requires
        0 <= from <= to <= reports.len(),
        start.after_all(reports.take(from)).phase is Finished,
    ensures
        start.after_all(reports.take(to)) == start.after_all(reports.take(from)),
    decreases to - from,
{
    if from < to {
        lemma_ended_stays(start, reports, from, to - 1);
        assert(reports.take(to).drop_last() =~= reports.take(to - 1));
        assert(reports.take(to).last() == reports[to - 1]);
    }
}

} // verus!
