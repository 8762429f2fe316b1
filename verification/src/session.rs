use vstd::prelude::*;
use vstd::string::StringExecFns;
use vstd::pervasive::arbitrary;
use vstd::pervasive::unreached;
use crate::descriptor::ConnectionDescriptor;
use crate::descriptor::connection_string_spec;
use crate::render::ResultBuilder;

verus! {

/// The error kinds of the library. Every failure is terminal for the call
/// that raised it: nothing is retried, and no partial result is returned.
#[derive(Debug)]
pub enum DbError {
    /// The driver manager could not be initialized or enumerated.
    DriverManager(String),
    /// A session could not be opened or re-verified from its connection
    /// string.
    Connection(String),
    /// An operation that needs a session was attempted while none existed.
    NotConnected,
    /// Query submission, fetch or serialization failed after a connection
    /// was open.
    Execution(String),
}

/// Mathematical image of an error: each diagnostic as a character sequence.
pub enum ErrorView {
    DriverManager(Seq<char>),
    Connection(Seq<char>),
    NotConnected,
    Execution(Seq<char>),
}

impl View for DbError {
    type V = ErrorView;

    open spec fn view(&self) -> ErrorView {
        match self {
            DbError::DriverManager(m) => ErrorView::DriverManager(m@),
            DbError::Connection(m) => ErrorView::Connection(m@),
            DbError::NotConnected => ErrorView::NotConnected,
            DbError::Execution(m) => ErrorView::Execution(m@),
        }
    }
}

/// The flat descriptive message an error carries to the boundary.
pub open spec fn message_spec(e: ErrorView) -> Seq<char> {
    match e {
        ErrorView::DriverManager(m) => "Driver manager error: "@ + m,
        ErrorView::Connection(m) => "Connection error: "@ + m,
        ErrorView::NotConnected => "Not connected to database"@,
        ErrorView::Execution(m) => "Execution error: "@ + m,
    }
}

impl DbError {
    /// Renders the error as the flat descriptive message displayed at the
    /// boundary; no structured code is propagated outward.
    pub fn message(&self) -> (r: String)
        ensures
            r@ == message_spec(self@),
    {
        let mut s = String::new();
        match self {
            DbError::DriverManager(m) => {
                s.append("Driver manager error: ");
                s.append(m.as_str());
            },
            DbError::Connection(m) => {
                s.append("Connection error: ");
                s.append(m.as_str());
            },
            DbError::NotConnected => {
                s.append("Not connected to database");
            },
            DbError::Execution(m) => {
                s.append("Execution error: ");
                s.append(m.as_str());
            },
        }
        s
    }
}

/// What one attempt to open a connection reported: it opened (and was
/// dropped again at once), or the driver manager failed with a diagnostic.
pub enum ConnectProbe {
    Opened,
    Failed(String),
}

/// Mathematical image of a probe outcome.
pub enum ProbeView {
    Opened,
    Failed(Seq<char>),
}

impl View for ConnectProbe {
    type V = ProbeView;

    open spec fn view(&self) -> ProbeView {
        match self {
            ConnectProbe::Opened => ProbeView::Opened,
            ConnectProbe::Failed(m) => ProbeView::Failed(m@),
        }
    }
}

/// The view of an optional probe outcome.
pub open spec fn probe_option_view(p: Option<ConnectProbe>) -> Option<ProbeView> {
    match p {
        Some(q) => Some(q@),
        None => None,
    }
}

/// The view of a unit-valued operation result.
pub open spec fn unit_result_view(r: Result<(), DbError>) -> Result<(), ErrorView> {
    match r {
        Ok(u) => Ok(()),
        Err(e) => Err(e@),
    }
}

/// The view of a boolean-valued operation result.
pub open spec fn bool_result_view(r: Result<bool, DbError>) -> Result<bool, ErrorView> {
    match r {
        Ok(b) => Ok(b),
        Err(e) => Err(e@),
    }
}

/// What submitting a query over a freshly opened connection reported.
pub enum Submission {
    /// The connection could not be opened from the stored string.
    ConnectFailed(String),
    /// The connection opened, but the statement itself failed.
    StatementFailed(String),
    /// The statement ran and produced no result set.
    NoResultSet,
    /// The statement produced a result set with these column names, in
    /// result-set order; a name is `None` where it could not be read as
    /// text, and is then dropped from the header line.
    ResultSet(Vec<Option<String>>),
}

/// The continuation of an execute call after its query was submitted.
pub enum Execution {
    /// The call is complete with this text.
    Done(String),
    /// A result set is streaming: the caller fetches row batches, hands
    /// each to the builder in arrival order, and takes the finished text
    /// once the fetch is exhausted.
    Streaming(ResultBuilder),
}

/// A session: the application's notion of the currently targeted database,
/// backed by a connection string and not by a held-open connection. Every
/// operation opens a fresh connection from the stored string and drops it
/// when the operation ends, so no connection outlives a call.
pub struct Database {
    connection_string: String,
}

impl Database {
    /// The stored connection string as a character sequence.
    pub closed spec fn connection_string_view(&self) -> Seq<char> {
        self.connection_string@
    }

    /// A session targeting the database the descriptor identifies: it holds
    /// exactly the connection string the descriptor renders to.
    pub fn new(descriptor: &ConnectionDescriptor) -> (db: Database)
        ensures
            db.connection_string_view() == connection_string_spec(descriptor@),
    {
        Database { connection_string: descriptor.to_connection_string() }
    }

    /// The stored connection string, for the caller that opens the real
    /// connection.
    pub fn connection_string(&self) -> (r: &String)
        ensures
            r@ == self.connection_string_view(),
    {
        &self.connection_string
    }

    /// Interprets a liveness probe made with the stored connection string:
    /// success exactly when the probe connection opened, else the driver's
    /// diagnostic as a connection error. The probe connection is never kept.
    pub fn test_connection(&self, probe: ConnectProbe) -> (r: Result<(), DbError>)
        ensures
            unit_result_view(r) == spec_test_connection(probe@),
    {
        match probe {
            ConnectProbe::Opened => Ok(()),
            ConnectProbe::Failed(m) => Err(DbError::Connection(m)),
        }
    }

    /// Interprets what submitting a query over a fresh connection reported.
    ///
    /// A failure to open the connection is a connection error; a failure of
    /// the statement itself is an execution error. A statement with no
    /// result set completes at once with exactly the acknowledgement text
    /// `Query executed successfully.`; one with a result set yields the
    /// streaming serializer, primed with the header line.
    pub fn begin_execute(&self, submission: Submission) -> (r: Result<Execution, DbError>)
        ensures
            match submission {
                Submission::ConnectFailed(m) => r == Err::<Execution, DbError>(
                    DbError::Connection(m),
                ),
                Submission::StatementFailed(m) => r == Err::<Execution, DbError>(
                    DbError::Execution(m),
                ),
                Submission::NoResultSet => r matches Ok(e) && e matches Execution::Done(t)
                    && t@ == "Query executed successfully."@,
                Submission::ResultSet(names) => r matches Ok(e) && e matches Execution::Streaming(b)
                    && b.wf() && b.cols() == names.deep_view() && b.rows() == Seq::<
                    Seq<Option<Seq<char>>>,
                >::empty(),
            },
    {
        match submission {
            Submission::ConnectFailed(m) => Err(DbError::Connection(m)),
            Submission::StatementFailed(m) => Err(DbError::Execution(m)),
            Submission::NoResultSet => Ok(
                Execution::Done(String::from_str("Query executed successfully.")),
            ),
            Submission::ResultSet(names) => Ok(Execution::Streaming(ResultBuilder::new(&names))),
        }
    }

    /// Classifies a failure that strikes after the connection was open —
    /// a fetch error, a decode error, or connectivity loss mid-stream — as
    /// an execution error. The whole call fails: no partial text is ever
    /// returned, however many rows were already serialized.
    pub fn fetch_failed(&self, message: String) -> (r: DbError)
        ensures
            r == DbError::Execution(message),
    {
        DbError::Execution(message)
    }
}

/// The outcome a liveness test reports for a probe: success exactly when the
/// probe connection opened.
pub open spec fn spec_test_connection(probe: ProbeView) -> Result<(), ErrorView> {
    match probe {
        ProbeView::Opened => Ok(()),
        ProbeView::Failed(m) => Err(ErrorView::Connection(m)),
    }
}

/// A fresh application state holds no session.
pub open spec fn spec_initial() -> Option<Seq<char>> {
    None
}

/// The connect transition: on success the new session's connection string
/// replaces whatever was held before; on failure the prior state is kept
/// untouched and the diagnostic surfaces as a connection error.
pub open spec fn spec_connect(s: Option<Seq<char>>, cs: Seq<char>, probe: ProbeView) -> (
    Option<Seq<char>>,
    Result<(), ErrorView>,
) {
    match probe {
        ProbeView::Opened => (Some(cs), Ok(())),
        ProbeView::Failed(m) => (s, Err(ErrorView::Connection(m))),
    }
}

/// The liveness check: false, with no probe made, where no session exists;
/// where one exists, the probe decides — true on success, else the
/// connection error surfaces (the session is kept either way).
pub open spec fn spec_is_connected(s: Option<Seq<char>>, probe: Option<ProbeView>) -> Result<
    bool,
    ErrorView,
> {
    match s {
        None => Ok(false),
        Some(cs) => match probe {
            Some(ProbeView::Opened) => Ok(true),
            Some(ProbeView::Failed(m)) => Err(ErrorView::Connection(m)),
            None => arbitrary(),
        },
    }
}

/// The execute gate: with no session the call fails with `NotConnected` and
/// no query is ever submitted; with one, the query proceeds against that
/// session's connection string.
pub open spec fn spec_execute_gate(s: Option<Seq<char>>) -> Result<Seq<char>, ErrorView> {
    match s {
        None => Err(ErrorView::NotConnected),
        Some(cs) => Ok(cs),
    }
}

/// The disconnect transition: unconditionally to the session-less state.
pub open spec fn spec_disconnect(s: Option<Seq<char>>) -> Option<Seq<char>> {
    None
}

/// The application's single shared state: at most one active session. The
/// caller serializes access (one operation at a time under one lock); within
/// an operation these methods decide every transition.
pub struct AppState {
    db: Option<Database>,
}

impl View for AppState {
    type V = Option<Seq<char>>;

    closed spec fn view(&self) -> Option<Seq<char>> {
        match self.db {
            Some(db) => Some(db.connection_string_view()),
            None => None,
        }
    }
}

impl Default for AppState {
    /// A fresh state, with no session.
    fn default() -> (s: AppState)
        ensures
            s@ == spec_initial(),
    {
        AppState { db: None }
    }
}

impl AppState {
    /// A fresh state, with no session.
    pub fn new() -> (s: AppState)
        ensures
            s@ == spec_initial(),
    {
        AppState { db: None }
    }

    /// Routes a connect request. The caller has rendered the descriptor's
    /// connection string, opened (and at once dropped) a probe connection
    /// with it on a fresh driver environment, and reports how that went:
    /// on success the new session replaces any prior one, on failure the
    /// prior state is untouched and the error surfaces.
    pub fn db_connect(&mut self, descriptor: &ConnectionDescriptor, probe: ConnectProbe) -> (r:
        Result<(), DbError>)
        ensures
            ({
                let (s2, rv) = spec_connect(
                    old(self)@,
                    connection_string_spec(descriptor@),
                    probe@,
                );
                final(self)@ == s2 && unit_result_view(r) == rv
            }),
    {
        match probe {
            ConnectProbe::Opened => {
                self.db = Some(Database::new(descriptor));
                Ok(())
            },
            ConnectProbe::Failed(m) => Err(DbError::Connection(m)),
        }
    }

    /// Routes a liveness request: false where no session exists (no probe is
    /// needed, and none may be supplied); where one exists the caller must
    /// have probed its stored string, and the probe decides.
    pub fn db_connected(&self, probe: Option<ConnectProbe>) -> (r: Result<bool, DbError>)
        requires
            self@ is Some ==> probe is Some,
        ensures
            bool_result_view(r) == spec_is_connected(self@, probe_option_view(probe)),
    {
        match &self.db {
            None => Ok(false),
            Some(db) => match probe {
                Some(ConnectProbe::Opened) => Ok(true),
                Some(ConnectProbe::Failed(m)) => Err(DbError::Connection(m)),
                None => unreached(),
            },
        }
    }

    /// The execute gate: with no session the request fails with
    /// `NotConnected` and nothing is submitted; with one, the session whose
    /// stored string the caller submits the query over.
    pub fn db_execute(&self) -> (r: Result<&Database, DbError>)
        ensures
            match r {
                Ok(db) => spec_execute_gate(self@) == Ok::<Seq<char>, ErrorView>(
                    db.connection_string_view(),
                ),
                Err(e) => spec_execute_gate(self@) == Err::<Seq<char>, ErrorView>(e@),
            },
    {
        match &self.db {
            Some(db) => Ok(db),
            None => Err(DbError::NotConnected),
        }
    }

    /// Disconnects: unconditionally drops any session. Idempotent, and
    /// never an error.
    pub fn db_disconnect(&mut self) -> (r: Result<(), DbError>)
        ensures
            final(self)@ == spec_disconnect(old(self)@),
            r == Ok::<(), DbError>(()),
    {
        self.db = None;
        Ok(())
    }

    /// Routes a driver-listing request: the caller has asked the driver
    /// manager for the installed drivers' descriptions and reports either
    /// the list (reported order kept, no sorting, no de-duplication) or the
    /// manager's diagnostic, which surfaces as a driver-manager error.
    pub fn odbc_drivers(listing: Result<Vec<String>, String>) -> (r: Result<Vec<String>, DbError>)
        ensures
            match listing {
                Ok(names) => r == Ok::<Vec<String>, DbError>(names),
                Err(m) => r == Err::<Vec<String>, DbError>(DbError::DriverManager(m)),
            },
    {
        match listing {
            Ok(names) => Ok(names),
            Err(m) => Err(DbError::DriverManager(m)),
        }
    }
}

/// An execute request against a state with no session — in particular any
/// state before the first successful connect — fails with `NotConnected`,
/// and no query is submitted.
pub proof fn lemma_execute_unconnected(s: Option<Seq<char>>)
    requires
        s is None,
    ensures
        spec_execute_gate(s) == Err::<Seq<char>, ErrorView>(ErrorView::NotConnected),
{
}

/// A disconnect followed immediately by a liveness check yields false: the
/// state after `db_disconnect` holds no session, and `db_connected` on such
/// a state reports `Ok(false)` without probing anything.
pub proof fn lemma_disconnect_then_not_connected(s: Option<Seq<char>>)
    ensures
        spec_disconnect(s) is None,
        spec_is_connected(spec_disconnect(s), None) == Ok::<bool, ErrorView>(false),
{
}

/// A liveness check never hides a severed connection: on a state that holds
/// a session whose probe failed, the connection error surfaces rather than
/// a silent false.
pub proof fn lemma_severed_connection_surfaces(s: Option<Seq<char>>, m: Seq<char>)
    requires
        s is Some,
    ensures
        spec_is_connected(s, Some(ProbeView::Failed(m))) == Err::<bool, ErrorView>(
            ErrorView::Connection(m),
        ),
{
}

/// A failed connect changes nothing: the state stays exactly as it was and
/// the diagnostic surfaces as a connection error. In particular a state
/// that held no session still holds none, so a subsequent execute request
/// still fails with `NotConnected` and not with an execution error.
pub proof fn lemma_failed_connect_changes_nothing(s: Option<Seq<char>>, cs: Seq<char>, m: Seq<char>)
    ensures
        ({
            let (s2, rv) = spec_connect(s, cs, ProbeView::Failed(m));
            s2 == s && rv == Err::<(), ErrorView>(ErrorView::Connection(m)) && (s is None
                ==> spec_execute_gate(s2) == Err::<Seq<char>, ErrorView>(ErrorView::NotConnected))
        }),
{
}

} // verus!
