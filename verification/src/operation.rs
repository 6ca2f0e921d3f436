//! The mailer's run over all companies: connect to the database of
//! recipients, list the companies, process each company's table in turn and
//! log what became of it. A table that fails is logged and the run goes on;
//! only a failure to connect or to write a log ends the run with an error.
use vstd::prelude::*;
use crate::error::TableProcessError;

verus! {

/// Where the run stands; the index is the company at hand.
#[derive(Clone, Copy, Debug)]
pub enum RunPhase {
    /// Waiting for the connection to the recipients' database and the list of companies.
    Connecting,
    /// Waiting for the result of a company's table.
    Processing(usize),
    /// Waiting for the log line of a company to be written.
    Logging(usize),
    /// The run's result was handed out.
    Done,
}

/// What the caller must do next.
pub enum RunAction {
    /// Connect to the recipients' database and list the companies; answer
    /// `Connected` with their names, or `Failed`.
    ConnectEmailDb,
    /// Process the table of a company; answer `TableDone` with its result.
    ProcessTable(usize),
    /// Write to the log the ids of the e-mails sent for a company; answer `Logged` or `Failed`.
    LogEmails(usize, Vec<i32>),
    /// Write to the error log the error of a company's table; answer `Logged` or `Failed`.
    LogError(usize, TableProcessError),
    /// The run is over, with its result.
    Finish(Result<(), TableProcessError>),
    /// Nothing to do: the event did not answer the pending action, or the run is over.
    Idle,
}

/// The outcome of an action.
pub enum RunEvent {
    /// The names of the companies, in the order they were listed.
    Connected(Vec<String>),
    /// The table of the company at hand finished with this result.
    TableDone(Result<Option<Vec<i32>>, TableProcessError>),
    /// The log line was written.
    Logged,
    /// The connection or the writing of a log failed with this error.
    Failed(TableProcessError),
}

pub enum RunActionView {
    ConnectEmailDb,
    ProcessTable(usize),
    LogEmails(usize, Seq<i32>),
    LogError(usize, TableProcessError),
    Finish(Result<(), TableProcessError>),
    Idle,
}

impl View for RunAction {
    type V = RunActionView;

    open spec fn view(&self) -> RunActionView {
        match self {
            RunAction::ConnectEmailDb => RunActionView::ConnectEmailDb,
            RunAction::ProcessTable(i) => RunActionView::ProcessTable(*i),
            RunAction::LogEmails(i, ids) => RunActionView::LogEmails(*i, ids@),
            RunAction::LogError(i, e) => RunActionView::LogError(*i, *e),
            RunAction::Finish(r) => RunActionView::Finish(*r),
            RunAction::Idle => RunActionView::Idle,
        }
    }
}

/// The run over all companies.
pub struct OperationRun {
    phase: RunPhase,
    companies: Vec<String>,
}

pub struct OperationRunView {
    pub phase: RunPhase,
    pub companies: Seq<Seq<char>>,
}

impl View for OperationRun {
    type V = OperationRunView;

    closed spec fn view(&self) -> OperationRunView {
        OperationRunView {
            phase: self.phase,
            companies: self.companies@.map_values(|s: String| s@),
        }
    }
}

pub open spec fn run_index(p: RunPhase) -> Option<usize> {
    match p {
        RunPhase::Processing(i) => Some(i),
        RunPhase::Logging(i) => Some(i),
        _ => None,
    }
}

impl OperationRunView {
    /// The company at hand is one of the listed ones.
    pub open spec fn wf(self) -> bool {
        &&& self.companies.len() <= usize::MAX
        &&& match run_index(self.phase) {
            Some(i) => i < self.companies.len(),
            None => self.phase is Connecting ==> self.companies.len() == 0,
        }
    }

    pub open spec fn with_phase(self, p: RunPhase) -> OperationRunView {
        OperationRunView { phase: p, ..self }
    }
}

/// The state and action after the company at index `i` is through.
pub open spec fn after_company(v: OperationRunView, i: usize) -> (OperationRunView, RunActionView) {
    if i + 1 < v.companies.len() {
        (v.with_phase(RunPhase::Processing((i + 1) as usize)), RunActionView::ProcessTable((i + 1) as usize))
    } else {
        (v.with_phase(RunPhase::Done), RunActionView::Finish(Ok(())))
    }
}

/// One transition: the state after an event and the action it calls for.
pub open spec fn run_step(v: OperationRunView, e: RunEvent) -> (OperationRunView, RunActionView) {
    match v.phase {
        RunPhase::Done => (v, RunActionView::Idle),
        RunPhase::Connecting => match e {
            RunEvent::Failed(err) => (v.with_phase(RunPhase::Done), RunActionView::Finish(Err(err))),
            RunEvent::Connected(names) => if names@.len() == 0 {
                (v.with_phase(RunPhase::Done), RunActionView::Finish(Ok(())))
            } else {
                (
                    OperationRunView {
                        phase: RunPhase::Processing(0),
                        companies: names@.map_values(|s: String| s@),
                    },
                    RunActionView::ProcessTable(0),
                )
            },
            _ => (v, RunActionView::Idle),
        },
        RunPhase::Processing(i) => match e {
            RunEvent::TableDone(Ok(Some(ids))) => (
                v.with_phase(RunPhase::Logging(i)),
                RunActionView::LogEmails(i, ids@),
            ),
            RunEvent::TableDone(Ok(None)) => after_company(v, i),
            RunEvent::TableDone(Err(err)) => (
                v.with_phase(RunPhase::Logging(i)),
                RunActionView::LogError(i, err),
            ),
            _ => (v, RunActionView::Idle),
        },
        RunPhase::Logging(i) => match e {
            RunEvent::Logged => after_company(v, i),
            RunEvent::Failed(err) => (v.with_phase(RunPhase::Done), RunActionView::Finish(Err(err))),
            _ => (v, RunActionView::Idle),
        },
    }
}

/// The number of successful events that a run still needs, at most, once its
/// companies are listed.
pub open spec fn run_remaining(v: OperationRunView) -> int {
    let n = v.companies.len() as int;
    match v.phase {
        RunPhase::Processing(i) => 2 * (n - i),
        RunPhase::Logging(i) => 2 * (n - i) - 1,
        _ => 0,
    }
}

/// Every transition keeps the run well formed.
pub proof fn lemma_run_step_keeps_wf(v: OperationRunView, e: RunEvent)
    requires
        v.wf(),
    ensures
        run_step(v, e).0.wf(),
{
    match v.phase {
        RunPhase::Connecting => {
            match e {
                RunEvent::Connected(names) => {
                    assert(names@.len() == names.len());
                },
                _ => {},
            }
        },
        _ => {},
    }
}

/// A company whose table fails does not stop the run: its error is logged,
/// and once it is logged the run goes on with the next company, or ends
/// without error after the last one.
pub proof fn lemma_table_failure_is_logged(v: OperationRunView, i: usize, err: TableProcessError)
    requires
        v.wf(),
        v.phase == RunPhase::Processing(i),
    ensures
        run_step(v, RunEvent::TableDone(Err(err))).1 == RunActionView::LogError(i, err),
        run_step(run_step(v, RunEvent::TableDone(Err(err))).0, RunEvent::Logged).1 == (if i + 1
            < v.companies.len() {
            RunActionView::ProcessTable((i + 1) as usize)
        } else {
            RunActionView::Finish(Ok(()))
        }),
{
}

/// The ids of the e-mails sent for a company are logged, under that company;
/// a company without pending occurrences writes no log line.
pub proof fn lemma_sent_ids_are_logged(v: OperationRunView, i: usize, ids: Vec<i32>)
    requires
        v.wf(),
        v.phase == RunPhase::Processing(i),
    ensures
        run_step(v, RunEvent::TableDone(Ok(Some(ids)))).1 == RunActionView::LogEmails(i, ids@),
        !(run_step(v, RunEvent::TableDone(Ok(None))).1 is LogEmails),
        !(run_step(v, RunEvent::TableDone(Ok(None))).1 is LogError),
{
}

/// The run ends with an error only when it could not connect or could not
/// write a log, and then with that very error.
pub proof fn lemma_run_fails_only_on_connect_or_log(v: OperationRunView, e: RunEvent)
    ensures
        run_step(v, e).1 matches RunActionView::Finish(Err(err)) ==> ((v.phase is Connecting
            || v.phase is Logging) && e == RunEvent::Failed(err)),
{
}

/// The companies are processed one after the other, in the order listed,
/// each once.
pub proof fn lemma_companies_in_order(v: OperationRunView, e: RunEvent)
    requires
        v.wf(),
    ensures
        run_step(v, e).1 matches RunActionView::ProcessTable(j) ==> ((v.phase is Connecting && j
            == 0) || (run_index(v.phase) matches Some(i) && j == i + 1)),
{
}

/// Every run ends: an event that does not answer the pending action changes
/// nothing, and every other event, once the companies are listed, brings the
/// run closer to its end.
pub proof fn lemma_run_progress(v: OperationRunView, e: RunEvent)
    requires
        v.wf(),
    ensures
        run_step(v, e).0 == v || !(run_step(v, e).0.phase is Connecting),
        !(v.phase is Connecting) ==> run_step(v, e).0 == v || run_remaining(run_step(v, e).0)
            < run_remaining(v),
        run_remaining(v) >= 0,
{
}

/// After the list of companies, the run holds exactly the companies listed,
/// by name and in their order, and takes up the first; later steps never
/// change the list.
pub proof fn lemma_listed_companies_kept(v: OperationRunView, names: Vec<String>, e: RunEvent)
    requires
        v.phase is Connecting,
        names@.len() > 0,
    ensures
        run_step(v, RunEvent::Connected(names)).0.companies.len() == names@.len(),
        forall|k: int|
            0 <= k < names@.len() ==> #[trigger] run_step(v, RunEvent::Connected(names)).0.companies[k]
                == names@[k]@,
        run_step(v, RunEvent::Connected(names)).1 == RunActionView::ProcessTable(0),
        forall|w: OperationRunView| !(w.phase is Connecting) ==> #[trigger] run_step(w, e).0.companies == w.companies,
{
}

/// The state and last action after a sequence of events (`Idle` for none).
pub open spec fn run_events(v: OperationRunView, es: Seq<RunEvent>) -> (OperationRunView, RunActionView)
    decreases es.len(),
{
    if es.len() == 0 {
        (v, RunActionView::Idle)
    } else if es.len() == 1 {
        run_step(v, es[0])
    } else {
        run_events(run_step(v, es[0]).0, es.drop_first())
    }
}

/// The events of one company whose log lines are written without failure:
/// its table's result, then, unless the table had nothing pending, the
/// writing of its log line.
pub open spec fn company_events(r: Result<Option<Vec<i32>>, TableProcessError>) -> Seq<RunEvent> {
    match r {
        Ok(None) => seq![RunEvent::TableDone(r)],
        _ => seq![RunEvent::TableDone(r), RunEvent::Logged],
    }
}

/// The events of a sequence of companies whose log lines are all written.
pub open spec fn companies_events(rs: Seq<Result<Option<Vec<i32>>, TableProcessError>>) -> Seq<RunEvent>
    decreases rs.len(),
{
    if rs.len() == 0 {
        Seq::empty()
    } else {
        company_events(rs[0]) + companies_events(rs.drop_first())
    }
}

proof fn lemma_run_events_append(v: OperationRunView, a: Seq<RunEvent>, b: Seq<RunEvent>)
    requires
        a.len() > 0,
        b.len() > 0,
    ensures
        run_events(v, a + b) == run_events(run_events(v, a).0, b),
    decreases a.len(),
{
    assert((a + b)[0] == a[0]);
    if a.len() == 1 {
        assert((a + b).drop_first() =~= b);
    } else {
        assert((a + b).drop_first() =~= a.drop_first() + b);
        lemma_run_events_append(run_step(v, a[0]).0, a.drop_first(), b);
    }
}

proof fn lemma_company_goes_through(
    v: OperationRunView,
    i: usize,
    r: Result<Option<Vec<i32>>, TableProcessError>,
)
    requires
        v.wf(),
        v.phase == RunPhase::Processing(i),
    ensures
        run_events(v, company_events(r)) == after_company(v, i),
{
    reveal_with_fuel(run_events, 3);
}

/// Once the companies are listed, a run whose log lines are all written goes
/// through every company from the one at hand on, whatever their tables
/// give, and ends without error.
pub proof fn lemma_every_company_from(
    v: OperationRunView,
    i: usize,
    rs: Seq<Result<Option<Vec<i32>>, TableProcessError>>,
)
    requires
        v.wf(),
        v.phase == RunPhase::Processing(i),
        rs.len() == v.companies.len() - i,
    ensures
        run_events(v, companies_events(rs)).1 == RunActionView::Finish(Ok(())),
        run_events(v, companies_events(rs)).0.phase is Done,
    decreases rs.len(),
{
    let first = company_events(rs[0]);
    let rest = companies_events(rs.drop_first());
    assert(companies_events(rs) == first + rest);
    lemma_company_goes_through(v, i, rs[0]);
    if i + 1 < v.companies.len() {
        assert(rest.len() > 0) by {
            assert(company_events(rs.drop_first()[0]).len() > 0);
        }
        lemma_run_events_append(v, first, rest);
        lemma_every_company_from(run_events(v, first).0, (i + 1) as usize, rs.drop_first());
    } else {
        assert(rest =~= Seq::<RunEvent>::empty());
        assert(first + rest =~= first);
    }
}

/// A run whose connection succeeds and whose log lines are all written
/// processes every listed company, whatever their tables give (a failing
/// table is logged, not fatal), and ends without error.
pub proof fn lemma_every_company(
    v: OperationRunView,
    names: Vec<String>,
    rs: Seq<Result<Option<Vec<i32>>, TableProcessError>>,
)
    requires
        v.wf(),
        v.phase is Connecting,
        names@.len() > 0,
        rs.len() == names@.len(),
    ensures
        run_events(v, seq![RunEvent::Connected(names)] + companies_events(rs)).1
            == RunActionView::Finish(Ok(())),
{
    let connected = run_step(v, RunEvent::Connected(names)).0;
    assert(names@.len() == names.len());
    let rest = companies_events(rs);
    assert(rest.len() > 0) by {
        assert(company_events(rs[0]).len() > 0);
    }
    lemma_run_events_append(v, seq![RunEvent::Connected(names)], rest);
    lemma_every_company_from(connected, 0, rs);
}

impl OperationRun {
    /// A new run, waiting to connect, and its first action.
    pub fn new() -> (res: (OperationRun, RunAction))
        ensures
            res.0@.phase is Connecting,
            res.0@.companies.len() == 0,
            res.0@.wf(),
            res.1 is ConnectEmailDb,
    {
        let run = OperationRun { phase: RunPhase::Connecting, companies: Vec::new() };
        assert(run@.companies =~= Seq::empty());
        (run, RunAction::ConnectEmailDb)
    }

    pub fn phase(&self) -> (res: RunPhase)
        ensures
            res == self@.phase,
    {
        self.phase
    }

    /// The number of companies listed.
    pub fn company_count(&self) -> (res: usize)
        ensures
            res == self@.companies.len(),
    {
        self.companies.len()
    }

    /// The name of the `i`-th company.
    pub fn company(&self, i: usize) -> (res: &str)
        requires
            i < self@.companies.len(),
        ensures
            res@ == self@.companies[i as int],
    {
        self.companies[i].as_str()
    }

    fn after_company(&mut self, i: usize) -> (res: RunAction)
        ensures
            (final(self)@, res@) == after_company(old(self)@, i),
            old(self)@.wf() && i < old(self)@.companies.len() ==> final(self)@.wf(),
    {
        let n = self.companies.len();
        if n > 0 && i < n - 1 {
            self.phase = RunPhase::Processing(i + 1);
            RunAction::ProcessTable(i + 1)
        } else {
            self.phase = RunPhase::Done;
            RunAction::Finish(Ok(()))
        }
    }

    /// Takes the outcome of the pending action and answers with the next action.
    pub fn step(&mut self, event: RunEvent) -> (res: RunAction)
        ensures
            (final(self)@, res@) == run_step(old(self)@, event),
            old(self)@.wf() ==> final(self)@.wf(),
    {
        match self.phase {
            RunPhase::Done => RunAction::Idle,
            RunPhase::Connecting => match event {
                RunEvent::Failed(err) => {
                    self.phase = RunPhase::Done;
                    RunAction::Finish(Err(err))
                },
                RunEvent::Connected(names) => {
                    if names.len() == 0 {
                        self.phase = RunPhase::Done;
                        RunAction::Finish(Ok(()))
                    } else {
                        self.companies = names;
                        self.phase = RunPhase::Processing(0);
                        RunAction::ProcessTable(0)
                    }
                },
                _ => RunAction::Idle,
            },
            RunPhase::Processing(i) => match event {
                RunEvent::TableDone(Ok(Some(ids))) => {
                    self.phase = RunPhase::Logging(i);
                    RunAction::LogEmails(i, ids)
                },
                RunEvent::TableDone(Ok(None)) => self.after_company(i),
                RunEvent::TableDone(Err(err)) => {
                    self.phase = RunPhase::Logging(i);
                    RunAction::LogError(i, err)
                },
                _ => RunAction::Idle,
            },
            RunPhase::Logging(i) => match event {
                RunEvent::Logged => self.after_company(i),
                RunEvent::Failed(err) => {
                    self.phase = RunPhase::Done;
                    RunAction::Finish(Err(err))
                },
                _ => RunAction::Idle,
            },
        }
    }
}

} // verus!
