//! The processing of one company's table: read its pending occurrences, then
//! for each one read its events, render and send its e-mail, and mark it as
//! sent. The decisions stand here as a state machine; the caller performs
//! each action (database reads, rendering, sending) and hands back its event.
use vstd::prelude::*;
use crate::error::TableProcessError;

verus! {

/// Where the processing of a table stands; the index is the occurrence at hand.
#[derive(Clone, Copy, Debug)]
pub enum TablePhase {
    /// Waiting for the list of pending occurrences.
    Listing,
    /// Waiting for the events and the equipment history of an occurrence.
    Details(usize),
    /// Waiting for the events of an occurrence from the Oracle database.
    Oracle(usize),
    /// Waiting for the e-mail of an occurrence to be rendered.
    Rendering(usize),
    /// Waiting for the e-mail of an occurrence to be sent.
    Sending(usize),
    /// Waiting for an occurrence to be marked as sent.
    Marking(usize),
    /// The table's result was handed out.
    Done,
}

/// What the caller must do next.
pub enum TableAction {
    /// Connect to the company's database, read its pending occurrences and
    /// the recipients of its e-mails; answer `Listed` with the occurrences' ids.
    FetchOccurrences,
    /// Read the events (SOE) of an occurrence and the earlier failures of its
    /// equipment; answer `DetailsFetched`.
    FetchDetails(usize),
    /// Read the events of an occurrence from the Oracle database; answer `OracleFetched`.
    FetchOracleEvents(usize),
    /// Render the e-mail of an occurrence; answer `Rendered`.
    RenderEmail(usize),
    /// Send the rendered e-mail of an occurrence; answer `Sent`.
    SendEmail(usize),
    /// Mark an occurrence as sent in its database; answer `Marked`.
    MarkSent(usize),
    /// The table is done: `Ok(None)` when it had no pending occurrence,
    /// `Ok(Some(ids))` with the ids of the e-mails sent, or the error that stopped it.
    Finish(Result<Option<Vec<i32>>, TableProcessError>),
    /// Nothing to do: the event did not answer the pending action, or the table is done.
    Idle,
}

/// The outcome of an action.
pub enum TableEvent {
    /// The ids of the pending occurrences, in the order they were read.
    Listed(Vec<i32>),
    /// The events of the occurrence were read; `events_found` tells whether there were any.
    DetailsFetched { events_found: bool },
    OracleFetched,
    Rendered,
    Sent,
    Marked,
    /// The action failed with this error.
    Failed(TableProcessError),
}

pub enum TableActionView {
    FetchOccurrences,
    FetchDetails(usize),
    FetchOracleEvents(usize),
    RenderEmail(usize),
    SendEmail(usize),
    MarkSent(usize),
    Finish(Result<Option<Seq<i32>>, TableProcessError>),
    Idle,
}

impl View for TableAction {
    type V = TableActionView;

    open spec fn view(&self) -> TableActionView {
        match self {
            TableAction::FetchOccurrences => TableActionView::FetchOccurrences,
            TableAction::FetchDetails(i) => TableActionView::FetchDetails(*i),
            TableAction::FetchOracleEvents(i) => TableActionView::FetchOracleEvents(*i),
            TableAction::RenderEmail(i) => TableActionView::RenderEmail(*i),
            TableAction::SendEmail(i) => TableActionView::SendEmail(*i),
            TableAction::MarkSent(i) => TableActionView::MarkSent(*i),
            TableAction::Finish(r) => TableActionView::Finish(
                match r {
                    Ok(Some(v)) => Ok(Some(v@)),
                    Ok(None) => Ok(None),
                    Err(e) => Err(*e),
                },
            ),
            TableAction::Idle => TableActionView::Idle,
        }
    }
}

/// The processing of one company's table.
pub struct TableRun {
    phase: TablePhase,
    ids: Vec<i32>,
    sent: Vec<i32>,
}

pub struct TableRunView {
    pub phase: TablePhase,
    /// The ids of the pending occurrences.
    pub ids: Seq<i32>,
    /// The ids of the occurrences whose e-mail was sent and that were marked.
    pub sent: Seq<i32>,
}

impl View for TableRun {
    type V = TableRunView;

    closed spec fn view(&self) -> TableRunView {
        TableRunView { phase: self.phase, ids: self.ids@, sent: self.sent@ }
    }
}

pub open spec fn phase_index(p: TablePhase) -> Option<usize> {
    match p {
        TablePhase::Details(i) => Some(i),
        TablePhase::Oracle(i) => Some(i),
        TablePhase::Rendering(i) => Some(i),
        TablePhase::Sending(i) => Some(i),
        TablePhase::Marking(i) => Some(i),
        _ => None,
    }
}

impl TableRunView {
    /// While an occurrence is at hand, it is one of the listed ones, and the
    /// occurrences before it, and only they, were sent, in their order.
    pub open spec fn wf(self) -> bool {
        &&& self.ids.len() <= usize::MAX
        &&& match phase_index(self.phase) {
            Some(i) => i < self.ids.len() && self.sent == self.ids.take(i as int),
            None => self.phase is Listing ==> self.ids.len() == 0 && self.sent.len() == 0,
        }
    }

    pub open spec fn with_phase(self, p: TablePhase) -> TableRunView {
        TableRunView { phase: p, ..self }
    }
}

/// One transition: the state after an event and the action it calls for.
pub open spec fn table_step(v: TableRunView, e: TableEvent) -> (TableRunView, TableActionView) {
    match v.phase {
        TablePhase::Done => (v, TableActionView::Idle),
        TablePhase::Listing => match e {
            TableEvent::Failed(err) => (v.with_phase(TablePhase::Done), TableActionView::Finish(Err(err))),
            TableEvent::Listed(ids) => if ids@.len() == 0 {
                (v.with_phase(TablePhase::Done), TableActionView::Finish(Ok(None)))
            } else {
                (
                    TableRunView { phase: TablePhase::Details(0), ids: ids@, sent: Seq::empty() },
                    TableActionView::FetchDetails(0),
                )
            },
            _ => (v, TableActionView::Idle),
        },
        TablePhase::Details(i) => match e {
            TableEvent::Failed(err) => (v.with_phase(TablePhase::Done), TableActionView::Finish(Err(err))),
            TableEvent::DetailsFetched { events_found } => if events_found {
                (v.with_phase(TablePhase::Rendering(i)), TableActionView::RenderEmail(i))
            } else {
                (v.with_phase(TablePhase::Oracle(i)), TableActionView::FetchOracleEvents(i))
            },
            _ => (v, TableActionView::Idle),
        },
        TablePhase::Oracle(i) => match e {
            TableEvent::Failed(err) => (v.with_phase(TablePhase::Done), TableActionView::Finish(Err(err))),
            TableEvent::OracleFetched => (v.with_phase(TablePhase::Rendering(i)), TableActionView::RenderEmail(i)),
            _ => (v, TableActionView::Idle),
        },
        TablePhase::Rendering(i) => match e {
            TableEvent::Failed(err) => (v.with_phase(TablePhase::Done), TableActionView::Finish(Err(err))),
            TableEvent::Rendered => (v.with_phase(TablePhase::Sending(i)), TableActionView::SendEmail(i)),
            _ => (v, TableActionView::Idle),
        },
        TablePhase::Sending(i) => match e {
            TableEvent::Failed(err) => (v.with_phase(TablePhase::Done), TableActionView::Finish(Err(err))),
            TableEvent::Sent => (v.with_phase(TablePhase::Marking(i)), TableActionView::MarkSent(i)),
            _ => (v, TableActionView::Idle),
        },
        TablePhase::Marking(i) => match e {
            TableEvent::Failed(err) => (v.with_phase(TablePhase::Done), TableActionView::Finish(Err(err))),
            TableEvent::Marked => if i >= v.ids.len() {
                (v, TableActionView::Idle)
            } else {
                let sent = v.sent.push(v.ids[i as int]);
                if i + 1 < v.ids.len() {
                    (
                        TableRunView { phase: TablePhase::Details((i + 1) as usize), ids: v.ids, sent },
                        TableActionView::FetchDetails((i + 1) as usize),
                    )
                } else {
                    (
                        TableRunView { phase: TablePhase::Done, ids: v.ids, sent },
                        TableActionView::Finish(Ok(Some(sent))),
                    )
                }
            },
            _ => (v, TableActionView::Idle),
        },
    }
}

/// The number of successful events that a run still needs, at most, once its
/// occurrences are listed.
pub open spec fn table_remaining(v: TableRunView) -> int {
    let n = v.ids.len() as int;
    match v.phase {
        TablePhase::Details(i) => 5 * (n - i),
        TablePhase::Oracle(i) => 5 * (n - i) - 1,
        TablePhase::Rendering(i) => 5 * (n - i) - 2,
        TablePhase::Sending(i) => 5 * (n - i) - 3,
        TablePhase::Marking(i) => 5 * (n - i) - 4,
        _ => 0,
    }
}

/// Every transition keeps the run well formed: the sent ids are always the
/// listed ids before the occurrence at hand, in order.
pub proof fn lemma_step_keeps_wf(v: TableRunView, e: TableEvent)
    requires
        v.wf(),
    ensures
        table_step(v, e).0.wf(),
{
    match v.phase {
        TablePhase::Listing => {
            match e {
                TableEvent::Listed(ids) => {
                    assert(ids@.len() == ids.len());
                    assert(Seq::<i32>::empty() =~= ids@.take(0));
                },
                _ => {},
            }
        },
        TablePhase::Marking(i) => {
            assert(v.sent.push(v.ids[i as int]) =~= v.ids.take(i + 1));
        },
        _ => {},
    }
}

/// A table that ends with e-mails sent has sent the e-mail of every listed
/// occurrence, each once, in the order they were listed.
pub proof fn lemma_finish_sends_all(v: TableRunView, e: TableEvent)
    requires
        v.wf(),
    ensures
        table_step(v, e).1 matches TableActionView::Finish(Ok(Some(s))) ==> s == v.ids && s.len() > 0,
{
    if let TablePhase::Marking(i) = v.phase {
        assert(v.sent.push(v.ids[i as int]) =~= v.ids.take(i + 1));
        if i + 1 >= v.ids.len() {
            assert(v.ids.take(i + 1) =~= v.ids);
        }
    }
}

/// A table with no pending occurrence ends at once with `Ok(None)`; one with
/// occurrences goes on to the first of them.
pub proof fn lemma_listing(v: TableRunView, ids: Vec<i32>)
    requires
        v.phase is Listing,
    ensures
        ids@.len() == 0 ==> table_step(v, TableEvent::Listed(ids)).1 == TableActionView::Finish(
            Ok(None),
        ),
        ids@.len() > 0 ==> table_step(v, TableEvent::Listed(ids)).1 == TableActionView::FetchDetails(
            0,
        ),
{
}

/// The Oracle database is asked for an occurrence's events only when MariaDB
/// had none for it.
pub proof fn lemma_oracle_only_without_events(v: TableRunView, e: TableEvent)
    ensures
        table_step(v, e).1 matches TableActionView::FetchOracleEvents(i) ==> (v.phase
            == TablePhase::Details(i) && e == (TableEvent::DetailsFetched { events_found: false })),
{
}

/// An occurrence is marked as sent only right after its e-mail was sent, and
/// its id is recorded only once it was marked.
pub proof fn lemma_marked_after_sent(v: TableRunView, e: TableEvent)
    requires
        v.wf(),
    ensures
        table_step(v, e).1 matches TableActionView::MarkSent(i) ==> (v.phase == TablePhase::Sending(i)
            && e is Sent),
        table_step(v, e).0.sent.len() > v.sent.len() ==> (v.phase matches TablePhase::Marking(i)
            && (e is Marked && table_step(v, e).0.sent == v.sent.push(v.ids[i as int]))),
{
}

/// A failure ends the table with that very error, and a table that is done
/// stays done and asks for nothing more.
pub proof fn lemma_failure_ends(v: TableRunView, err: TableProcessError, e: TableEvent)
    ensures
        !(v.phase is Done) ==> table_step(v, TableEvent::Failed(err)).0.phase is Done
            && table_step(v, TableEvent::Failed(err)).1 == TableActionView::Finish(Err(err)),
        v.phase is Done ==> table_step(v, e) == (v, TableActionView::Idle),
{
}

/// Every run ends: an event that does not answer the pending action changes
/// nothing, and every other event, once the occurrences are listed, brings
/// the run closer to its end.
pub proof fn lemma_progress(v: TableRunView, e: TableEvent)
    requires
        v.wf(),
    ensures
        table_step(v, e).0 == v || !(table_step(v, e).0.phase is Listing),
        !(v.phase is Listing) ==> table_step(v, e).0 == v || table_remaining(table_step(v, e).0)
            < table_remaining(v),
        table_remaining(v) >= 0,
{
    let next = table_step(v, e).0;
    match v.phase {
        TablePhase::Marking(i) => {
            assert(i < v.ids.len());
            match e {
                TableEvent::Marked => {
                    assert(next.ids == v.ids);
                    if i + 1 < v.ids.len() {
                        assert(table_remaining(next) == 5 * (v.ids.len() - (i + 1)));
                    } else {
                        assert(table_remaining(next) == 0);
                    }
                },
                _ => {},
            }
        },
        _ => {},
    }
}

/// Every action about an occurrence is about the occurrence at hand: the
/// events read from Oracle, the e-mail rendered, the e-mail sent and the
/// occurrence marked are all those of the index of the run's phase, before
/// and after the step.
pub proof fn lemma_actions_on_current_occurrence(v: TableRunView, e: TableEvent)
    requires
        v.wf(),
    ensures
        table_step(v, e).1 matches TableActionView::FetchOracleEvents(j) ==> (phase_index(v.phase)
            == Some(j) && phase_index(table_step(v, e).0.phase) == Some(j)),
        table_step(v, e).1 matches TableActionView::RenderEmail(j) ==> (phase_index(v.phase)
            == Some(j) && phase_index(table_step(v, e).0.phase) == Some(j)),
        table_step(v, e).1 matches TableActionView::SendEmail(j) ==> (phase_index(v.phase)
            == Some(j) && phase_index(table_step(v, e).0.phase) == Some(j)),
        table_step(v, e).1 matches TableActionView::MarkSent(j) ==> (phase_index(v.phase)
            == Some(j) && phase_index(table_step(v, e).0.phase) == Some(j)),
        table_step(v, e).1 matches TableActionView::FetchDetails(j) ==> (phase_index(
            table_step(v, e).0.phase,
        ) == Some(j) && ((v.phase is Listing && j == 0) || (j >= 1 && v.phase
            == TablePhase::Marking((j - 1) as usize)))),
{
}

/// After the list of occurrences, the run holds exactly the ids listed, in
/// their order, and none is sent yet; later steps never change the list.
pub proof fn lemma_listed_ids_kept(v: TableRunView, ids: Vec<i32>, e: TableEvent)
    ensures
        v.phase is Listing && ids@.len() > 0 ==> (table_step(v, TableEvent::Listed(ids)).0.ids.len()
            == ids@.len() && (forall|k: int|
            0 <= k < ids@.len() ==> #[trigger] table_step(v, TableEvent::Listed(ids)).0.ids[k]
                == ids@[k]) && table_step(v, TableEvent::Listed(ids)).0.sent.len() == 0),
        !(v.phase is Listing) ==> table_step(v, e).0.ids == v.ids,
{
}

/// The state and last action after a sequence of events (`Idle` for none).
pub open spec fn table_run(v: TableRunView, es: Seq<TableEvent>) -> (TableRunView, TableActionView)
    decreases es.len(),
{
    if es.len() == 0 {
        (v, TableActionView::Idle)
    } else if es.len() == 1 {
        table_step(v, es[0])
    } else {
        table_run(table_step(v, es[0]).0, es.drop_first())
    }
}

/// The events of one occurrence that goes through without failure: its
/// events are found in MariaDB, or else read from Oracle.
pub open spec fn occurrence_events(found: bool) -> Seq<TableEvent> {
    if found {
        seq![
            TableEvent::DetailsFetched { events_found: true },
            TableEvent::Rendered,
            TableEvent::Sent,
            TableEvent::Marked,
        ]
    } else {
        seq![
            TableEvent::DetailsFetched { events_found: false },
            TableEvent::OracleFetched,
            TableEvent::Rendered,
            TableEvent::Sent,
            TableEvent::Marked,
        ]
    }
}

/// The events of a sequence of occurrences that go through without failure.
pub open spec fn success_events(found: Seq<bool>) -> Seq<TableEvent>
    decreases found.len(),
{
    if found.len() == 0 {
        Seq::empty()
    } else {
        occurrence_events(found[0]) + success_events(found.drop_first())
    }
}

proof fn lemma_table_run_append(v: TableRunView, a: Seq<TableEvent>, b: Seq<TableEvent>)
    requires
        a.len() > 0,
        b.len() > 0,
    ensures
        table_run(v, a + b) == table_run(table_run(v, a).0, b),
    decreases a.len(),
{
    assert((a + b)[0] == a[0]);
    if a.len() == 1 {
        assert((a + b).drop_first() =~= b);
    } else {
        assert((a + b).drop_first() =~= a.drop_first() + b);
        lemma_table_run_append(table_step(v, a[0]).0, a.drop_first(), b);
    }
}

proof fn lemma_occurrence_goes_through(v: TableRunView, i: usize, found: bool)
    requires
        v.wf(),
        v.phase == TablePhase::Details(i),
    ensures
        table_run(v, occurrence_events(found)).0 == (if i + 1 < v.ids.len() {
            TableRunView { phase: TablePhase::Details((i + 1) as usize), ids: v.ids, sent: v.sent.push(v.ids[i as int]) }
        } else {
            TableRunView { phase: TablePhase::Done, ids: v.ids, sent: v.sent.push(v.ids[i as int]) }
        }),
        table_run(v, occurrence_events(found)).1 == (if i + 1 < v.ids.len() {
            TableActionView::FetchDetails((i + 1) as usize)
        } else {
            TableActionView::Finish(Ok(Some(v.sent.push(v.ids[i as int]))))
        }),
{
    let es = occurrence_events(found);
    reveal_with_fuel(table_run, 6);
    assert(es.drop_first().drop_first().drop_first().drop_first().len() <= 1);
}

/// A table whose occurrences all go through without failure sends the e-mail
/// of every occurrence from the one at hand on, and reports the ids of all
/// listed occurrences, in order.
pub proof fn lemma_success_sends_all_from(v: TableRunView, i: usize, found: Seq<bool>)
    requires
        v.wf(),
        v.phase == TablePhase::Details(i),
        found.len() == v.ids.len() - i,
    ensures
        table_run(v, success_events(found)) == (
            TableRunView { phase: TablePhase::Done, ids: v.ids, sent: v.ids },
            TableActionView::Finish(Ok(Some(v.ids))),
        ),
    decreases found.len(),
{
    let first = occurrence_events(found[0]);
    let rest = success_events(found.drop_first());
    assert(success_events(found) == first + rest);
    lemma_occurrence_goes_through(v, i, found[0]);
    let next = table_run(v, first).0;
    assert(v.sent.push(v.ids[i as int]) =~= v.ids.take(i + 1));
    if i + 1 < v.ids.len() {
        assert(rest.len() > 0) by {
            assert(found.drop_first().len() > 0);
            assert(occurrence_events(found.drop_first()[0]).len() > 0);
        }
        lemma_table_run_append(v, first, rest);
        lemma_success_sends_all_from(next, (i + 1) as usize, found.drop_first());
    } else {
        assert(found.drop_first().len() == 0);
        assert(rest =~= Seq::<TableEvent>::empty());
        assert(first + rest =~= first);
        assert(v.ids.take(i + 1) =~= v.ids);
    }
}

/// A table with listed occurrences that all go through without failure ends
/// with the ids of all of them, in the order listed: one e-mail per occurrence.
pub proof fn lemma_success_sends_all(v: TableRunView, ids: Vec<i32>, found: Seq<bool>)
    requires
        v.wf(),
        v.phase is Listing,
        ids@.len() > 0,
        found.len() == ids@.len(),
    ensures
        table_run(v, seq![TableEvent::Listed(ids)] + success_events(found)).1
            == TableActionView::Finish(Ok(Some(ids@))),
{
    let listed = table_step(v, TableEvent::Listed(ids)).0;
    assert(ids@.len() == ids.len());
    assert(Seq::<i32>::empty() =~= ids@.take(0));
    let rest = success_events(found);
    assert(rest.len() > 0) by {
        assert(occurrence_events(found[0]).len() > 0);
    }
    lemma_table_run_append(v, seq![TableEvent::Listed(ids)], rest);
    lemma_success_sends_all_from(listed, 0, found);
}

impl TableRun {
    /// A new run, waiting for the list of occurrences, and its first action.
    pub fn new() -> (res: (TableRun, TableAction))
        ensures
            res.0@.phase is Listing,
            res.0@.ids.len() == 0,
            res.0@.sent.len() == 0,
            res.0@.wf(),
            res.1 is FetchOccurrences,
    {
        (TableRun { phase: TablePhase::Listing, ids: Vec::new(), sent: Vec::new() }, TableAction::FetchOccurrences)
    }

    pub fn phase(&self) -> (res: TablePhase)
        ensures
            res == self@.phase,
    {
        self.phase
    }

    /// Takes the outcome of the pending action and answers with the next action.
    pub fn step(&mut self, event: TableEvent) -> (res: TableAction)
        ensures
            (final(self)@, res@) == table_step(old(self)@, event),
            old(self)@.wf() ==> final(self)@.wf(),
    {
        match self.phase {
            TablePhase::Done => TableAction::Idle,
            TablePhase::Listing => match event {
                TableEvent::Failed(err) => {
                    self.phase = TablePhase::Done;
                    TableAction::Finish(Err(err))
                },
                TableEvent::Listed(ids) => {
                    if ids.len() == 0 {
                        self.phase = TablePhase::Done;
                        TableAction::Finish(Ok(None))
                    } else {
                        self.ids = ids;
                        self.sent = Vec::new();
                        self.phase = TablePhase::Details(0);
                        assert(self.sent@ =~= self.ids@.take(0));
                        TableAction::FetchDetails(0)
                    }
                },
                _ => TableAction::Idle,
            },
            TablePhase::Details(i) => match event {
                TableEvent::Failed(err) => {
                    self.phase = TablePhase::Done;
                    TableAction::Finish(Err(err))
                },
                TableEvent::DetailsFetched { events_found } => {
                    if events_found {
                        self.phase = TablePhase::Rendering(i);
                        TableAction::RenderEmail(i)
                    } else {
                        self.phase = TablePhase::Oracle(i);
                        TableAction::FetchOracleEvents(i)
                    }
                },
                _ => TableAction::Idle,
            },
            TablePhase::Oracle(i) => match event {
                TableEvent::Failed(err) => {
                    self.phase = TablePhase::Done;
                    TableAction::Finish(Err(err))
                },
                TableEvent::OracleFetched => {
                    self.phase = TablePhase::Rendering(i);
                    TableAction::RenderEmail(i)
                },
                _ => TableAction::Idle,
            },
            TablePhase::Rendering(i) => match event {
                TableEvent::Failed(err) => {
                    self.phase = TablePhase::Done;
                    TableAction::Finish(Err(err))
                },
                TableEvent::Rendered => {
                    self.phase = TablePhase::Sending(i);
                    TableAction::SendEmail(i)
                },
                _ => TableAction::Idle,
            },
            TablePhase::Sending(i) => match event {
                TableEvent::Failed(err) => {
                    self.phase = TablePhase::Done;
                    TableAction::Finish(Err(err))
                },
                TableEvent::Sent => {
                    self.phase = TablePhase::Marking(i);
                    TableAction::MarkSent(i)
                },
                _ => TableAction::Idle,
            },
            TablePhase::Marking(i) => match event {
                TableEvent::Failed(err) => {
                    self.phase = TablePhase::Done;
                    TableAction::Finish(Err(err))
                },
                TableEvent::Marked => {
                    let n = self.ids.len();
                    if i >= n {
                        return TableAction::Idle;
                    }
                    let ghost old_ids = self.ids@;
                    let id = self.ids[i];
                    self.sent.push(id);
                    proof {
                        if old(self)@.wf() {
                            assert(self.sent@ =~= old_ids.take(i + 1));
                        }
                    }
                    if i + 1 < n {
                        self.phase = TablePhase::Details(i + 1);
                        TableAction::FetchDetails(i + 1)
                    } else {
                        self.phase = TablePhase::Done;
                        let sent = self.sent.clone();
                        assert(sent@ =~= self.sent@);
                        TableAction::Finish(Ok(Some(sent)))
                    }
                },
                _ => TableAction::Idle,
            },
        }
    }
}

} // verus!
