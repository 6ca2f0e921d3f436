//! The records that the mailer reads from the databases.
use vstd::prelude::*;
use crate::datetime::{
    DateTime, DateTimeView, elapsed_clock, elapsed_clock_text, day_time, day_time_text, clock_text,
    nanos_of_day, lemma_elapsed_clock_of_times,
};

verus! {

/// An occurrence of a company's table, the subject of one e-mail.
pub struct Ocorrencia {
    id: i32,
    se: String,
    al: String,
    eqp: String,
    inicio: DateTime,
    fim: DateTime,
    tipo: String,
}

pub struct OcorrenciaView {
    pub id: int,
    pub se: Seq<char>,
    pub al: Seq<char>,
    pub eqp: Seq<char>,
    pub inicio: DateTimeView,
    pub fim: DateTimeView,
    pub tipo: Seq<char>,
}

impl View for Ocorrencia {
    type V = OcorrenciaView;

    closed spec fn view(&self) -> OcorrenciaView {
        OcorrenciaView {
            id: self.id as int,
            se: self.se@,
            al: self.al@,
            eqp: self.eqp@,
            inicio: self.inicio@,
            fim: self.fim@,
            tipo: self.tipo@,
        }
    }
}

/// `<tipo>:<se> <al> <eqp>`, the subject line of an occurrence's e-mail.
pub open spec fn title_text(o: OcorrenciaView) -> Seq<char> {
    o.tipo + ":"@ + o.se + " "@ + o.al + " "@ + o.eqp
}

/// The duration of an occurrence as it is shown in its e-mail: the time of
/// day that the span from start to end reaches from midnight, then `ms`.
pub open spec fn duration_text(o: OcorrenciaView) -> Seq<char> {
    elapsed_clock_text(o.inicio, o.fim) + "ms"@
}

/// The duration shown for an occurrence is the clock text of the difference
/// between its end and its start, every field of both counted (whole days
/// wrap away), followed by `ms`.
pub proof fn lemma_duration_of_times(o: OcorrenciaView)
    requires
        o.inicio.wf(),
        o.fim.wf(),
    ensures
        duration_text(o) == clock_text(
            (((nanos_of_day(o.fim) - nanos_of_day(o.inicio)) / 1_000_000_000) % 86_400) as nat,
            ((nanos_of_day(o.fim) - nanos_of_day(o.inicio)) % 1_000_000_000) as nat,
        ) + "ms"@,
{
    lemma_elapsed_clock_of_times(o.inicio, o.fim);
}

impl Ocorrencia {
    pub fn new(
        id: i32,
        se: String,
        al: String,
        eqp: String,
        inicio: DateTime,
        fim: DateTime,
        tipo: String,
    ) -> (res: Self)
        ensures
            res@ == (OcorrenciaView {
                id: id as int,
                se: se@,
                al: al@,
                eqp: eqp@,
                inicio: inicio@,
                fim: fim@,
                tipo: tipo@,
            }),
    {
        Ocorrencia { id, se, al, eqp, inicio, fim, tipo }
    }

    pub fn calculate_duration(&self) -> (res: String)
        ensures
            res@ == duration_text(self@),
            res@ == elapsed_clock_text(self@.inicio, self@.fim) + "ms"@,
            res@ == clock_text(
                (((nanos_of_day(self@.fim) - nanos_of_day(self@.inicio)) / 1_000_000_000) % 86_400) as nat,
                ((nanos_of_day(self@.fim) - nanos_of_day(self@.inicio)) % 1_000_000_000) as nat,
            ) + "ms"@,
    {
        self.inicio.check_wf();
        self.fim.check_wf();
        proof {
            lemma_elapsed_clock_of_times(self@.inicio, self@.fim);
        }
        let mut s = elapsed_clock(&self.inicio, &self.fim);
        s.append("ms");
        s
    }

    pub fn make_title(&self) -> (res: String)
        ensures
            res@ == title_text(self@),
    {
        let mut s = self.tipo.clone();
        s.append(":");
        s.append(self.se.as_str());
        s.append(" ");
        s.append(self.al.as_str());
        s.append(" ");
        s.append(self.eqp.as_str());
        s
    }

    pub fn id(&self) -> (res: i32)
        ensures
            res as int == self@.id,
    {
        self.id
    }

    /// The substation, feeder and equipment of the occurrence.
    pub fn eqp(&self) -> (res: (&str, &str, &str))
        ensures
            res.0@ == self@.se,
            res.1@ == self@.al,
            res.2@ == self@.eqp,
    {
        (self.se.as_str(), self.al.as_str(), self.eqp.as_str())
    }

    pub fn inicio(&self) -> (res: &DateTime)
        ensures
            res@ == self@.inicio,
    {
        &self.inicio
    }

    pub fn fim(&self) -> (res: &DateTime)
        ensures
            res@ == self@.fim,
    {
        &self.fim
    }

    pub fn tipo(&self) -> (res: &str)
        ensures
            res@ == self@.tipo,
    {
        self.tipo.as_str()
    }
}

/// One event of an occurrence's sequence of events (SOE).
pub struct OcorrenciaSoe {
    inicio: DateTime,
    fim: DateTime,
    mensagem: Option<String>,
    agente: Option<String>,
}

pub struct OcorrenciaSoeView {
    pub inicio: DateTimeView,
    pub fim: DateTimeView,
    pub mensagem: Option<Seq<char>>,
    pub agente: Option<Seq<char>>,
}

pub open spec fn opt_view(s: Option<String>) -> Option<Seq<char>> {
    match s {
        Some(v) => Some(v@),
        None => None,
    }
}

impl View for OcorrenciaSoe {
    type V = OcorrenciaSoeView;

    closed spec fn view(&self) -> OcorrenciaSoeView {
        OcorrenciaSoeView {
            inicio: self.inicio@,
            fim: self.fim@,
            mensagem: opt_view(self.mensagem),
            agente: opt_view(self.agente),
        }
    }
}

impl OcorrenciaSoe {
    pub fn new(inicio: DateTime, fim: DateTime, mensagem: Option<String>, agente: Option<String>) -> (res: Self)
        ensures
            res@ == (OcorrenciaSoeView {
                inicio: inicio@,
                fim: fim@,
                mensagem: opt_view(mensagem),
                agente: opt_view(agente),
            }),
    {
        OcorrenciaSoe { inicio, fim, mensagem, agente }
    }

    pub fn inicio(&self) -> (res: &DateTime)
        ensures
            res@ == self@.inicio,
    {
        &self.inicio
    }

    pub fn fim(&self) -> (res: &DateTime)
        ensures
            res@ == self@.fim,
    {
        &self.fim
    }

    pub fn mensagem(&self) -> (res: &Option<String>)
        ensures
            opt_view(*res) == self@.mensagem,
    {
        &self.mensagem
    }

    pub fn agente(&self) -> (res: &Option<String>)
        ensures
            opt_view(*res) == self@.agente,
    {
        &self.agente
    }
}

/// The date and time as the e-mail shows them: `hh:mm:ss  dd-mm-yyyy`.
pub fn date_to_str(time: &DateTime) -> (res: String)
    ensures
        res@ == day_time_text(time@),
{
    day_time(time)
}

/// The text of an optional column, empty where the column is null.
pub fn maybe_str(s: &Option<String>) -> (res: &str)
    ensures
        res@ == match s {
            Some(w) => w@,
            None => Seq::<char>::empty(),
        },
{
    proof {
        reveal_strlit("");
    }
    match s {
        Some(w) => w.as_str(),
        None => "",
    }
}

/// The present items of `s`, in their order.
pub open spec fn present<T>(s: Seq<Option<T>>) -> Seq<T>
    decreases s.len(),
{
    if s.len() == 0 {
        Seq::empty()
    } else {
        let rest = present(s.drop_first());
        match s[0] {
            Some(x) => seq![x] + rest,
            None => rest,
        }
    }
}

/// The subject of an occurrence's e-mail is its type, a colon, then its
/// substation, feeder and equipment separated by single spaces.
pub proof fn lemma_title_parts(o: OcorrenciaView)
    ensures
        title_text(o) == o.tipo + seq![':'] + o.se + seq![' '] + o.al + seq![' '] + o.eqp,
        title_text(o).len() == o.tipo.len() + o.se.len() + o.al.len() + o.eqp.len() + 3,
{
    reveal_strlit(":");
    reveal_strlit(" ");
}

/// Reading one more row keeps the rows read so far and adds the new one
/// after them when it was read without error, and nothing otherwise.
pub proof fn lemma_present_push<T>(s: Seq<Option<T>>, x: Option<T>)
    ensures
        present(s.push(x)) == match x {
            Some(v) => present(s).push(v),
            None => present(s),
        },
    decreases s.len(),
{
    if s.len() == 0 {
        assert(s.push(x).drop_first() =~= Seq::<Option<T>>::empty());
        assert(s.push(x)[0] == x);
        assert(present(Seq::<Option<T>>::empty()) == Seq::<T>::empty());
        assert(present(s) == Seq::<T>::empty());
        match x {
            Some(v) => {
                assert(present(s.push(x)) =~= seq![v] + Seq::<T>::empty());
                assert(present(s).push(v) =~= seq![v]);
            },
            None => {},
        }
    } else {
        assert(s.push(x).drop_first() =~= s.drop_first().push(x));
        assert(s.push(x)[0] == s[0]);
        lemma_present_push(s.drop_first(), x);
        match x {
            Some(v) => {
                match s[0] {
                    Some(w) => {
                        assert(seq![w] + present(s.drop_first()).push(v) =~= (seq![w] + present(s.drop_first())).push(v));
                    },
                    None => {},
                }
            },
            None => {},
        }
    }
}

/// The rows that were read without error, in their order; a row that could
/// not be read is skipped.
pub fn keep_ok<T>(rows: Vec<Option<T>>) -> (res: Vec<T>)
    ensures
        res@ == present(rows@),
{
    let mut rows = rows;
    let mut res: Vec<T> = Vec::new();
    let ghost all = rows@;
    while rows.len() > 0
        invariant
            res@ + present(rows@) == present(all),
        decreases rows.len(),
    {
        let ghost before = rows@;
        let row = rows.remove(0);
        assert(rows@ =~= before.drop_first());
        match row {
            Some(x) => {
                res.push(x);
                assert(res@ + present(rows@) =~= res@.drop_last() + present(before));
            },
            None => {},
        }
    }
    assert(res@ + present(rows@) =~= res@);
    res
}

/// The events of an occurrence built from the rows of the Oracle query
/// (start, end, message, agent); a row that could not be read is skipped.
pub fn soe_from_rows(
    rows: Vec<Option<(DateTime, DateTime, Option<String>, Option<String>)>>,
) -> (res: Vec<OcorrenciaSoe>)
    ensures
        res@.len() == present(rows@).len(),
        forall|i: int|
            0 <= i < res@.len() ==> #[trigger] res@[i]@ == (OcorrenciaSoeView {
                inicio: present(rows@)[i].0@,
                fim: present(rows@)[i].1@,
                mensagem: opt_view(present(rows@)[i].2),
                agente: opt_view(present(rows@)[i].3),
            }),
{
    let mut kept = keep_ok(rows);
    let ghost all = kept@;
    let mut res: Vec<OcorrenciaSoe> = Vec::new();
    while kept.len() > 0
        invariant
            res@.len() + kept@.len() == all.len(),
            kept@ == all.subrange(res@.len() as int, all.len() as int),
            forall|i: int|
                0 <= i < res@.len() ==> #[trigger] res@[i]@ == (OcorrenciaSoeView {
                    inicio: all[i].0@,
                    fim: all[i].1@,
                    mensagem: opt_view(all[i].2),
                    agente: opt_view(all[i].3),
                }),
        decreases kept.len(),
    {
        let (inicio, fim, mensagem, agente) = kept.remove(0);
        res.push(OcorrenciaSoe::new(inicio, fim, mensagem, agente));
    }
    res
}

} // verus!
