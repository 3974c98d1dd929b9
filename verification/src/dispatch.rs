//! The statement dispatcher: a step machine that classifies a request,
//! validates its shape, and sequences its execution.
//!
//! The machine owns every decision of the pipeline but performs no
//! store access itself. `Session::start` classifies the request and
//! returns the first `Action`; the caller — the single worker that owns
//! the store connection — performs each action and reports an
//! `EngineEvent`, and `Session::step` returns the next action, until
//! `Action::Respond` closes the request. Because one worker drives one
//! session at a time over the one connection, requests execute in a
//! single total order and never interleave.
//!
//! The whole transition relation is given by the spec functions
//! `model_start` and `model_step`; the exec machine returns exactly
//! what they say, and the laws at the end of this module state the
//! shape of every run.

use vstd::prelude::*;
use crate::marshal::{convert_rows, marshal_rows, parameter_of, to_parameter};
use crate::request::{ArgEntry, ArgEntryModel, ArgItem, ArgItemModel, Input, InputModel, Output, SqlInput, SqlModel};
use crate::value::{ColumnModel, InteropValue, ScalarModel};

verus! {

/// The parameters a batch argument group binds to, in order; `None`
/// when some element is a nested array or object.
pub open spec fn group_params(items: Seq<ArgItemModel>) -> Option<Seq<ColumnModel>>
    decreases items.len(),
{
    if items.len() == 0 {
        Some(Seq::empty())
    } else {
        match (group_params(items.drop_last()), items.last()) {
            (Some(ps), ArgItemModel::Scalar(s)) => Some(ps.push(parameter_of(s))),
            _ => None,
        }
    }
}

/// The parameters a single statement's flat argument list binds to, in
/// order; `None` when some entry is an array or an object, which are
/// invalid as scalar parameters.
pub open spec fn flat_params(args: Seq<ArgEntryModel>) -> Option<Seq<ColumnModel>>
    decreases args.len(),
{
    if args.len() == 0 {
        Some(Seq::empty())
    } else {
        match (flat_params(args.drop_last()), args.last()) {
            (Some(ps), ArgEntryModel::Scalar(s)) => Some(ps.push(parameter_of(s))),
            _ => None,
        }
    }
}

proof fn lemma_group_params_bad(items: Seq<ArgItemModel>, k: int)
    requires
        0 <= k < items.len(),
        !(items[k] is Scalar),
    ensures
        group_params(items) is None,
    decreases items.len(),
{
    if k < items.len() - 1 {
        lemma_group_params_bad(items.drop_last(), k);
    }
}

proof fn lemma_flat_params_bad(args: Seq<ArgEntryModel>, k: int)
    requires
        0 <= k < args.len(),
        !(args[k] is Scalar),
    ensures
        flat_params(args) is None,
    decreases args.len(),
{
    if k < args.len() - 1 {
        lemma_flat_params_bad(args.drop_last(), k);
    }
}

/// Bind the elements of one batch argument group.
pub fn bind_group(items: &Vec<ArgItem>) -> (r: Option<Vec<InteropValue>>)
    ensures
        r.deep_view() == group_params(items.deep_view()),
{
    let mut out: Vec<InteropValue> = Vec::new();
    let mut i: usize = 0;
    while i < items.len()
        invariant
            i <= items.len(),
            group_params(items.deep_view().take(i as int)) == Some(out.deep_view()),
        decreases items.len() - i,
    {
        match &items[i] {
            ArgItem::Scalar(s) => {
                let p = to_parameter(s);
                let ghost prev = out.deep_view();
                out.push(p);
                proof {
                    let full = items.deep_view().take(i as int + 1);
                    assert(full.drop_last() =~= items.deep_view().take(i as int));
                    assert(out.deep_view() =~= prev.push(p@));
                }
            }
            ArgItem::Composite => {
                proof {
                    lemma_group_params_bad(items.deep_view(), i as int);
                }
                return None;
            }
        }
        i += 1;
    }
    proof {
        assert(items.deep_view().take(items.deep_view().len() as int) =~= items.deep_view());
    }
    Some(out)
}

/// Bind a single statement's flat argument list.
pub fn bind_flat(args: &Vec<ArgEntry>) -> (r: Option<Vec<InteropValue>>)
    ensures
        r.deep_view() == flat_params(args.deep_view()),
{
    let mut out: Vec<InteropValue> = Vec::new();
    let mut i: usize = 0;
    while i < args.len()
        invariant
            i <= args.len(),
            flat_params(args.deep_view().take(i as int)) == Some(out.deep_view()),
        decreases args.len() - i,
    {
        match &args[i] {
            ArgEntry::Scalar(s) => {
                let p = to_parameter(s);
                let ghost prev = out.deep_view();
                out.push(p);
                proof {
                    let full = args.deep_view().take(i as int + 1);
                    assert(full.drop_last() =~= args.deep_view().take(i as int));
                    assert(out.deep_view() =~= prev.push(p@));
                }
            }
            _ => {
                proof {
                    lemma_flat_params_bad(args.deep_view(), i as int);
                }
                return None;
            }
        }
        i += 1;
    }
    proof {
        assert(args.deep_view().take(args.deep_view().len() as int) =~= args.deep_view());
    }
    Some(out)
}

/// Model of an `Action`.
pub ghost enum ActionModel {
    Query { sql: Seq<char>, params: Seq<ColumnModel> },
    Statement { sql: Seq<char>, params: Seq<ColumnModel> },
    Audit,
    Respond { rows: Seq<Seq<ScalarModel>>, ok: bool },
}

/// Model of an `EngineEvent`.
pub ghost enum EventModel {
    Rows(Seq<Seq<ColumnModel>>),
    Done,
    Failed,
    AuditFinished,
}

/// Model of a `Phase`.
pub ghost enum PhaseModel {
    AwaitingRows,
    RunningBatch { stmts: Seq<Seq<char>>, groups: Seq<ArgEntryModel>, next: int },
    Auditing { rows: Seq<Seq<ScalarModel>>, ok: bool },
    Finished,
}

/// Model of a `Session`, with the count of audit actions it has issued.
pub ghost struct SessionModel {
    pub audit_enabled: bool,
    pub accepted: bool,
    pub audits: nat,
    pub phase: PhaseModel,
}

/// Close a request whose execution window is over (or that was
/// rejected): issue the one audit action first when auditing is enabled
/// and the request was accepted, else respond at once.
pub open spec fn model_finish(enabled: bool, accepted: bool, rows: Seq<Seq<ScalarModel>>, ok: bool) -> (SessionModel, ActionModel) {
    if enabled && accepted {
        (
            SessionModel { audit_enabled: enabled, accepted, audits: 1, phase: PhaseModel::Auditing { rows, ok } },
            ActionModel::Audit,
        )
    } else {
        (
            SessionModel { audit_enabled: enabled, accepted, audits: 0, phase: PhaseModel::Finished },
            ActionModel::Respond { rows, ok },
        )
    }
}

/// Issue statement `k` of an accepted batch, or close the batch: after
/// the last statement a batch responds with no rows; a group that is
/// not an array, or holds a nested composite, is a parameter-type
/// error that stops the batch (statements already run are not undone).
pub open spec fn model_batch_advance(enabled: bool, stmts: Seq<Seq<char>>, groups: Seq<ArgEntryModel>, k: int) -> (SessionModel, ActionModel) {
    if k == stmts.len() {
        model_finish(enabled, true, Seq::empty(), true)
    } else {
        match groups[k] {
            ArgEntryModel::List(items) => match group_params(items) {
                Some(ps) => (
                    SessionModel {
                        audit_enabled: enabled,
                        accepted: true,
                        audits: 0,
                        phase: PhaseModel::RunningBatch { stmts, groups, next: k + 1 },
                    },
                    ActionModel::Statement { sql: stmts[k], params: ps },
                ),
                None => model_finish(enabled, true, Seq::empty(), false),
            },
            _ => model_finish(enabled, true, Seq::empty(), false),
        }
    }
}

/// Classify and validate a request, and produce the first action.
/// A single statement with bindable arguments issues its query; a
/// batch whose lengths match issues its first statement. The one
/// rejected shape — batch lengths that differ — responds at once,
/// executes nothing and audits nothing.
pub open spec fn model_start(input: InputModel, enabled: bool) -> (SessionModel, ActionModel) {
    match input.sql {
        SqlModel::Single(sql) => match flat_params(input.args) {
            Some(ps) => (
                SessionModel { audit_enabled: enabled, accepted: true, audits: 0, phase: PhaseModel::AwaitingRows },
                ActionModel::Query { sql, params: ps },
            ),
            None => model_finish(enabled, true, Seq::empty(), false),
        },
        SqlModel::Batch(stmts) => if stmts.len() != input.args.len() {
            model_finish(enabled, false, Seq::empty(), false)
        } else {
            model_batch_advance(enabled, stmts, input.args, 0)
        },
    }
}

/// The events a session can take next.
pub open spec fn model_expects(s: SessionModel, ev: EventModel) -> bool {
    match (s.phase, ev) {
        (PhaseModel::AwaitingRows, EventModel::Rows(_)) => true,
        (PhaseModel::AwaitingRows, EventModel::Failed) => true,
        (PhaseModel::RunningBatch { .. }, EventModel::Done) => true,
        (PhaseModel::RunningBatch { .. }, EventModel::Failed) => true,
        (PhaseModel::Auditing { .. }, EventModel::AuditFinished) => true,
        _ => false,
    }
}

/// One step of the machine on an engine event.
pub open spec fn model_step(s: SessionModel, ev: EventModel) -> (SessionModel, ActionModel) {
    match (s.phase, ev) {
        (PhaseModel::AwaitingRows, EventModel::Rows(rows)) => model_finish(
            s.audit_enabled,
            true,
            marshal_rows(rows),
            true,
        ),
        (PhaseModel::AwaitingRows, EventModel::Failed) => model_finish(
            s.audit_enabled,
            true,
            Seq::empty(),
            false,
        ),
        (PhaseModel::RunningBatch { stmts, groups, next }, EventModel::Done) => model_batch_advance(
            s.audit_enabled,
            stmts,
            groups,
            next,
        ),
        (PhaseModel::RunningBatch { .. }, EventModel::Failed) => model_finish(
            s.audit_enabled,
            true,
            Seq::empty(),
            false,
        ),
        (PhaseModel::Auditing { rows, ok }, EventModel::AuditFinished) => (
            SessionModel { audit_enabled: s.audit_enabled, accepted: s.accepted, audits: s.audits, phase: PhaseModel::Finished },
            ActionModel::Respond { rows, ok },
        ),
        _ => (s, ActionModel::Respond { rows: Seq::empty(), ok: false }),
    }
}

/// The session invariant: what each phase implies about acceptance and
/// about the audit actions issued so far.
pub open spec fn model_wf(s: SessionModel) -> bool {
    match s.phase {
        PhaseModel::AwaitingRows => s.accepted && s.audits == 0,
        PhaseModel::RunningBatch { stmts, groups, next } => s.accepted && s.audits == 0
            && stmts.len() == groups.len() && 1 <= next <= stmts.len(),
        PhaseModel::Auditing { rows, ok } => s.accepted && s.audit_enabled && s.audits == 1
            && (ok || rows.len() == 0),
        PhaseModel::Finished => s.audits == (if s.accepted && s.audit_enabled { 1nat } else { 0nat }),
    }
}

/// An order from the machine to the worker that owns the connection.
#[derive(Debug, PartialEq)]
pub enum Action {
    /// Compile and run one statement and report its rows.
    RunQuery { sql: String, params: Vec<InteropValue> },
    /// Compile and run one statement, discarding any rows.
    RunStatement { sql: String, params: Vec<InteropValue> },
    /// Record the audit entry for this request (best effort).
    RecordAudit,
    /// Send the response; the session is over.
    Respond { output: Output, ok: bool },
}

/// The worker's report on the last action.
#[derive(Debug, PartialEq)]
pub enum EngineEvent {
    /// The query ran; these are its rows, in cursor order.
    Rows(Vec<Vec<InteropValue>>),
    /// The statement ran.
    Done,
    /// Compilation or execution failed.
    Failed,
    /// The audit attempt is over, recorded or swallowed.
    AuditFinished,
}

/// Where a session stands.
#[derive(Debug, PartialEq)]
pub enum Phase {
    /// A single statement's query is outstanding.
    AwaitingRows,
    /// Batch statement `next - 1` is outstanding.
    RunningBatch { stmts: Vec<String>, groups: Vec<ArgEntry>, next: usize },
    /// The audit action is outstanding; the response is ready.
    Auditing { output: Output, ok: bool },
    /// The response went out.
    Finished,
}

/// One request's passage through the pipeline.
pub struct Session {
    pub audit_enabled: bool,
    pub accepted: bool,
    pub audits: Ghost<nat>,
    pub phase: Phase,
}

impl View for Action {
    type V = ActionModel;

    open spec fn view(&self) -> ActionModel {
        match self {
            Action::RunQuery { sql, params } => ActionModel::Query { sql: sql@, params: params.deep_view() },
            Action::RunStatement { sql, params } => ActionModel::Statement { sql: sql@, params: params.deep_view() },
            Action::RecordAudit => ActionModel::Audit,
            Action::Respond { output, ok } => ActionModel::Respond { rows: output@, ok: *ok },
        }
    }
}

impl View for EngineEvent {
    type V = EventModel;

    open spec fn view(&self) -> EventModel {
        match self {
            EngineEvent::Rows(rows) => EventModel::Rows(rows.deep_view()),
            EngineEvent::Done => EventModel::Done,
            EngineEvent::Failed => EventModel::Failed,
            EngineEvent::AuditFinished => EventModel::AuditFinished,
        }
    }
}

impl View for Phase {
    type V = PhaseModel;

    open spec fn view(&self) -> PhaseModel {
        match self {
            Phase::AwaitingRows => PhaseModel::AwaitingRows,
            Phase::RunningBatch { stmts, groups, next } => PhaseModel::RunningBatch {
                stmts: stmts.deep_view(),
                groups: groups.deep_view(),
                next: *next as int,
            },
            Phase::Auditing { output, ok } => PhaseModel::Auditing { rows: output@, ok: *ok },
            Phase::Finished => PhaseModel::Finished,
        }
    }
}

impl View for Session {
    type V = SessionModel;

    open spec fn view(&self) -> SessionModel {
        SessionModel {
            audit_enabled: self.audit_enabled,
            accepted: self.accepted,
            audits: self.audits@,
            phase: self.phase@,
        }
    }
}

impl Session {
    fn finish(audit_enabled: bool, accepted: bool, output: Output, ok: bool) -> (r: (Session, Action))
        ensures
            (r.0@, r.1@) == model_finish(audit_enabled, accepted, output@, ok),
    {
        if audit_enabled && accepted {
            (
                Session { audit_enabled, accepted, audits: Ghost(1nat), phase: Phase::Auditing { output, ok } },
                Action::RecordAudit,
            )
        } else {
            (
                Session { audit_enabled, accepted, audits: Ghost(0nat), phase: Phase::Finished },
                Action::Respond { output, ok },
            )
        }
    }

    fn advance(audit_enabled: bool, stmts: Vec<String>, groups: Vec<ArgEntry>, k: usize) -> (r: (Session, Action))
        requires
            stmts@.len() == groups@.len(),
            k <= stmts@.len(),
        ensures
            (r.0@, r.1@) == model_batch_advance(audit_enabled, stmts.deep_view(), groups.deep_view(), k as int),
    {
        if k == stmts.len() {
            Self::finish(audit_enabled, true, Output::default(), true)
        } else {
            let bound: Option<Vec<InteropValue>> = match &groups[k] {
                ArgEntry::List(items) => bind_group(items),
                _ => None,
            };
            match bound {
                Some(params) => {
                    let sql = stmts[k].clone();
                    (
                        Session {
                            audit_enabled,
                            accepted: true,
                            audits: Ghost(0nat),
                            phase: Phase::RunningBatch { stmts, groups, next: k + 1 },
                        },
                        Action::RunStatement { sql, params },
                    )
                }
                None => Self::finish(audit_enabled, true, Output::default(), false),
            }
        }
    }

    /// Open a session for one decoded request and get the first action.
    pub fn start(input: Input, audit_enabled: bool) -> (r: (Session, Action))
        ensures
            (r.0@, r.1@) == model_start(input@, audit_enabled),
            model_wf(r.0@),
    {
        proof {
            lemma_start_wf(input@, audit_enabled);
        }
        let Input { sql, args } = input;
        match sql {
            SqlInput::Single(sql_text) => match bind_flat(&args) {
                Some(params) => (
                    Session { audit_enabled, accepted: true, audits: Ghost(0nat), phase: Phase::AwaitingRows },
                    Action::RunQuery { sql: sql_text, params },
                ),
                None => Self::finish(audit_enabled, true, Output::default(), false),
            },
            SqlInput::Batch(stmts) => {
                if stmts.len() != args.len() {
                    Self::finish(audit_enabled, false, Output::default(), false)
                } else {
                    Self::advance(audit_enabled, stmts, args, 0)
                }
            }
        }
    }

    /// Take the worker's report on the last action and get the next one.
    pub fn step(self, ev: EngineEvent) -> (r: (Session, Action))
        requires
            model_wf(self@),
            model_expects(self@, ev@),
        ensures
            (r.0@, r.1@) == model_step(self@, ev@),
            model_wf(r.0@),
    {
        proof {
            lemma_step_wf(self@, ev@);
        }
        let Session { audit_enabled, accepted, audits, phase } = self;
        match (phase, ev) {
            (Phase::AwaitingRows, EngineEvent::Rows(rows)) => {
                let converted = convert_rows(&rows);
                Self::finish(audit_enabled, true, Output { rows: converted }, true)
            }
            (Phase::AwaitingRows, EngineEvent::Failed) => Self::finish(
                audit_enabled,
                true,
                Output::default(),
                false,
            ),
            (Phase::RunningBatch { stmts, groups, next }, EngineEvent::Done) => Self::advance(
                audit_enabled,
                stmts,
                groups,
                next,
            ),
            (Phase::RunningBatch { .. }, EngineEvent::Failed) => Self::finish(
                audit_enabled,
                true,
                Output::default(),
                false,
            ),
            (Phase::Auditing { output, ok }, EngineEvent::AuditFinished) => (
                Session { audit_enabled, accepted, audits, phase: Phase::Finished },
                Action::Respond { output, ok },
            ),
            _ => (
                Session { audit_enabled, accepted, audits, phase: Phase::Finished },
                Action::Respond { output: Output::default(), ok: false },
            ),
        }
    }
}

/// `model_start` establishes the session invariant.
pub proof fn lemma_start_wf(input: InputModel, enabled: bool)
    ensures
        model_wf(model_start(input, enabled).0),
{
}

/// `model_step` preserves the session invariant.
pub proof fn lemma_step_wf(s: SessionModel, ev: EventModel)
    requires
        model_wf(s),
        model_expects(s, ev),
    ensures
        model_wf(model_step(s, ev).0),
{
}

/// A step issues an audit action exactly when it moves the session into
/// the auditing phase, so the audit count never grows past one.
pub proof fn lemma_step_audits(s: SessionModel, ev: EventModel)
    requires
        model_wf(s),
        model_expects(s, ev),
    ensures
        model_step(s, ev).0.audits == s.audits + (
            if model_step(s, ev).1 is Audit { 1nat } else { 0nat }
        ),
{
}

/// Over a whole run, an accepted request issues exactly one audit
/// action when auditing is enabled, and none when it is disabled; a
/// rejected request issues none either way.
pub proof fn lemma_audit_exactly_once(s: SessionModel)
    requires
        model_wf(s),
        s.phase is Finished,
    ensures
        s.audits == (if s.accepted && s.audit_enabled { 1nat } else { 0nat }),
{
}

/// The response a finishing transition leads to: directly, or after
/// the one audit action.
pub open spec fn response_of(sa: (SessionModel, ActionModel)) -> (Seq<Seq<ScalarModel>>, bool) {
    match sa.1 {
        ActionModel::Audit => match model_step(sa.0, EventModel::AuditFinished).1 {
            ActionModel::Respond { rows, ok } => (rows, ok),
            _ => (Seq::empty(), false),
        },
        ActionModel::Respond { rows, ok } => (rows, ok),
        _ => (Seq::empty(), false),
    }
}

/// A batch whose statement list and argument list differ in length is
/// rejected outright: the session is finished at once, so no statement
/// action is ever issued, no audit is recorded, and the response is
/// the empty error shape.
pub proof fn lemma_batch_mismatch_rejected(input: InputModel, enabled: bool)
    requires
        input.sql matches SqlModel::Batch(stmts) && stmts.len() != input.args.len(),
    ensures
        model_start(input, enabled).0.phase is Finished,
        model_start(input, enabled).0.audits == 0,
        model_start(input, enabled).1 matches ActionModel::Respond { rows, ok } && rows.len() == 0
            && !ok,
{
}

/// A single statement with bindable arguments issues exactly one query
/// — the given text with the arguments bound in order — and the run
/// responds with the marshalled rows the engine returned and success.
pub proof fn lemma_single_statement_run(input: InputModel, enabled: bool, rows: Seq<Seq<ColumnModel>>)
    requires
        input.sql is Single,
        flat_params(input.args) is Some,
    ensures
        model_start(input, enabled).1 == (ActionModel::Query {
            sql: input.sql->Single_0,
            params: flat_params(input.args)->0,
        }),
        response_of(model_step(model_start(input, enabled).0, EventModel::Rows(rows))) == (
            marshal_rows(rows),
            true,
        ),
{
}

/// A single statement whose execution fails responds with the empty
/// error shape (after the one audit action, when enabled).
pub proof fn lemma_single_statement_failure(input: InputModel, enabled: bool)
    requires
        input.sql is Single,
        flat_params(input.args) is Some,
    ensures
        response_of(model_step(model_start(input, enabled).0, EventModel::Failed)) == (
            Seq::<Seq<ScalarModel>>::empty(),
            false,
        ),
{
}

/// An accepted batch begins at its first statement.
pub proof fn lemma_batch_start(input: InputModel, enabled: bool)
    requires
        input.sql matches SqlModel::Batch(stmts) && stmts.len() == input.args.len(),
    ensures
        model_start(input, enabled) == model_batch_advance(enabled, input.sql->Batch_0, input.args, 0),
{
}

/// In an accepted batch, the engine action at index `k` is exactly the
/// k-th statement with its own argument group bound in order, and the
/// session then waits for that statement before moving to `k + 1`: the
/// statements run one at a time, in request order.
pub proof fn lemma_batch_step(enabled: bool, stmts: Seq<Seq<char>>, groups: Seq<ArgEntryModel>, k: int)
    requires
        stmts.len() == groups.len(),
        0 <= k < stmts.len(),
        groups[k] matches ArgEntryModel::List(items) && group_params(items) is Some,
    ensures
        model_batch_advance(enabled, stmts, groups, k).1 == (ActionModel::Statement {
            sql: stmts[k],
            params: group_params(groups[k]->List_0)->0,
        }),
        model_batch_advance(enabled, stmts, groups, k).0.phase == (PhaseModel::RunningBatch {
            stmts,
            groups,
            next: k + 1,
        }),
        model_step(model_batch_advance(enabled, stmts, groups, k).0, EventModel::Done)
            == model_batch_advance(enabled, stmts, groups, k + 1),
{
}

/// Every failure response carries the empty row list: a caller can
/// never observe partial rows from a failed request, whether the
/// response comes straight from a step or after the audit action.
pub proof fn lemma_failure_response_empty(s: SessionModel, ev: EventModel)
    requires
        model_wf(s),
        model_expects(s, ev),
    ensures
        model_step(s, ev).1 matches ActionModel::Respond { rows, ok } ==> (ok || rows.len() == 0),
{
}

/// The same at the front door: a request rejected or failed in `start`
/// is answered with no rows.
pub proof fn lemma_start_failure_response_empty(input: InputModel, enabled: bool)
    ensures
        model_start(input, enabled).1 matches ActionModel::Respond { rows, ok } ==> (ok
            || rows.len() == 0),
{
}

/// A batch that has run all its statements responds with no rows and
/// success: a batch never returns rows.
pub proof fn lemma_batch_completion(enabled: bool, stmts: Seq<Seq<char>>, groups: Seq<ArgEntryModel>)
    requires
        stmts.len() == groups.len(),
    ensures
        response_of(model_batch_advance(enabled, stmts, groups, stmts.len() as int)) == (
            Seq::<Seq<ScalarModel>>::empty(),
            true,
        ),
{
}

} // verus!
