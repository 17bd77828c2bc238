//! The writer: the single consumer of the command queue. It takes one command
//! at a time, in the order of arrival, and says what the backend has to do.

use vstd::prelude::*;
use crossbeam::channel::Sender;
use crate::channel::{send_reply, Command};
use crate::kind::{MetricId, MetricKind, Value, INVALID_ID};
use crate::tabular::{tables, Tabular, TabularModel};
use crate::waveform::{is_payload, metric_size, metric_type, metric_value, type_of, width_of, VarType};

verus! {

/// A registered metric as contracts see it.
pub struct MetricModel {
    pub name: Seq<char>,
    pub kind: MetricKind,
    pub unit: Seq<char>,
    pub id: MetricId,
}

/// A registered metric. Its identifier is its index in the metric list.
#[derive(Debug)]
pub struct Metric {
    pub name: String,
    pub kind: MetricKind,
    pub unit: String,
    pub id: MetricId,
}

impl View for Metric {
    type V = MetricModel;

    open spec fn view(&self) -> MetricModel {
        MetricModel { name: self.name@, kind: self.kind, unit: self.unit@, id: self.id }
    }
}

/// A registration that waits for the backend, as contracts see it.
pub struct RegistrationModel {
    pub name: Seq<char>,
    pub kind: MetricKind,
    pub unit: Seq<char>,
    pub reply: Sender<MetricId>,
}

/// The answer to a registration: the identifier of the new metric and the
/// channel on which it goes to the call site that asked.
#[derive(Debug)]
pub struct Reply {
    pub to: Sender<MetricId>,
    pub id: MetricId,
}

/// Where the writer stands in its life.
#[derive(Debug, Copy, Clone, Eq, PartialEq, Structural)]
pub enum Phase {
    /// Commands are taken.
    Running,
    /// An exit command was taken: no further command is.
    Stopped,
    /// The backend failed: no further command is taken.
    Failed,
}

/// The backend as contracts see it.
pub enum BackendModel {
    Tabular(TabularModel),
    Waveform,
}

/// The output format and what it keeps between commands.
pub enum Backend {
    /// Rows of comma-separated text.
    Tabular(Tabular),
    /// A binary trace with a clock of one nanosecond.
    Waveform,
}

impl View for Backend {
    type V = BackendModel;

    open spec fn view(&self) -> BackendModel {
        match self {
            Backend::Tabular(t) => BackendModel::Tabular(t@),
            Backend::Waveform => BackendModel::Waveform,
        }
    }
}

/// What the backend has to do for one command, as contracts see it.
pub enum EffectModel {
    Nothing,
    Declare { var_type: VarType, width: u32, name: Seq<char> },
    TimeChange(u64),
    ValueChange { var: MetricId, payload: Seq<u8> },
    Records(Seq<Seq<Seq<char>>>),
}

/// What the backend has to do for one command.
#[derive(Debug)]
pub enum Effect {
    /// Nothing is written.
    Nothing,
    /// A variable is declared in the trace, as an output, with this type,
    /// width in bytes and name. Variables are declared in the order of the
    /// identifiers of their metrics.
    Declare { var_type: VarType, width: u32, name: String },
    /// A time change is emitted at this count of nanoseconds.
    TimeChange(u64),
    /// A value change is emitted for the variable of the metric `var`.
    ValueChange { var: MetricId, payload: Vec<u8> },
    /// These records are written to the table, in order.
    Records(Vec<Vec<String>>),
}

impl View for Effect {
    type V = EffectModel;

    open spec fn view(&self) -> EffectModel {
        match self {
            Effect::Nothing => EffectModel::Nothing,
            Effect::Declare { var_type, width, name } => EffectModel::Declare {
                var_type: *var_type,
                width: *width,
                name: name@,
            },
            Effect::TimeChange(t) => EffectModel::TimeChange(*t),
            Effect::ValueChange { var, payload } => EffectModel::ValueChange {
                var: *var,
                payload: payload@,
            },
            Effect::Records(records) => EffectModel::Records(tables(records@)),
        }
    }
}

/// The effect of writing `records`: nothing where there is none.
pub open spec fn records_effect(records: Seq<Seq<Seq<char>>>) -> EffectModel {
    if records.len() == 0 {
        EffectModel::Nothing
    } else {
        EffectModel::Records(records)
    }
}

/// The writer as contracts see it.
pub struct WriterModel {
    pub backend: BackendModel,
    pub metrics: Seq<MetricModel>,
    pub phase: Phase,
}

impl WriterModel {
    /// A running writer without metrics.
    pub open spec fn start(backend: BackendModel) -> Self {
        WriterModel { backend, metrics: Seq::empty(), phase: Phase::Running }
    }

    /// Identifiers are the indices of the metric list, and a table has one
    /// column for each metric.
    pub open spec fn wf(self) -> bool {
        &&& self.metrics.len() <= usize::MAX
        &&& forall|i: int| 0 <= i < self.metrics.len() ==> (#[trigger] self.metrics[i]).id == i
        &&& match self.backend {
            BackendModel::Tabular(t) => t.columns.len() == self.metrics.len(),
            BackendModel::Waveform => true,
        }
    }

    /// Whether `metric` names a registered metric.
    pub open spec fn knows(self, metric: MetricId) -> bool {
        metric < self.metrics.len()
    }

    /// The registration that the command leaves waiting for the backend.
    pub open spec fn pending(self, cmd: Command) -> Option<RegistrationModel> {
        if self.phase is Running && cmd is Register {
            Some(
                RegistrationModel {
                    name: cmd->name@,
                    kind: cmd->kind,
                    unit: cmd->unit@,
                    reply: cmd->reply,
                },
            )
        } else {
            None
        }
    }

    /// The writer with one more metric: it gets the next identifier, and a
    /// table gets a column for it.
    pub open spec fn registered(self, r: RegistrationModel) -> WriterModel {
        WriterModel {
            backend: match self.backend {
                BackendModel::Tabular(t) => BackendModel::Tabular(t.register(r.name)),
                BackendModel::Waveform => BackendModel::Waveform,
            },
            metrics: self.metrics.push(
                MetricModel {
                    name: r.name,
                    kind: r.kind,
                    unit: r.unit,
                    id: self.metrics.len() as MetricId,
                },
            ),
            ..self
        }
    }

    /// Whether the writer takes no command after this one.
    pub open spec fn stops(self, cmd: Command) -> bool {
        !(self.phase is Running) || cmd is Exit
    }

    /// The writer after it has decided on the command. A registration
    /// changes nothing yet: the metric joins the list only when the backend
    /// has done its part.
    pub open spec fn after(self, cmd: Command) -> WriterModel {
        if !(self.phase is Running) {
            self
        } else {
            match cmd {
                Command::Register { .. } => self,
                Command::Timestamp(nanos) => WriterModel {
                    backend: match self.backend {
                        BackendModel::Tabular(t) => BackendModel::Tabular(t.advanced(nanos)),
                        BackendModel::Waveform => BackendModel::Waveform,
                    },
                    ..self
                },
                Command::Update { metric, value } => if self.knows(metric) {
                    WriterModel {
                        backend: match self.backend {
                            BackendModel::Tabular(t) => BackendModel::Tabular(
                                t.update(metric as int, value.canonical_text()),
                            ),
                            BackendModel::Waveform => BackendModel::Waveform,
                        },
                        ..self
                    }
                } else {
                    self
                },
                Command::Exit => WriterModel {
                    backend: match self.backend {
                        BackendModel::Tabular(t) => BackendModel::Tabular(t.flushed()),
                        BackendModel::Waveform => BackendModel::Waveform,
                    },
                    phase: Phase::Stopped,
                    ..self
                },
            }
        }
    }

    /// Whether `effect` is what the backend has to do for the command.
    pub open spec fn emits(self, cmd: Command, effect: EffectModel) -> bool {
        if !(self.phase is Running) {
            effect is Nothing
        } else {
            match cmd {
                Command::Register { name, kind, .. } => match self.backend {
                    BackendModel::Tabular(_) => effect is Nothing,
                    BackendModel::Waveform => effect == (EffectModel::Declare {
                        var_type: type_of(kind),
                        width: width_of(kind) as u32,
                        name: name@,
                    }),
                },
                Command::Timestamp(nanos) => match self.backend {
                    BackendModel::Tabular(t) => effect == records_effect(t.records()),
                    BackendModel::Waveform => effect == EffectModel::TimeChange(nanos),
                },
                Command::Update { metric, value } => match self.backend {
                    BackendModel::Waveform if self.knows(metric) => {
                        &&& effect is ValueChange
                        &&& effect->var == metric
                        &&& is_payload(self.metrics[metric as int].kind, value, effect->payload)
                    },
                    _ => effect is Nothing,
                },
                Command::Exit => match self.backend {
                    BackendModel::Tabular(t) => effect == records_effect(t.records()),
                    BackendModel::Waveform => effect is Nothing,
                },
            }
        }
    }

    /// The writer after the backend has reported on an effect. A failure
    /// ends a running writer and leaves the metric list and the backend as
    /// they are: a registration that waited is not made. After a success the
    /// registration that waited is made. A writer that has ended stays as it is.
    pub open spec fn settled(self, pending: Option<RegistrationModel>, ok: bool) -> WriterModel {
        if !(self.phase is Running) {
            self
        } else if !ok {
            WriterModel { phase: Phase::Failed, ..self }
        } else {
            match pending {
                Some(r) => self.registered(r),
                None => self,
            }
        }
    }

    /// The answer that goes out after the backend has reported on an effect:
    /// after a success, a registration that waited on a running writer is
    /// answered on its own channel with the next identifier, the number of
    /// metrics registered so far. Nothing else is ever answered.
    pub open spec fn answer(self, pending: Option<RegistrationModel>, ok: bool) -> Option<Reply> {
        if self.phase is Running && ok {
            match pending {
                Some(r) => Some(Reply { to: r.reply, id: self.metrics.len() as MetricId }),
                None => None,
            }
        } else {
            None
        }
    }

    /// The answer to the command where the backend does its part.
    pub open spec fn answered(self, cmd: Command) -> Option<Reply> {
        self.after(cmd).answer(self.pending(cmd), true)
    }

    /// The writer after the command where the backend does its part.
    pub open spec fn taken(self, cmd: Command) -> WriterModel {
        self.after(cmd).settled(self.pending(cmd), true)
    }

    /// The writer after the commands, taken in order, where the backend
    /// does its part each time.
    pub open spec fn run(self, cmds: Seq<Command>) -> WriterModel
        decreases cmds.len(),
    {
        if cmds.len() == 0 {
            self
        } else {
            self.taken(cmds[0]).run(cmds.drop_first())
        }
    }

    /// The answers that go out for the commands, in order, where the
    /// backend does its part each time.
    pub open spec fn replies(self, cmds: Seq<Command>) -> Seq<Reply>
        decreases cmds.len(),
    {
        if cmds.len() == 0 {
            Seq::empty()
        } else {
            let head = match self.answered(cmds[0]) {
                Some(reply) => seq![reply],
                None => Seq::empty(),
            };
            head + self.taken(cmds[0]).replies(cmds.drop_first())
        }
    }
}

/// The reply channels of the registrations among the commands, in order.
pub open spec fn asked(cmds: Seq<Command>) -> Seq<Sender<MetricId>>
    decreases cmds.len(),
{
    if cmds.len() == 0 {
        Seq::empty()
    } else {
        let head = if cmds[0] is Register {
            seq![cmds[0]->reply]
        } else {
            Seq::empty()
        };
        head + asked(cmds.drop_first())
    }
}

/// Every decision keeps the identifiers dense and the table as wide as the
/// metric list is long.
pub proof fn lemma_after_keeps_wf(w: WriterModel, cmd: Command)
    requires
        w.wf(),
    ensures
        w.after(cmd).wf(),
{
}

/// Every report of the backend keeps the identifiers dense and the table as
/// wide as the metric list is long.
pub proof fn lemma_settled_keeps_wf(w: WriterModel, pending: Option<RegistrationModel>, ok: bool)
    requires
        w.wf(),
        w.settled(pending, ok).metrics.len() <= usize::MAX,
    ensures
        w.settled(pending, ok).wf(),
{
    let next = w.settled(pending, ok);
    assert forall|i: int| 0 <= i < next.metrics.len() implies (#[trigger] next.metrics[i]).id
        == i by {
        if i < w.metrics.len() {
            assert(w.metrics[i].id == i);
            assert(next.metrics[i] == w.metrics[i]);
        }
    }
}

/// A registration whose backend work fails is not made: the metric list and
/// the backend are as before the registration, and the writer has failed.
pub proof fn lemma_failed_registration_is_not_made(w: WriterModel, cmd: Command)
    requires
        w.phase is Running,
        cmd is Register,
    ensures
        w.after(cmd).settled(w.pending(cmd), false) == (WriterModel { phase: Phase::Failed, ..w }),
        w.after(cmd).settled(w.pending(cmd), false).metrics == w.metrics,
        w.after(cmd).settled(w.pending(cmd), false).backend == w.backend,
        w.after(cmd).answer(w.pending(cmd), false) is None,
{
}

/// A registration whose backend work succeeds is made under the next
/// identifier, the one it is answered with.
pub proof fn lemma_registration_is_made(w: WriterModel, cmd: Command)
    requires
        w.phase is Running,
        cmd is Register,
        w.metrics.len() < usize::MAX,
    ensures
        w.taken(cmd).metrics.len() == w.metrics.len() + 1,
        w.answered(cmd) == Some(Reply { to: cmd->reply, id: w.metrics.len() as MetricId }),
        w.answered(cmd)->0.id == w.taken(cmd).metrics.last().id,
        w.taken(cmd).metrics.last().name == cmd->name@,
        w.taken(cmd).metrics.last().kind == cmd->kind,
        w.taken(cmd).metrics.last().unit == cmd->unit@,
        w.taken(cmd).metrics.drop_last() == w.metrics,
{
    assert(w.taken(cmd).metrics.drop_last() =~= w.metrics);
}

/// Registrations are answered with consecutive identifiers, starting at the
/// number of metrics registered before: no gap and no repeat, each on the
/// channel of its own registration, in the order of the queue. Metrics
/// registered before keep their place, and without an exit or a failure every
/// registration is answered.
pub proof fn lemma_ids_dense(w: WriterModel, cmds: Seq<Command>)
    requires
        w.wf(),
        w.metrics.len() + cmds.len() <= usize::MAX,
    ensures
        w.run(cmds).wf(),
        w.run(cmds).metrics.len() == w.metrics.len() + w.replies(cmds).len(),
        w.replies(cmds).len() <= asked(cmds).len(),
        forall|k: int|
            0 <= k < w.replies(cmds).len() ==> (#[trigger] w.replies(cmds)[k]).id
                == w.metrics.len() + k,
        forall|k: int|
            0 <= k < w.replies(cmds).len() ==> (#[trigger] w.replies(cmds)[k]).to == asked(
                cmds,
            )[k],
        forall|k: int|
            0 <= k < w.metrics.len() ==> #[trigger] w.run(cmds).metrics[k] == w.metrics[k],
        w.phase is Running && (forall|i: int| 0 <= i < cmds.len() ==> !(#[trigger] cmds[i] is Exit))
            ==> w.replies(cmds).len() == asked(cmds).len() && w.run(cmds).phase is Running,
    decreases cmds.len(),
{
    if cmds.len() > 0 {
        let next = w.taken(cmds[0]);
        let rest = cmds.drop_first();
        lemma_after_keeps_wf(w, cmds[0]);
        lemma_settled_keeps_wf(w.after(cmds[0]), w.pending(cmds[0]), true);
        lemma_ids_dense(next, rest);
        let head = match w.answered(cmds[0]) {
            Some(reply) => seq![reply],
            None => Seq::empty(),
        };
        let first = if cmds[0] is Register {
            seq![cmds[0]->reply]
        } else {
            Seq::empty()
        };
        assert(w.replies(cmds) == head + next.replies(rest));
        assert(asked(cmds) == first + asked(rest));
        assert(head.len() <= first.len());
        assert forall|k: int| 0 <= k < w.replies(cmds).len() implies (#[trigger] w.replies(
            cmds,
        )[k]).id == w.metrics.len() + k && w.replies(cmds)[k].to == asked(cmds)[k] by {
            if k >= head.len() {
                assert(w.replies(cmds)[k] == next.replies(rest)[k - head.len()]);
                if head.len() == 0 && first.len() == 1 {
                    lemma_stopped_writer_is_inert(next, rest);
                } else {
                    assert(asked(cmds)[k] == asked(rest)[k - first.len()]);
                }
            }
        }
        assert forall|k: int| 0 <= k < w.metrics.len() implies #[trigger] w.run(cmds).metrics[k]
            == w.metrics[k] by {
            assert(next.run(rest).metrics[k] == next.metrics[k]);
        }
        if !(w.phase is Running) {
            lemma_stopped_writer_is_inert(next, rest);
        }
        if w.phase is Running && (forall|i: int|
            0 <= i < cmds.len() ==> !(#[trigger] cmds[i] is Exit)) {
            assert(!(cmds[0] is Exit));
            assert forall|i: int| 0 <= i < rest.len() implies !(#[trigger] rest[i] is Exit) by {
                assert(rest[i] == cmds[i + 1]);
            }
        }
    }
}

/// An update for an identifier that names no metric changes nothing and
/// writes nothing: no metric is touched by it.
pub proof fn lemma_stale_update_ignored(
    w: WriterModel,
    metric: MetricId,
    value: Value,
    effect: EffectModel,
)
    requires
        !w.knows(metric),
    ensures
        w.after(Command::Update { metric, value }) == w,
        w.emits(Command::Update { metric, value }, effect) <==> effect is Nothing,
{
}

/// The invalid identifier never names a metric.
pub proof fn lemma_invalid_id_unknown(w: WriterModel)
    requires
        w.wf(),
    ensures
        !w.knows(INVALID_ID),
{
}

/// An update leaves the metric list as it is, and in a table it touches the
/// field of its own metric only.
pub proof fn lemma_update_is_local(w: WriterModel, metric: MetricId, value: Value, other: int)
    requires
        w.wf(),
        w.knows(metric),
        0 <= other < w.metrics.len(),
        other != metric,
    ensures
        w.after(Command::Update { metric, value }).metrics == w.metrics,
        w.after(Command::Update { metric, value }).phase == w.phase,
        match (w.backend, w.after(Command::Update { metric, value }).backend) {
            (BackendModel::Tabular(before), BackendModel::Tabular(after)) => after.columns[other]
                == before.columns[other],
            (BackendModel::Waveform, BackendModel::Waveform) => true,
            _ => false,
        },
{
}

/// A writer that is handed an exit among its commands has stopped when they
/// are through, however many commands stand before or behind the exit.
pub proof fn lemma_exit_stops(w: WriterModel, cmds: Seq<Command>)
    requires
        exists|i: int| 0 <= i < cmds.len() && cmds[i] is Exit,
    ensures
        !(w.run(cmds).phase is Running),
    decreases cmds.len(),
{
    let i = choose|i: int| 0 <= i < cmds.len() && cmds[i] is Exit;
    let next = w.taken(cmds[0]);
    let rest = cmds.drop_first();
    if !(next.phase is Running) {
        lemma_stopped_writer_is_inert(next, rest);
    } else {
        assert(i > 0);
        assert(rest[i - 1] is Exit);
        lemma_exit_stops(next, rest);
    }
}

/// Every command that stands before the first exit of a queue meets a
/// running writer: it is decided on, in its turn, and none is passed over.
/// The writer stops at the exit and at no command before it.
pub proof fn lemma_commands_before_exit_are_taken(w: WriterModel, cmds: Seq<Command>, i: int)
    requires
        w.phase is Running,
        0 <= i < cmds.len(),
        forall|j: int| 0 <= j < i ==> !(#[trigger] cmds[j] is Exit),
    ensures
        w.run(cmds.take(i)).phase is Running,
        w.run(cmds.take(i)).stops(cmds[i]) == (cmds[i] is Exit),
    decreases i,
{
    if i > 0 {
        let rest = cmds.drop_first();
        assert(!(cmds[0] is Exit));
        assert forall|j: int| 0 <= j < i - 1 implies !(#[trigger] rest[j] is Exit) by {
            assert(rest[j] == cmds[j + 1]);
        }
        lemma_commands_before_exit_are_taken(w.taken(cmds[0]), rest, i - 1);
        assert(cmds.take(i).drop_first() =~= rest.take(i - 1));
        assert(cmds.take(i)[0] == cmds[0]);
    }
}

/// After an exit or a failure no command changes the writer or asks
/// anything of the backend.
pub proof fn lemma_stopped_writer_is_inert(w: WriterModel, cmds: Seq<Command>)
    requires
        !(w.phase is Running),
    ensures
        w.run(cmds) == w,
        w.replies(cmds).len() == 0,
    decreases cmds.len(),
{
    if cmds.len() > 0 {
        lemma_stopped_writer_is_inert(w, cmds.drop_first());
    }
}

/// A registration that waits for the backend: the metric to add, and the
/// channel on which its identifier is sent once it is added.
#[derive(Debug)]
pub struct Registration {
    pub name: String,
    pub kind: MetricKind,
    pub unit: String,
    pub reply: Sender<MetricId>,
}

impl View for Registration {
    type V = RegistrationModel;

    open spec fn view(&self) -> RegistrationModel {
        RegistrationModel {
            name: self.name@,
            kind: self.kind,
            unit: self.unit@,
            reply: self.reply,
        }
    }
}

/// A waiting registration, if there is one, as contracts see it.
pub open spec fn pending_view(pending: Option<Registration>) -> Option<RegistrationModel> {
    match pending {
        Some(r) => Some(r@),
        None => None,
    }
}

impl Reply {
    /// Sends the identifier to the call site that asked. A call site that
    /// has gone away is no failure.
    pub fn deliver(self) {
        send_reply(&self.to, self.id);
    }
}

/// What the writer made of the report of the backend.
#[derive(Debug)]
pub struct Settled {
    /// Whether the writer still takes commands.
    pub running: bool,
    /// The answer to send, where a registration was made.
    pub reply: Option<Reply>,
}

/// What the writer decided for one command.
#[derive(Debug)]
pub struct Step {
    /// What the backend has to do.
    pub effect: Effect,
    /// The registration to make once the backend has done it.
    pub pending: Option<Registration>,
    /// Whether this was the last command: the backend is then flushed and closed.
    pub stop: bool,
}

/// The writer: the metric list, the backend, and the phase.
pub struct Writer {
    backend: Backend,
    metrics: Vec<Metric>,
    phase: Phase,
}

impl View for Writer {
    type V = WriterModel;

    closed spec fn view(&self) -> WriterModel {
        WriterModel {
            backend: self.backend@,
            metrics: Seq::new(self.metrics@.len(), |i: int| self.metrics@[i]@),
            phase: self.phase,
        }
    }
}

impl Writer {
    /// A running writer for a table.
    pub fn tabular() -> (w: Self)
        ensures
            w@ == WriterModel::start(BackendModel::Tabular(TabularModel::empty())),
            w@.wf(),
    {
        let w = Writer {
            backend: Backend::Tabular(Tabular::new()),
            metrics: Vec::new(),
            phase: Phase::Running,
        };
        assert(w@.metrics =~= Seq::empty());
        w
    }

    /// A running writer for a waveform trace.
    pub fn waveform() -> (w: Self)
        ensures
            w@ == WriterModel::start(BackendModel::Waveform),
            w@.wf(),
    {
        let w = Writer { backend: Backend::Waveform, metrics: Vec::new(), phase: Phase::Running };
        assert(w@.metrics =~= Seq::empty());
        w
    }

    /// The phase of the writer.
    pub fn phase(&self) -> (phase: Phase)
        ensures
            phase == self@.phase,
    {
        self.phase
    }

    /// Whether the writer still takes commands.
    pub fn is_running(&self) -> (running: bool)
        ensures
            running == (self@.phase is Running),
    {
        match self.phase {
            Phase::Running => true,
            _ => false,
        }
    }

    /// The number of registered metrics.
    pub fn metric_count(&self) -> (n: usize)
        ensures
            n == self@.metrics.len(),
    {
        self.metrics.len()
    }

    /// The registered metric with this identifier, if there is one.
    pub fn metric(&self, id: MetricId) -> (found: Option<&Metric>)
        ensures
            found is Some == self@.knows(id),
            found is Some ==> found->0@ == self@.metrics[id as int],
    {
        if id < self.metrics.len() {
            Some(&self.metrics[id])
        } else {
            None
        }
    }

    /// Takes one command: changes the state of the writer and returns what
    /// the backend has to do for it, the registration that waits for the
    /// backend, and whether the writer has stopped. A registration is made
    /// only by `settle`, once the backend has done its part; an update for an
    /// identifier that names no metric is ignored; after an exit or a failure
    /// nothing is taken any more.
    pub fn step(&mut self, cmd: Command) -> (step: Step)
        ensures
            final(self)@ == old(self)@.after(cmd),
            old(self)@.emits(cmd, step.effect@),
            step.stop == old(self)@.stops(cmd),
            pending_view(step.pending) == old(self)@.pending(cmd),
            old(self)@.wf() ==> final(self)@.wf(),
    {
        proof {
            if old(self)@.wf() {
                lemma_after_keeps_wf(old(self)@, cmd);
            }
        }
        if !self.is_running() {
            return Step { effect: Effect::Nothing, pending: None, stop: true };
        }
        match cmd {
            Command::Register { name, kind, unit, reply } => {
                let effect = match &self.backend {
                    Backend::Tabular(_) => Effect::Nothing,
                    Backend::Waveform => Effect::Declare {
                        var_type: metric_type(kind),
                        width: metric_size(kind),
                        name: name.clone(),
                    },
                };
                Step { effect, pending: Some(Registration { name, kind, unit, reply }), stop: false }
            },
            Command::Timestamp(nanos) => {
                let effect = match &mut self.backend {
                    Backend::Tabular(t) => {
                        let records = t.set_time(nanos);
                        if records.len() == 0 {
                            Effect::Nothing
                        } else {
                            Effect::Records(records)
                        }
                    },
                    Backend::Waveform => Effect::TimeChange(nanos),
                };
                Step { effect, pending: None, stop: false }
            },
            Command::Update { metric, value } => {
                if metric >= self.metrics.len() {
                    return Step { effect: Effect::Nothing, pending: None, stop: false };
                }
                let kind = self.metrics[metric].kind;
                let effect = match &mut self.backend {
                    Backend::Tabular(t) => {
                        t.update(metric, value.to_text());
                        Effect::Nothing
                    },
                    Backend::Waveform => Effect::ValueChange {
                        var: metric,
                        payload: metric_value(kind, &value),
                    },
                };
                Step { effect, pending: None, stop: false }
            },
            Command::Exit => {
                let effect = match &mut self.backend {
                    Backend::Tabular(t) => {
                        let records = t.flush();
                        if records.len() == 0 {
                            Effect::Nothing
                        } else {
                            Effect::Records(records)
                        }
                    },
                    Backend::Waveform => Effect::Nothing,
                };
                self.phase = Phase::Stopped;
                Step { effect, pending: None, stop: true }
            },
        }
    }

    /// Takes the report of the backend on an effect. After a success the
    /// registration that waited, if there is one, is made: the metric joins
    /// the list under the next identifier, a table gets its column, and the
    /// answer with that identifier is handed out for delivery. A failure
    /// ends the writer; the registration is dropped unanswered and the metric
    /// list stays as it was.
    pub fn settle(&mut self, pending: Option<Registration>, ok: bool) -> (out: Settled)
        ensures
            final(self)@ == old(self)@.settled(pending_view(pending), ok),
            out.running == (final(self)@.phase is Running),
            out.reply == old(self)@.answer(pending_view(pending), ok),
            old(self)@.wf() ==> final(self)@.wf(),
    {
        if !self.is_running() {
            return Settled { running: false, reply: None };
        }
        if !ok {
            self.phase = Phase::Failed;
            proof {
                if old(self)@.wf() {
                    lemma_settled_keeps_wf(old(self)@, pending_view(pending), ok);
                }
            }
            return Settled { running: false, reply: None };
        }
        match pending {
            Some(registration) => {
                let Registration { name, kind, unit, reply } = registration;
                let id: MetricId = self.metrics.len();
                match &mut self.backend {
                    Backend::Tabular(t) => {
                        t.register(name.as_str());
                    },
                    Backend::Waveform => {},
                }
                self.metrics.push(Metric { name, kind, unit, id });
                let count: usize = self.metrics.len();
                proof {
                    assert(count == id + 1);
                    assert(self@.metrics =~= old(self)@.registered(registration@).metrics);
                    if old(self)@.wf() {
                        lemma_settled_keeps_wf(old(self)@, pending_view(pending), ok);
                    }
                }
                Settled { running: true, reply: Some(Reply { to: reply, id }) }
            },
            None => Settled { running: true, reply: None },
        }
    }
}

} // verus!
