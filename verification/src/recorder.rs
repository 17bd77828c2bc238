//! The recorder capability and the slot that holds the one installed recorder.

use vstd::prelude::*;
use crate::kind::{MetricId, MetricKind, Value};

verus! {

/// What a backend offers to instrumented code: it allocates a metric and
/// takes typed samples for it. No call may block past the registration round
/// trip, and none may fail towards the caller.
pub trait Recorder: Send + Sync {
    /// Whether `id` is an identifier that this recorder gives out for a
    /// metric of this name, kind and unit. Each recorder may say what its
    /// identifiers are; one that says nothing admits every identifier.
    open spec fn answers(
        &self,
        name: Seq<char>,
        kind: MetricKind,
        unit: Seq<char>,
        id: MetricId,
    ) -> bool {
        true
    }

    /// Registers a metric and returns its identifier.
    fn allocate(&self, name: &str, kind: MetricKind, unit: &str) -> (id: MetricId)
        ensures
            self.answers(name@, kind, unit@, id),
    ;

    /// Whether this recorder has taken the sample `value` for the metric
    /// `id`. Each recorder may say what that means; one that says nothing
    /// admits every sample.
    open spec fn took(&self, id: MetricId, value: Value) -> bool {
        true
    }

    /// Takes one widened sample for the metric `id`.
    fn record(&self, id: MetricId, value: Value)
        ensures
            self.took(id, value),
    ;

    /// Takes a signed 64-bit sample.
    fn record_i64(&self, id: MetricId, value: i64)
        ensures
            self.took(id, Value::Int64(value)),
    {
        self.record(id, Value::Int64(value));
    }

    /// Takes an unsigned 64-bit sample.
    fn record_u64(&self, id: MetricId, value: u64)
        ensures
            self.took(id, Value::Uint64(value)),
    {
        self.record(id, Value::Uint64(value));
    }

    /// Takes a signed 8-bit sample, sign-extended.
    fn record_i8(&self, id: MetricId, value: i8)
        ensures
            self.took(id, Value::Int64(value as i64)),
    {
        self.record(id, Value::from_i8(value));
    }

    /// Takes a signed 16-bit sample, sign-extended.
    fn record_i16(&self, id: MetricId, value: i16)
        ensures
            self.took(id, Value::Int64(value as i64)),
    {
        self.record(id, Value::from_i16(value));
    }

    /// Takes a signed 32-bit sample, sign-extended.
    fn record_i32(&self, id: MetricId, value: i32)
        ensures
            self.took(id, Value::Int64(value as i64)),
    {
        self.record(id, Value::from_i32(value));
    }

    /// Takes an unsigned 8-bit sample, zero-extended.
    fn record_u8(&self, id: MetricId, value: u8)
        ensures
            self.took(id, Value::Uint64(value as u64)),
    {
        self.record(id, Value::from_u8(value));
    }

    /// Takes an unsigned 16-bit sample, zero-extended.
    fn record_u16(&self, id: MetricId, value: u16)
        ensures
            self.took(id, Value::Uint64(value as u64)),
    {
        self.record(id, Value::from_u16(value));
    }

    /// Takes an unsigned 32-bit sample, zero-extended.
    fn record_u32(&self, id: MetricId, value: u32)
        ensures
            self.took(id, Value::Uint64(value as u64)),
    {
        self.record(id, Value::from_u32(value));
    }

    /// Takes a floating-point sample, given as the bit pattern of the double
    /// and its decimal text.
    fn record_f64(&self, id: MetricId, bits: u64, text: String)
        ensures
            self.took(id, Value::Float64 { bits, text }),
    {
        self.record(id, Value::Float64 { bits, text });
    }
}

/// The state of the recorder slot.
#[derive(Debug, Copy, Clone, Eq, PartialEq, Structural)]
pub enum CellState {
    /// No installation was attempted yet.
    Uninitialized,
    /// An installer has claimed the slot and not yet stored its recorder.
    Installing,
    /// A recorder is stored and visible to readers.
    Installed,
}

/// The slot as contracts see it.
pub struct CellModel<R> {
    pub state: CellState,
    pub recorder: Option<R>,
}

impl<R> CellModel<R> {
    /// A recorder is held exactly in the installed state.
    pub open spec fn wf(self) -> bool {
        (self.state is Installed) == (self.recorder is Some)
    }

    /// The slot before any installation.
    pub open spec fn empty() -> Self {
        CellModel { state: CellState::Uninitialized, recorder: None }
    }

    /// Whether an installation attempted now wins the slot.
    pub open spec fn accepts(self) -> bool {
        self.state is Uninitialized
    }

    /// The slot after an attempt to install `recorder`: the first attempt
    /// stores it, every later one changes nothing.
    pub open spec fn install(self, recorder: R) -> Self {
        if self.accepts() {
            CellModel { state: CellState::Installed, recorder: Some(recorder) }
        } else {
            self
        }
    }

    /// What a reader sees: the recorder once it is installed, nothing before.
    pub open spec fn read(self) -> Option<R> {
        if self.state is Installed {
            self.recorder
        } else {
            None
        }
    }
}

/// A slot that holds at most one recorder, installed exactly once.
pub struct RecorderCell<R> {
    state: CellState,
    recorder: Option<R>,
}

impl<R> View for RecorderCell<R> {
    type V = CellModel<R>;

    closed spec fn view(&self) -> CellModel<R> {
        CellModel { state: self.state, recorder: self.recorder }
    }
}

impl<R> RecorderCell<R> {
    #[verifier::type_invariant]
    spec fn inv(self) -> bool {
        (self.state is Installed) == (self.recorder is Some)
    }

    /// An empty slot.
    pub fn new() -> (cell: Self)
        ensures
            cell@ == CellModel::<R>::empty(),
    {
        RecorderCell { state: CellState::Uninitialized, recorder: None }
    }

    /// The state of the slot.
    pub fn state(&self) -> (s: CellState)
        ensures
            s == self@.state,
            self@.wf(),
    {
        proof {
            use_type_invariant(self);
        }
        self.state
    }

    /// Claims the slot for an installation: the one point of arbitration.
    /// Succeeds only on a slot that nobody has claimed before.
    pub fn begin_install(&mut self) -> (won: bool)
        ensures
            won == old(self)@.accepts(),
            won ==> final(self)@ == (CellModel::<R> {
                state: CellState::Installing,
                recorder: None,
            }),
            !won ==> final(self)@ == old(self)@,
    {
        proof {
            use_type_invariant(&*self);
        }
        match self.state {
            CellState::Uninitialized => {
                self.state = CellState::Installing;
                true
            },
            _ => false,
        }
    }

    /// Stores the recorder of the installer that holds the claim and makes it
    /// visible to readers.
    pub fn finish_install(&mut self, recorder: R)
        requires
            old(self)@.state is Installing,
        ensures
            final(self)@ == (CellModel::<R> {
                state: CellState::Installed,
                recorder: Some(recorder),
            }),
    {
        *self = RecorderCell { state: CellState::Installed, recorder: Some(recorder) };
    }

    /// Installs `recorder` if the slot was never claimed; otherwise drops it
    /// and leaves the slot as it is.
    pub fn set(&mut self, recorder: R) -> (installed: bool)
        ensures
            installed == old(self)@.accepts(),
            final(self)@ == old(self)@.install(recorder),
            final(self)@.wf(),
    {
        proof {
            use_type_invariant(&*self);
        }
        if self.begin_install() {
            self.finish_install(recorder);
            true
        } else {
            false
        }
    }

    /// The installed recorder, or nothing while none is installed.
    pub fn get(&self) -> (r: Option<&R>)
        ensures
            self@.wf(),
            match r {
                Some(found) => self@.read() == Some(*found),
                None => self@.read() is None,
            },
    {
        proof {
            use_type_invariant(self);
        }
        match self.state {
            CellState::Installed => self.recorder.as_ref(),
            _ => None,
        }
    }
}

/// Installs `recorder` into `cell` as the active recorder. The first call on a
/// slot wins; every later call returns `false` and changes nothing.
pub fn set_recorder<R: Recorder>(cell: &mut RecorderCell<R>, recorder: R) -> (installed: bool)
    ensures
        installed == old(cell)@.accepts(),
        final(cell)@ == old(cell)@.install(recorder),
        final(cell)@.wf(),
{
    cell.set(recorder)
}

/// Once a recorder is installed, another installation fails and the slot,
/// and with it what every reader sees, stays as it was.
pub proof fn lemma_second_install_keeps_first<R>(cell: CellModel<R>, first: R, second: R)
    requires
        cell.wf(),
    ensures
        cell.install(first).wf(),
        !cell.install(first).accepts(),
        cell.install(first).install(second) == cell.install(first),
        cell.accepts() ==> cell.install(first).install(second).read() == Some(first),
        !cell.accepts() ==> cell.install(first) == cell,
{
}

/// A claimed slot shows readers nothing until the recorder is stored.
pub proof fn lemma_readers_see_whole_recorder<R>(cell: CellModel<R>)
    requires
        cell.wf(),
    ensures
        cell.read() is Some <==> cell.state is Installed,
        cell.read() is Some ==> cell.read() == cell.recorder,
{
}

} // verus!
