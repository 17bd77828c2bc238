//! The command channel: the vocabulary that call sites and the writer share,
//! and the recorder that puts commands on the queue.

use vstd::prelude::*;
use crossbeam::channel::{Receiver, Sender};
use crate::kind::{MetricId, MetricKind, Value, INVALID_ID};
use crate::recorder::Recorder;

verus! {

/// The sending half of a `crossbeam` channel, carried through as an opaque value.
#[verifier::external_type_specification]
#[verifier::external_body]
#[verifier::reject_recursive_types(T)]
pub struct ExSender<T>(Sender<T>);

/// The receiving half of a `crossbeam` channel, carried through as an opaque value.
#[verifier::external_type_specification]
#[verifier::external_body]
#[verifier::reject_recursive_types(T)]
pub struct ExReceiver<T>(Receiver<T>);

/// `crossbeam::channel::bounded`: a fresh channel of the given capacity.
/// Nothing is claimed of the two halves.
pub assume_specification<T>[ crossbeam::channel::bounded::<T> ](cap: usize) -> (halves: (
    Sender<T>,
    Receiver<T>,
));

/// Calls `Sender::send` and tells whether the message was taken. Whether it is
/// depends on the receiving side being alive, so nothing is claimed of the
/// result. On a full bounded channel the call waits for room.
#[verifier::external_body]
fn channel_send<T>(tx: &Sender<T>, msg: T) -> (sent: bool) {
    tx.send(msg).is_ok()
}

/// Calls `Receiver::recv`: waits for the next message and returns it, or
/// returns nothing once the channel is empty and has no sender left. Which
/// message comes depends on the sending side, so nothing is claimed of it.
#[verifier::external_body]
fn channel_recv<T>(rx: &Receiver<T>) -> (msg: Option<T>) {
    rx.recv().ok()
}

/// A message from a call site to the writer. No other message exists.
#[derive(Debug)]
pub enum Command {
    /// Registers a metric; the writer answers with its identifier on `reply`.
    Register { name: String, kind: MetricKind, unit: String, reply: Sender<MetricId> },
    /// Moves the time cursor to a count of nanoseconds.
    Timestamp(u64),
    /// Gives the metric `metric` a new value.
    Update { metric: MetricId, value: Value },
    /// Ends the writer.
    Exit,
}

impl Command {
    /// The command that registers a metric and asks for the answer on `reply`.
    pub fn register(name: &str, kind: MetricKind, unit: &str, reply: Sender<MetricId>) -> (cmd:
        Command)
        ensures
            cmd matches Command::Register { name: n, kind: k, unit: u, reply: r } && n@ == name@
                && k == kind && u@ == unit@ && r == reply,
    {
        Command::Register { name: name.to_owned(), kind, unit: unit.to_owned(), reply }
    }

    /// The command that gives the metric `metric` the value `value`.
    pub fn update(metric: MetricId, value: Value) -> (cmd: Command)
        ensures
            cmd == (Command::Update { metric, value }),
    {
        Command::Update { metric, value }
    }
}

/// The identifier that a registration yields: the one the writer sent back,
/// or the invalid identifier where the writer is gone.
pub fn resolve_reply(reply: Option<MetricId>) -> (id: MetricId)
    ensures
        id == match reply {
            Some(answer) => answer,
            None => INVALID_ID,
        },
{
    match reply {
        Some(answer) => answer,
        None => INVALID_ID,
    }
}

/// Sends the identifier of a newly registered metric back to the call site
/// that asked. A caller that has gone away is no failure.
pub fn send_reply(reply: &Sender<MetricId>, id: MetricId) {
    let _ = channel_send(reply, id);
}

/// The recorder of the pipeline: it turns every call into a command on the
/// queue of the writer.
pub struct TelemetryRecorderImpl {
    commands: Sender<Command>,
}

impl TelemetryRecorderImpl {
    /// A recorder that feeds the queue behind `commands`.
    pub fn new(commands: Sender<Command>) -> (recorder: Self)
        ensures
            recorder.queue() == commands,
    {
        TelemetryRecorderImpl { commands }
    }

    /// Puts a command on the queue. A queue without a writer drops it.
    pub fn send(&self, command: Command) -> (sent: bool) {
        channel_send(&self.commands, command)
    }

    /// Moves the time cursor of the writer to `nanos` nanoseconds.
    pub fn timestamp(&self, nanos: u64) {
        let _ = self.send(Command::Timestamp(nanos));
    }

    /// Asks the writer to finish.
    pub fn exit(&self) {
        let _ = self.send(Command::Exit);
    }

    /// The sending half of the queue that the recorder feeds.
    pub closed spec fn queue(&self) -> Sender<Command> {
        self.commands
    }
}

impl Recorder for TelemetryRecorderImpl {
    /// The identifier is the one the writer sent back, or the invalid one:
    /// any identifier can come.
    open spec fn answers(
        &self,
        name: Seq<char>,
        kind: MetricKind,
        unit: Seq<char>,
        id: MetricId,
    ) -> bool {
        true
    }

    /// Sends a registration with a reply channel of capacity one and waits
    /// for the single answer.
    fn allocate(&self, name: &str, kind: MetricKind, unit: &str) -> (id: MetricId) {
        let (reply_tx, reply_rx) = crossbeam::channel::bounded::<MetricId>(1);
        let _ = self.send(Command::register(name, kind, unit, reply_tx));
        resolve_reply(channel_recv(&reply_rx))
    }

    /// The sample is put on the queue, which takes it or, without a writer,
    /// drops it: nothing is said of it.
    open spec fn took(&self, id: MetricId, value: Value) -> bool {
        true
    }

    /// Sends the sample as an update and does not wait.
    fn record(&self, id: MetricId, value: Value) {
        let _ = self.send(Command::update(id, value));
    }
}

} // verus!
