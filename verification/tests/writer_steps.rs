use crossbeam::channel::{bounded, unbounded, Receiver};

use telemetry::channel::{resolve_reply, send_reply, Command, TelemetryRecorderImpl};
use telemetry::kind::{MetricId, MetricKind, Value, INVALID_ID};
use telemetry::recorder::Recorder;
use telemetry::site::{CallSite, SiteAction};
use telemetry::tabular::{record_line, Tabular};
use telemetry::waveform::VarType;
use telemetry::writer::{Effect, Phase, Registration, Writer};

fn float(v: f64) -> Value {
    Value::Float64 { bits: v.to_bits(), text: v.to_string() }
}

fn register(name: &str, kind: MetricKind, unit: &str) -> (Command, Receiver<MetricId>) {
    let (tx, rx) = bounded(1);
    (Command::Register { name: name.to_string(), kind, unit: unit.to_string(), reply: tx }, rx)
}

/// Reports a success to the writer, sends the answer that it hands out, and
/// returns whether the writer still runs.
fn settle_ok(writer: &mut Writer, pending: Option<Registration>) -> bool {
    let out = writer.settle(pending, true);
    if let Some(reply) = out.reply {
        reply.deliver();
    }
    out.running
}

/// Runs the commands through the writer with a backend that always succeeds,
/// and returns the lines of the table and the effects that are no records.
fn drive(writer: &mut Writer, commands: Vec<Command>) -> (Vec<String>, Vec<Effect>) {
    let mut lines = Vec::new();
    let mut others = Vec::new();
    for command in commands {
        let step = writer.step(command);
        match step.effect {
            Effect::Nothing => {}
            Effect::Records(records) => {
                for record in records.iter() {
                    lines.push(record_line(record));
                }
            }
            other => others.push(other),
        }
        settle_ok(writer, step.pending);
        if step.stop {
            break;
        }
    }
    (lines, others)
}

#[test]
fn identifiers_are_dense_in_registration_order() {
    for mut writer in [Writer::tabular(), Writer::waveform()] {
        let mut answers = Vec::new();
        for i in 0..50usize {
            let (command, rx) = register(&format!("m{}", i), MetricKind::Uint32, "u");
            let step = writer.step(command);
            assert!(!step.stop);
            assert_eq!(writer.metric_count(), i);
            let pending = step.pending.unwrap();
            assert_eq!(pending.name, format!("m{}", i));
            assert_eq!(pending.kind, MetricKind::Uint32);
            assert_eq!(pending.unit, "u");
            assert!(settle_ok(&mut writer, Some(pending)));
            answers.push(rx.recv().unwrap());
            assert_eq!(writer.metric_count(), i + 1);
        }
        assert_eq!(answers, (0..50usize).collect::<Vec<_>>());
        for i in 0..50usize {
            let metric = writer.metric(i).unwrap();
            assert_eq!(metric.id, i);
            assert_eq!(metric.name, format!("m{}", i));
            assert_eq!(metric.kind, MetricKind::Uint32);
            assert_eq!(metric.unit, "u");
        }
        assert!(writer.metric(50).is_none());
    }
}

#[test]
fn identifiers_stay_dense_between_other_commands() {
    let mut writer = Writer::waveform();
    let (first, rx1) = register("a", MetricKind::Int8, "");
    let (second, rx2) = register("b", MetricKind::Int8, "");
    let step = writer.step(first);
    assert!(settle_ok(&mut writer, step.pending));
    assert_eq!(rx1.recv(), Ok(0));
    for command in [
        Command::Timestamp(5),
        Command::Update { metric: 0, value: Value::Int64(1) },
        Command::Update { metric: 9, value: Value::Int64(1) },
    ] {
        let step = writer.step(command);
        assert!(step.pending.is_none());
        assert!(settle_ok(&mut writer, step.pending));
    }
    let step = writer.step(second);
    assert!(settle_ok(&mut writer, step.pending));
    assert_eq!(rx2.recv(), Ok(1));
    assert_eq!(writer.metric_count(), 2);
}

#[test]
fn reply_to_a_caller_that_left_is_no_failure() {
    let mut writer = Writer::tabular();
    let (command, rx) = register("a", MetricKind::Int32, "V");
    drop(rx);
    let step = writer.step(command);
    assert!(settle_ok(&mut writer, step.pending));
    assert_eq!(writer.metric_count(), 1);
    assert_eq!(writer.phase(), Phase::Running);
}

#[test]
fn table_without_updates_has_no_rows() {
    let mut writer = Writer::tabular();
    let (a, _rx) = register("a", MetricKind::Int32, "V");
    let (lines, others) = drive(
        &mut writer,
        vec![Command::Timestamp(0), a, Command::Timestamp(1_000_000_000), Command::Timestamp(2_000_000_000), Command::Exit],
    );
    assert!(lines.is_empty());
    assert!(others.is_empty());
    assert_eq!(writer.phase(), Phase::Stopped);
}

#[test]
fn table_carries_last_values_forward() {
    let mut writer = Writer::tabular();
    let (a, _rxa) = register("a", MetricKind::Int32, "V");
    let (b, _rxb) = register("b", MetricKind::Float64, "s");
    let (lines, others) = drive(
        &mut writer,
        vec![
            a,
            b,
            Command::Timestamp(1_000_000_000),
            Command::Update { metric: 0, value: Value::from_i32(5) },
            Command::Timestamp(2_000_000_000),
            Command::Update { metric: 1, value: float(3.5) },
            Command::Exit,
        ],
    );
    assert!(others.is_empty());
    assert_eq!(lines.join("\n"), "time,a,b\n1,5,\n2,5,3.5");
}

#[test]
fn table_keeps_last_write_of_a_time_step() {
    let mut writer = Writer::tabular();
    let (a, _rxa) = register("a", MetricKind::Uint8, "");
    let (lines, _) = drive(
        &mut writer,
        vec![
            a,
            Command::Update { metric: 0, value: Value::from_u8(1) },
            Command::Update { metric: 0, value: Value::from_u8(2) },
            Command::Timestamp(500_000_000),
            Command::Timestamp(1_500_000_000),
            Command::Exit,
        ],
    );
    assert_eq!(lines, vec!["time,a", "0,2", "0.5,2", "1.5,2"]);
}

#[test]
fn tabular_backend_alone() {
    let mut t = Tabular::new();
    assert_eq!(t.len(), 0);
    assert!(!t.has_data());
    assert!(!t.header_written());
    assert_eq!(t.time(), 0);
    t.register("a");
    t.register("b");
    assert_eq!(t.len(), 2);
    assert!(t.set_time(1_000_000_000).is_empty());
    assert_eq!(t.time(), 1_000_000_000);
    t.update(7, "lost".to_string());
    assert!(!t.has_data());
    assert!(t.flush().is_empty());
    t.update(1, "x".to_string());
    assert!(t.has_data());
    assert_eq!(t.header(), vec!["time", "a", "b"]);
    assert_eq!(t.row(), vec!["1", "", "x"]);
    let first = t.flush();
    assert_eq!(first, vec![vec!["time", "a", "b"], vec!["1", "", "x"]]);
    assert!(t.header_written());
    assert!(t.has_data());
    let second = t.set_time(3_000_000_000);
    assert_eq!(second, vec![vec!["1", "", "x"]]);
    assert_eq!(t.flush(), vec![vec!["3", "", "x"]]);
}

#[test]
fn waveform_trace_of_one_float() {
    let mut writer = Writer::waveform();
    let (x, rx) = register("x", MetricKind::Float64, "s");
    let nanos = (0.000000001f64 * 1_000_000_000.0) as u64;
    let (lines, effects) = drive(
        &mut writer,
        vec![x, Command::Timestamp(nanos), Command::Update { metric: 0, value: float(2.0) }, Command::Exit],
    );
    assert!(lines.is_empty());
    assert_eq!(rx.recv(), Ok(0));
    assert_eq!(effects.len(), 3);
    assert!(matches!(
        &effects[0],
        Effect::Declare { var_type: VarType::Real, width: 8, name } if name == "x"
    ));
    assert!(matches!(effects[1], Effect::TimeChange(1)));
    assert!(matches!(
        &effects[2],
        Effect::ValueChange { var: 0, payload } if *payload == 2.0f64.to_ne_bytes().to_vec()
    ));
    assert_eq!(writer.phase(), Phase::Stopped);
}

#[test]
fn waveform_declares_by_kind() {
    let mut writer = Writer::waveform();
    let (a, _r1) = register("a", MetricKind::Int8, "");
    let (b, _r2) = register("b", MetricKind::Uint16, "");
    let (_, effects) = drive(&mut writer, vec![a, b]);
    assert!(matches!(&effects[0], Effect::Declare { var_type: VarType::Byte, width: 1, name } if name == "a"));
    assert!(matches!(&effects[1], Effect::Declare { var_type: VarType::ShortInt, width: 8, name } if name == "b"));
}

#[test]
fn stale_update_changes_nothing() {
    let mut table = Writer::tabular();
    let (a, _rxa) = register("a", MetricKind::Int32, "V");
    let (lines, _) = drive(
        &mut table,
        vec![
            a,
            Command::Update { metric: 0, value: Value::from_i32(5) },
            Command::Update { metric: 1, value: Value::from_i32(6) },
            Command::Update { metric: INVALID_ID, value: Value::from_i32(7) },
            Command::Exit,
        ],
    );
    assert_eq!(lines, vec!["time,a", "0,5"]);

    let mut fresh = Writer::tabular();
    let (lines, _) = drive(
        &mut fresh,
        vec![Command::Update { metric: 0, value: Value::from_i32(6) }, Command::Timestamp(1), Command::Exit],
    );
    assert!(lines.is_empty());

    let mut trace = Writer::waveform();
    let step = trace.step(Command::Update { metric: INVALID_ID, value: float(1.0) });
    assert!(matches!(step.effect, Effect::Nothing));
    assert!(!step.stop);
    assert_eq!(trace.metric_count(), 0);
    assert!(trace.is_running());
}

#[test]
fn nothing_is_taken_after_exit() {
    let mut writer = Writer::waveform();
    let step = writer.step(Command::Exit);
    assert!(step.stop);
    assert!(matches!(step.effect, Effect::Nothing));
    assert!(!writer.is_running());
    let (a, rx) = register("a", MetricKind::Int32, "V");
    let late = writer.step(a);
    assert!(late.stop);
    assert!(late.pending.is_none());
    assert!(matches!(late.effect, Effect::Nothing));
    assert_eq!(writer.metric_count(), 0);
    assert_eq!(resolve_reply(rx.recv().ok()), INVALID_ID);
}

#[test]
fn backend_failure_ends_the_writer() {
    let mut writer = Writer::waveform();
    let (a, rx) = register("a", MetricKind::Int32, "V");
    let step = writer.step(a);
    assert!(!writer.settle(step.pending, false).running);
    assert_eq!(writer.phase(), Phase::Failed);
    assert!(rx.recv().is_err());
    let next = writer.step(Command::Timestamp(1));
    assert!(next.stop);
    assert!(matches!(next.effect, Effect::Nothing));
    assert!(!settle_ok(&mut writer, None));
    assert_eq!(writer.phase(), Phase::Failed);
}

#[test]
fn failed_registration_is_not_made() {
    for mut writer in [Writer::tabular(), Writer::waveform()] {
        let (a, rxa) = register("a", MetricKind::Int32, "V");
        let step = writer.step(a);
        assert!(settle_ok(&mut writer, step.pending));
        assert_eq!(rxa.recv(), Ok(0));
        assert_eq!(writer.metric_count(), 1);

        let (b, rxb) = register("b", MetricKind::Float64, "s");
        let step = writer.step(b);
        assert!(step.pending.is_some());
        assert_eq!(writer.metric_count(), 1);
        assert!(!writer.settle(step.pending, false).running);
        assert_eq!(writer.phase(), Phase::Failed);
        assert_eq!(writer.metric_count(), 1);
        assert!(writer.metric(1).is_none());
        assert_eq!(writer.metric(0).unwrap().name, "a");
        assert_eq!(resolve_reply(rxb.recv().ok()), INVALID_ID);

        let late = writer.step(Command::Update { metric: 1, value: Value::Int64(1) });
        assert!(late.stop);
        assert!(matches!(late.effect, Effect::Nothing));
    }
}

#[test]
fn failed_registration_adds_no_column() {
    let mut writer = Writer::tabular();
    let (a, _rxa) = register("a", MetricKind::Int32, "V");
    let (b, _rxb) = register("b", MetricKind::Int32, "V");
    let (mut lines, _) = drive(&mut writer, vec![a, Command::update(0, Value::Int64(5))]);
    let step = writer.step(b);
    assert!(!writer.settle(step.pending, false).running);
    let (more, _) = drive(&mut writer, vec![Command::Timestamp(1), Command::Exit]);
    lines.extend(more);
    assert!(lines.is_empty());
    assert_eq!(writer.metric_count(), 1);
}

#[test]
fn registration_is_made_only_when_settled() {
    let mut writer = Writer::waveform();
    let (a, rxa) = register("a", MetricKind::Int8, "");
    let step = writer.step(a);
    assert_eq!(writer.metric_count(), 0);
    assert!(writer.metric(0).is_none());
    assert!(rxa.try_recv().is_err());
    let ignored = writer.step(Command::update(0, Value::Int64(1)));
    assert!(matches!(ignored.effect, Effect::Nothing));
    assert!(settle_ok(&mut writer, step.pending));
    assert_eq!(writer.metric_count(), 1);
    assert_eq!(rxa.recv(), Ok(0));
    assert!(settle_ok(&mut writer, None));
    assert_eq!(writer.metric_count(), 1);
}

#[test]
fn failure_report_after_exit_keeps_stopped() {
    let mut writer = Writer::tabular();
    let step = writer.step(Command::Exit);
    assert!(!writer.settle(step.pending, false).running);
    assert_eq!(writer.phase(), Phase::Stopped);
}

#[test]
fn reply_resolution_falls_back_to_invalid() {
    assert_eq!(resolve_reply(Some(0)), 0);
    assert_eq!(resolve_reply(Some(41)), 41);
    assert_eq!(resolve_reply(None), usize::MAX);
}

#[test]
fn send_reply_delivers_the_identifier() {
    let (tx, rx) = bounded(1);
    send_reply(&tx, 12);
    assert_eq!(rx.recv(), Ok(12));
    drop(rx);
    send_reply(&tx, 13);
}

#[test]
fn recorder_puts_commands_on_the_queue_in_order() {
    let (tx, rx) = unbounded();
    let recorder = TelemetryRecorderImpl::new(tx);
    recorder.record_i8(3, -4);
    recorder.record_u16(4, 9);
    recorder.record_f64(5, 2.0f64.to_bits(), "2".to_string());
    recorder.timestamp(77);
    recorder.exit();
    assert!(matches!(rx.recv().unwrap(), Command::Update { metric: 3, value: Value::Int64(-4) }));
    assert!(matches!(rx.recv().unwrap(), Command::Update { metric: 4, value: Value::Uint64(9) }));
    assert!(matches!(
        rx.recv().unwrap(),
        Command::Update { metric: 5, value: Value::Float64 { bits: 0x4000_0000_0000_0000, ref text } } if text == "2"
    ));
    assert!(matches!(rx.recv().unwrap(), Command::Timestamp(77)));
    assert!(matches!(rx.recv().unwrap(), Command::Exit));
    assert!(rx.try_recv().is_err());
}

#[test]
fn recorder_without_writer_yields_invalid_identifier() {
    let (tx, rx) = unbounded();
    drop(rx);
    let recorder = TelemetryRecorderImpl::new(tx);
    assert_eq!(recorder.allocate("a", MetricKind::Int32, "V"), INVALID_ID);
    assert!(!recorder.send(Command::Timestamp(1)));
    recorder.record_i64(INVALID_ID, 1);
    recorder.exit();
}

#[test]
fn pipeline_end_to_end_with_a_writer_thread() {
    let (tx, rx) = unbounded::<Command>();
    let recorder = TelemetryRecorderImpl::new(tx);
    let lines = crossbeam::scope(|scope| {
        let worker = scope.spawn(move |_| {
            let mut writer = Writer::tabular();
            let mut lines = Vec::new();
            while let Ok(command) = rx.recv() {
                let step = writer.step(command);
                if let Effect::Records(records) = &step.effect {
                    for record in records {
                        lines.push(record_line(record));
                    }
                }
                settle_ok(&mut writer, step.pending);
                if step.stop {
                    break;
                }
            }
            lines
        });
        let mut a = CallSite::new("a", "V", MetricKind::Int32);
        let mut b = CallSite::new("b", "s", MetricKind::Float64);
        recorder.timestamp(1_000_000_000);
        assert_eq!(a.emit(Some(&recorder), Value::from_i32(5)), SiteAction::Register);
        assert_eq!(a.id(), Some(0));
        recorder.timestamp(2_000_000_000);
        assert_eq!(b.emit(Some(&recorder), float(3.5)), SiteAction::Register);
        assert_eq!(b.id(), Some(1));
        for i in 0..5000 {
            assert_eq!(a.emit(Some(&recorder), Value::from_i32(i)), SiteAction::Forward(0));
        }
        recorder.exit();
        worker.join().unwrap()
    })
    .unwrap();
    // `b` is registered after the first row went out, so the header names `a` alone.
    assert_eq!(lines, vec!["time,a", "1,5", "2,4999,3.5"]);
    assert_eq!(recorder.allocate("late", MetricKind::Int8, ""), INVALID_ID);
}

#[test]
fn command_constructors_carry_their_arguments() {
    let (tx, rx) = bounded(1);
    match Command::register("volt", MetricKind::Int16, "V", tx) {
        Command::Register { name, kind, unit, reply } => {
            assert_eq!(name, "volt");
            assert_eq!(kind, MetricKind::Int16);
            assert_eq!(unit, "V");
            send_reply(&reply, 8);
            assert_eq!(rx.recv(), Ok(8));
        }
        other => panic!("not a registration: {:?}", other),
    }
    assert!(matches!(
        Command::update(4, Value::Uint64(6)),
        Command::Update { metric: 4, value: Value::Uint64(6) }
    ));
}

#[test]
fn exit_among_queued_commands_stops_the_writer() {
    let mut writer = Writer::tabular();
    let (a, _rx) = register("a", MetricKind::Int64, "");
    let mut commands = vec![a];
    for i in 0..3000 {
        commands.push(Command::update(0, Value::Int64(i)));
    }
    commands.push(Command::Exit);
    commands.push(Command::update(0, Value::Int64(-1)));
    let (lines, _) = drive(&mut writer, commands);
    assert_eq!(lines, vec!["time,a", "0,2999"]);
    assert_eq!(writer.phase(), Phase::Stopped);
    let late = writer.step(Command::update(0, Value::Int64(-1)));
    assert!(late.stop);
    assert!(matches!(late.effect, Effect::Nothing));
}

#[test]
fn answers_carry_consecutive_identifiers_on_their_own_channels() {
    let mut writer = Writer::waveform();
    let mut receivers = Vec::new();
    for (i, (name, kind)) in [("a", MetricKind::Float64), ("b", MetricKind::Int32), ("c", MetricKind::Uint8)]
        .into_iter()
        .enumerate()
    {
        let (command, rx) = register(name, kind, "");
        let step = writer.step(command);
        assert!(matches!(&step.effect, Effect::Declare { name: declared, .. } if declared == name));
        let out = writer.settle(step.pending, true);
        assert!(out.running);
        let reply = out.reply.unwrap();
        assert_eq!(reply.id, i);
        reply.deliver();
        receivers.push(rx);
    }
    for (i, rx) in receivers.iter().enumerate() {
        assert_eq!(rx.recv(), Ok(i));
        assert!(rx.try_recv().is_err());
    }
    assert_eq!(writer.metric_count(), 3);
}

#[test]
fn only_a_made_registration_is_answered() {
    let mut writer = Writer::tabular();
    for command in [Command::Timestamp(1), Command::update(0, Value::Int64(1))] {
        let step = writer.step(command);
        assert!(step.pending.is_none());
        let out = writer.settle(step.pending, true);
        assert!(out.running);
        assert!(out.reply.is_none());
    }
    let (a, _rxa) = register("a", MetricKind::Int32, "V");
    let step = writer.step(a);
    let out = writer.settle(step.pending, false);
    assert!(!out.running);
    assert!(out.reply.is_none());

    let mut stopped = Writer::waveform();
    let first = stopped.step(Command::Exit);
    assert!(first.stop);
    assert!(stopped.settle(first.pending, true).reply.is_none());
    let (b, rxb) = register("b", MetricKind::Int32, "V");
    let late = stopped.step(b);
    assert!(late.pending.is_none());
    let out = stopped.settle(late.pending, true);
    assert!(out.reply.is_none());
    assert!(rxb.recv().is_err());
}

#[test]
fn answer_that_nobody_takes_does_not_disturb_the_next() {
    let mut writer = Writer::waveform();
    let (a, rxa) = register("a", MetricKind::Int32, "V");
    drop(rxa);
    let step = writer.step(a);
    let out = writer.settle(step.pending, true);
    assert!(out.running);
    assert_eq!(out.reply.as_ref().unwrap().id, 0);
    out.reply.unwrap().deliver();
    assert_eq!(writer.metric_count(), 1);
    let (b, rxb) = register("b", MetricKind::Int32, "V");
    let step = writer.step(b);
    let out = writer.settle(step.pending, true);
    assert_eq!(out.reply.as_ref().unwrap().id, 1);
    out.reply.unwrap().deliver();
    assert_eq!(rxb.recv(), Ok(1));
    assert_eq!(writer.metric_count(), 2);
}

#[test]
fn every_queued_update_before_the_exit_is_written() {
    let mut writer = Writer::waveform();
    let (a, _rxa) = register("a", MetricKind::Int64, "");
    let mut commands = vec![a];
    for i in 0..10000 {
        commands.push(Command::update(0, Value::Int64(i)));
    }
    commands.push(Command::Exit);
    commands.push(Command::update(0, Value::Int64(-1)));
    let (_, effects) = drive(&mut writer, commands);
    assert_eq!(effects.len(), 10001);
    assert!(matches!(effects[0], Effect::Declare { .. }));
    for (i, effect) in effects[1..].iter().enumerate() {
        assert!(matches!(
            effect,
            Effect::ValueChange { var: 0, payload } if *payload == (i as i64).to_ne_bytes().to_vec()
        ));
    }
    assert_eq!(writer.phase(), Phase::Stopped);
}
