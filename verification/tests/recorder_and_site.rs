use std::sync::atomic::{AtomicUsize, Ordering};
use std::sync::Mutex;

use telemetry::kind::{MetricId, MetricKind, Value};
use telemetry::recorder::{set_recorder, CellState, Recorder, RecorderCell};
use telemetry::site::{CallSite, SiteAction};

struct Counting {
    tag: usize,
    next_id: MetricId,
    allocations: AtomicUsize,
    samples: Mutex<Vec<(MetricId, String)>>,
}

impl Counting {
    fn new(tag: usize, next_id: MetricId) -> Self {
        Counting { tag, next_id, allocations: AtomicUsize::new(0), samples: Mutex::new(Vec::new()) }
    }

    fn allocations(&self) -> usize {
        self.allocations.load(Ordering::SeqCst)
    }

    fn samples(&self) -> Vec<(MetricId, String)> {
        self.samples.lock().unwrap().clone()
    }
}

impl Recorder for Counting {
    fn allocate(&self, _name: &str, _kind: MetricKind, _unit: &str) -> MetricId {
        self.allocations.fetch_add(1, Ordering::SeqCst);
        self.next_id
    }

    fn record(&self, id: MetricId, value: Value) {
        let shown = match value {
            Value::Int64(v) => format!("i{}", v),
            Value::Uint64(v) => format!("u{}", v),
            Value::Float64 { bits, text } => format!("f{:x}:{}", bits, text),
        };
        self.samples.lock().unwrap().push((id, shown));
    }
}

#[test]
fn new_cell_is_uninitialized_and_empty() {
    let cell: RecorderCell<Counting> = RecorderCell::new();
    assert_eq!(cell.state(), CellState::Uninitialized);
    assert!(cell.get().is_none());
}

#[test]
fn first_install_wins() {
    let mut cell = RecorderCell::new();
    assert!(cell.set(Counting::new(1, 0)));
    assert_eq!(cell.state(), CellState::Installed);
    assert_eq!(cell.get().unwrap().tag, 1);
}

#[test]
fn second_install_fails_and_keeps_first() {
    let mut cell = RecorderCell::new();
    assert!(set_recorder(&mut cell, Counting::new(1, 0)));
    assert!(!set_recorder(&mut cell, Counting::new(2, 0)));
    assert!(!cell.set(Counting::new(3, 0)));
    assert_eq!(cell.state(), CellState::Installed);
    assert_eq!(cell.get().unwrap().tag, 1);
}

#[test]
fn claimed_slot_shows_nothing_until_stored() {
    let mut cell: RecorderCell<Counting> = RecorderCell::new();
    assert!(cell.begin_install());
    assert_eq!(cell.state(), CellState::Installing);
    assert!(cell.get().is_none());
    assert!(!cell.begin_install());
    assert!(!cell.set(Counting::new(9, 0)));
    assert!(cell.get().is_none());
    cell.finish_install(Counting::new(4, 0));
    assert_eq!(cell.state(), CellState::Installed);
    assert_eq!(cell.get().unwrap().tag, 4);
    assert!(!cell.begin_install());
}

#[test]
fn site_without_recorder_is_a_no_op() {
    let mut site = CallSite::new("speed", "m/s", MetricKind::Int32);
    for _ in 0..10 {
        assert_eq!(site.emit::<Counting>(None, Value::Int64(1)), SiteAction::Skip);
    }
    assert_eq!(site.id(), None);
    assert_eq!(site.plan(false), SiteAction::Skip);
    assert_eq!(site.plan(true), SiteAction::Register);
}

#[test]
fn site_registers_exactly_once_in_a_loop() {
    let recorder = Counting::new(0, 3);
    let mut site = CallSite::new("speed", "m/s", MetricKind::Int32);
    let mut registers = 0;
    for i in 0..1000 {
        match site.emit(Some(&recorder), Value::from_i32(i)) {
            SiteAction::Register => registers += 1,
            SiteAction::Forward(id) => assert_eq!(id, 3),
            SiteAction::Skip => panic!("a recorder is installed"),
        }
    }
    assert_eq!(registers, 1);
    assert_eq!(recorder.allocations(), 1);
    let samples = recorder.samples();
    assert_eq!(samples.len(), 1000);
    assert_eq!(samples[0], (3, "i0".to_string()));
    assert_eq!(samples[999], (3, "i999".to_string()));
    assert_eq!(site.id(), Some(3));
}

#[test]
fn site_skips_until_a_recorder_appears() {
    let recorder = Counting::new(0, 5);
    let mut site = CallSite::new("load", "%", MetricKind::Uint8);
    assert_eq!(site.emit::<Counting>(None, Value::from_u8(1)), SiteAction::Skip);
    assert_eq!(site.emit(Some(&recorder), Value::from_u8(2)), SiteAction::Register);
    assert_eq!(site.emit::<Counting>(None, Value::from_u8(3)), SiteAction::Skip);
    assert_eq!(site.emit(Some(&recorder), Value::from_u8(4)), SiteAction::Forward(5));
    assert_eq!(recorder.allocations(), 1);
    assert_eq!(recorder.samples(), vec![(5, "u2".to_string()), (5, "u4".to_string())]);
}

#[test]
fn site_keeps_first_identifier() {
    let mut site = CallSite::new("a", "V", MetricKind::Int32);
    site.resolve(4);
    site.resolve(9);
    assert_eq!(site.id(), Some(4));
    assert_eq!(site.plan(true), SiteAction::Forward(4));
    let recorder = Counting::new(0, 77);
    assert_eq!(site.id_for(&recorder), 4);
    assert_eq!(recorder.allocations(), 0);
}

#[test]
fn site_remembers_what_it_was_made_with() {
    let site = CallSite::new("temp", "K", MetricKind::Float32);
    assert_eq!(site.name(), "temp");
    assert_eq!(site.unit(), "K");
    assert_eq!(site.kind(), MetricKind::Float32);
}

#[test]
fn typed_record_calls_widen() {
    let r = Counting::new(0, 0);
    r.record_i8(1, -1);
    r.record_i16(1, -2);
    r.record_i32(1, -3);
    r.record_i64(1, i64::MIN);
    r.record_u8(2, 255);
    r.record_u16(2, 65535);
    r.record_u32(2, u32::MAX);
    r.record_u64(2, u64::MAX);
    r.record_f64(3, 2.0f64.to_bits(), "2".to_string());
    let shown: Vec<String> = r.samples().into_iter().map(|(_, s)| s).collect();
    assert_eq!(
        shown,
        vec![
            "i-1",
            "i-2",
            "i-3",
            "i-9223372036854775808",
            "u255",
            "u65535",
            "u4294967295",
            "u18446744073709551615",
            "f4000000000000000:2",
        ]
    );
}

#[test]
fn resolved_site_forwards_without_change() {
    let recorder = Counting::new(0, 6);
    let mut site = CallSite::new("rpm", "1/min", MetricKind::Uint16);
    assert_eq!(site.forward(Some(&recorder), Value::from_u16(1)), SiteAction::Skip);
    assert_eq!(site.forward::<Counting>(None, Value::from_u16(1)), SiteAction::Skip);
    assert!(recorder.samples().is_empty());
    assert_eq!(site.id_for(&recorder), 6);
    assert_eq!(site.forward(Some(&recorder), Value::from_u16(2)), SiteAction::Forward(6));
    assert_eq!(site.forward::<Counting>(None, Value::from_u16(3)), SiteAction::Skip);
    assert_eq!(site.forward(Some(&recorder), Value::from_u16(4)), SiteAction::Forward(6));
    assert_eq!(recorder.allocations(), 1);
    assert_eq!(recorder.samples(), vec![(6, "u2".to_string()), (6, "u4".to_string())]);
    assert_eq!(site.id(), Some(6));
}
