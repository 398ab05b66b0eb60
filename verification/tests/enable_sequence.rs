use kernel_bringup::enable::{
    action_of, attributes_word, control_word, granule_supported, table_base, top_level, Action,
    Enabler, Event, MmuError, Step,
};
use kernel_bringup::granule::Granule;
use kernel_bringup::layout::Layout;
use kernel_bringup::table::TranslationTable;
use kernel_bringup::units::{GIB, KIB};

const BASE: u64 = 0x8_0000;

/// Feature register values: both granules supported, and each one not.
const ALL_SUPPORTED: u64 = 0x0000_0000_0000_1122;
const NO_4K: u64 = 0x0000_0000_F000_1122;
const NO_64K: u64 = 0x0000_0000_0F00_1122;

/// Stands in for the system registers and records what is done to them.
struct Sink {
    features: u64,
    attributes: Option<u64>,
    table_base: Option<u64>,
    control: Option<u64>,
    barriers: usize,
    enable_writes: usize,
    log: Vec<Action>,
}

impl Sink {
    fn new(features: u64) -> Sink {
        Sink {
            features,
            attributes: None,
            table_base: None,
            control: None,
            barriers: 0,
            enable_writes: 0,
            log: Vec::new(),
        }
    }
}

fn run(layout: Layout, table: &mut TranslationTable, sink: &mut Sink) -> Result<(), MmuError> {
    let (mut enabler, mut action) = Enabler::start(layout);
    loop {
        sink.log.push(action);
        let event = match action {
            Action::ReadFeatures => Event::Features(sink.features),
            Action::Populate => {
                table.populate();
                Event::Done
            }
            Action::WriteAttributes(value) => {
                sink.attributes = Some(value);
                Event::Done
            }
            Action::WriteTableBase(addr) => {
                sink.table_base = Some(addr);
                Event::Done
            }
            Action::WriteControl(value) => {
                sink.control = Some(value);
                Event::Done
            }
            Action::Barrier => {
                sink.barriers += 1;
                Event::Done
            }
            Action::SetEnableBit => {
                sink.enable_writes += 1;
                Event::Done
            }
            Action::Finish => return Ok(()),
            Action::Fail(error) => return Err(error),
            Action::Nothing => unreachable!(),
        };
        action = enabler.advance(event);
    }
}

#[test]
fn unsupported_granule_fails_without_touching_the_enable_bit() {
    let layout = Layout::plan(Granule::Kib4, GIB - 4 * KIB, BASE).unwrap();
    let mut table = TranslationTable::new(layout);
    let mut sink = Sink::new(NO_4K);
    assert_eq!(run(layout, &mut table, &mut sink), Err(MmuError::CapabilityUnsupported));
    assert_eq!(sink.enable_writes, 0);
    assert_eq!(sink.barriers, 0);
    assert_eq!(sink.attributes, None);
    assert_eq!(sink.table_base, None);
    assert_eq!(sink.control, None);
    assert_eq!(sink.log, vec![Action::ReadFeatures, Action::Fail(MmuError::CapabilityUnsupported)]);
    assert!(table.words(0).iter().all(|w| *w == 0));
    assert_eq!(MmuError::CapabilityUnsupported.describe(), "Translation granule not supported in HW");
}

#[test]
fn supported_granule_runs_the_whole_sequence_in_order() {
    let layout = Layout::plan(Granule::Kib4, 4 * GIB - 1, BASE).unwrap();
    let mut table = TranslationTable::new(layout);
    let mut sink = Sink::new(ALL_SUPPORTED);
    assert_eq!(run(layout, &mut table, &mut sink), Ok(()));
    assert_eq!(
        sink.log,
        vec![
            Action::ReadFeatures,
            Action::Populate,
            Action::WriteAttributes(0x04FF),
            Action::WriteTableBase(BASE + 0x1000),
            Action::WriteControl(0x3_0000_3F19),
            Action::Barrier,
            Action::SetEnableBit,
            Action::Barrier,
            Action::Finish,
        ]
    );
    assert_eq!(sink.enable_writes, 1);
    assert_eq!(sink.barriers, 2);
    assert_eq!(table.verify_pointers(), Ok(()));
    assert_eq!(table.translate(0xC000_0000), Some(0xC000_0000));
}

#[test]
fn granule_support_is_read_from_its_own_field() {
    assert!(granule_supported(Granule::Kib4, ALL_SUPPORTED));
    assert!(granule_supported(Granule::Kib64, ALL_SUPPORTED));
    assert!(!granule_supported(Granule::Kib4, NO_4K));
    assert!(granule_supported(Granule::Kib64, NO_4K));
    assert!(granule_supported(Granule::Kib4, NO_64K));
    assert!(!granule_supported(Granule::Kib64, NO_64K));
    assert!(!granule_supported(Granule::Kib4, 0x1000_0000));
}

#[test]
fn wide_granule_fails_where_only_it_is_missing() {
    let layout = Layout::plan(Granule::Kib64, GIB, 0x4000_0000).unwrap();
    let mut table = TranslationTable::new(layout);
    let mut sink = Sink::new(NO_64K);
    assert_eq!(run(layout, &mut table, &mut sink), Err(MmuError::CapabilityUnsupported));
    assert_eq!(sink.enable_writes, 0);
    let mut sink = Sink::new(NO_4K);
    assert_eq!(run(layout, &mut table, &mut sink), Ok(()));
    assert_eq!(sink.enable_writes, 1);
    assert_eq!(sink.table_base, Some(0x4001_0000));
    assert_eq!(sink.control, Some(0x3_0000_7F10));
}

#[test]
fn register_values_follow_the_layout() {
    assert_eq!(attributes_word(), 0x04FF);
    let small = Layout::plan(Granule::Kib4, GIB, BASE).unwrap();
    assert_eq!(top_level(&small), 1);
    assert_eq!(table_base(&small), BASE + 0x1000);
    assert_eq!(control_word(&small), 0x3_0000_3F00 | 25);
    let large = Layout::plan(Granule::Kib4, 512 * GIB + 1, BASE).unwrap();
    assert_eq!(large.geometry.level0, 2);
    assert_eq!(top_level(&large), 0);
    assert_eq!(table_base(&large), BASE);
    assert_eq!(control_word(&large), 0x3_0000_3F00 | 16);
    let wide = Layout::plan(Granule::Kib64, GIB, 0x4000_0000).unwrap();
    assert_eq!(top_level(&wide), 1);
    assert_eq!(control_word(&wide), 0x3_0000_3F00 | (1 << 14) | 16);
    assert_eq!(action_of(Step::InstallBase, &wide), Action::WriteTableBase(0x4001_0000));
    assert_eq!(action_of(Step::Enable, &wide), Action::SetEnableBit);
}

#[test]
fn a_report_that_does_not_fit_changes_nothing() {
    let layout = Layout::plan(Granule::Kib4, GIB, BASE).unwrap();
    let (mut enabler, first) = Enabler::start(layout);
    assert_eq!(first, Action::ReadFeatures);
    assert_eq!(enabler.advance(Event::Done), Action::Nothing);
    assert_eq!(enabler.step, Step::CapabilityCheck);
    assert!(!enabler.finished());
    assert_eq!(enabler.outcome(), None);
    assert_eq!(enabler.advance(Event::Features(ALL_SUPPORTED)), Action::Populate);
    assert_eq!(enabler.advance(Event::Features(ALL_SUPPORTED)), Action::Nothing);
    assert_eq!(enabler.step, Step::Populate);
}

#[test]
fn the_ends_accept_no_report() {
    let layout = Layout::plan(Granule::Kib4, GIB, BASE).unwrap();
    let (mut enabler, _) = Enabler::start(layout);
    assert_eq!(
        enabler.advance(Event::Features(NO_4K)),
        Action::Fail(MmuError::CapabilityUnsupported)
    );
    assert!(enabler.finished());
    assert_eq!(enabler.outcome(), Some(Err(MmuError::CapabilityUnsupported)));
    for event in [Event::Done, Event::Features(ALL_SUPPORTED), Event::Done] {
        assert_eq!(enabler.advance(event), Action::Nothing);
        assert_eq!(enabler.step, Step::Failed);
    }
    let (mut enabler, _) = Enabler::start(layout);
    enabler.advance(Event::Features(ALL_SUPPORTED));
    for _ in 0..7 {
        enabler.advance(Event::Done);
    }
    assert_eq!(enabler.step, Step::Enabled);
    assert_eq!(enabler.outcome(), Some(Ok(())));
    assert_eq!(enabler.advance(Event::Done), Action::Nothing);
    assert_eq!(enabler.step, Step::Enabled);
}
