//! The sequence that turns address translation on, as a state machine.
//!
//! The machine decides; the caller acts. Each call of [`Enabler::advance`]
//! takes what the caller observed and returns the next thing to do to the
//! hardware: read the feature register, populate the store, write a
//! register, execute a barrier. The machine ends in `Enabled`, or in
//! `Failed` when the CPU does not support the configured granule, and in
//! that case it never asks for the enable bit to be written.

use vstd::prelude::*;
use crate::bits::{extract, extract_bits};
use crate::geometry::Geometry;
use crate::granule::Granule;
use crate::layout::Layout;

verus! {

/// Attribute 0: normal memory, write-back, non-transient, read and write
/// allocate, inner and outer. Attribute 1: device memory, non-gathering,
/// non-reordering, early write acknowledge.
pub const MEMORY_ATTRIBUTES: u64 = 0x04FF;

/// Lowest and highest bit of the 4 KiB granule field of the memory-model
/// feature register; the field reads zero where the granule is supported.
pub const FEATURE_GRANULE_4K_LO: u64 = 28;

pub const FEATURE_GRANULE_4K_HI: u64 = 31;

/// Lowest and highest bit of the 64 KiB granule field of the memory-model
/// feature register; the field reads zero where the granule is supported.
pub const FEATURE_GRANULE_64K_LO: u64 = 24;

pub const FEATURE_GRANULE_64K_HI: u64 = 27;

/// Translation-control fields that do not depend on the layout: walks of
/// the lower address range enabled, table walks inner shareable and
/// write-back read-allocate cacheable, a 42-bit physical address size.
pub const CONTROL_FIXED: u64 = 0x3_0000_3F00;

/// Bit position of the granule field of the translation-control register.
pub const CONTROL_GRANULE_SHIFT: u64 = 14;

/// Why translation could not be enabled.
#[derive(Clone, Copy, Debug, PartialEq, Eq, Structural)]
pub enum MmuError {
    /// The CPU does not support the configured translation granule.
    CapabilityUnsupported,
}

impl MmuError {
    /// A line for the console.
    pub fn describe(&self) -> (text: &'static str)
        ensures
            text@ == "Translation granule not supported in HW"@,
    {
        "Translation granule not supported in HW"
    }
}

/// Where the sequence stands: the step whose action the caller is carrying
/// out, or one of the two ends.
#[derive(Clone, Copy, Debug, PartialEq, Eq, Structural)]
pub enum Step {
    CapabilityCheck,
    Populate,
    ProgramAttributes,
    InstallBase,
    ProgramControl,
    BarrierBeforeEnable,
    Enable,
    BarrierAfterEnable,
    Enabled,
    Failed,
}

/// What the caller reports back.
#[derive(Clone, Copy, Debug, PartialEq, Eq, Structural)]
pub enum Event {
    /// The value read from the memory-model feature register.
    Features(u64),
    /// The action asked for has been carried out.
    Done,
}

/// What the caller is asked to do.
#[derive(Clone, Copy, Debug, PartialEq, Eq, Structural)]
pub enum Action {
    /// Read the memory-model feature register and report its value.
    ReadFeatures,
    /// Populate the store, under the lock that guards it.
    Populate,
    /// Write the value to the memory-attribute indirection register.
    WriteAttributes(u64),
    /// Install the address as the base of the translation tables of the
    /// lower address range.
    WriteTableBase(u64),
    /// Write the value to the translation-control register.
    WriteControl(u64),
    /// Execute an instruction synchronization barrier.
    Barrier,
    /// Set the enable bit of the system control register.
    SetEnableBit,
    /// Translation is on; the sequence is complete.
    Finish,
    /// The sequence has failed; nothing was enabled.
    Fail(MmuError),
    /// The report does not fit the step; nothing is to be done for it.
    Nothing,
}

/// Whether a value of the memory-model feature register reports support
/// for the granule.
pub open spec fn spec_granule_supported(granule: Granule, features: u64) -> bool {
    match granule {
        Granule::Kib4 => extract(features, FEATURE_GRANULE_4K_LO, FEATURE_GRANULE_4K_HI) == 0,
        Granule::Kib64 => extract(features, FEATURE_GRANULE_64K_LO, FEATURE_GRANULE_64K_HI) == 0,
    }
}

/// The level at which the hardware walk starts: level 1 where level 0 has
/// a single entry, level 0 otherwise.
pub open spec fn spec_top_level(geometry: Geometry) -> usize {
    if geometry.level0 == 1 {
        1
    } else {
        0
    }
}

/// Bits of a virtual address that the walk from the top level consumes.
pub open spec fn spec_input_bits(layout: Layout) -> u64 {
    if layout.geometry.level0 == 1 {
        layout.granule.spec_shift(0)
    } else {
        48
    }
}

/// The granule field of the translation-control register.
pub open spec fn spec_granule_code(granule: Granule) -> u64 {
    match granule {
        Granule::Kib4 => 0,
        Granule::Kib64 => 1,
    }
}

/// The translation-control value: the size offset of the input address
/// range in bits 0..=5, the granule in bits 14..=15, and the fixed fields.
pub open spec fn spec_control_word(layout: Layout) -> u64 {
    ((64 - spec_input_bits(layout)) as u64) | (spec_granule_code(layout.granule)
        << CONTROL_GRANULE_SHIFT) | CONTROL_FIXED
}

/// The address to install as table base: the first table of the top level.
pub open spec fn spec_table_base(layout: Layout) -> int {
    layout.spec_table_addr(spec_top_level(layout.geometry), 0)
}

/// The action that a step asks for.
pub open spec fn spec_action_of(step: Step, layout: Layout) -> Action {
    match step {
        Step::CapabilityCheck => Action::ReadFeatures,
        Step::Populate => Action::Populate,
        Step::ProgramAttributes => Action::WriteAttributes(MEMORY_ATTRIBUTES),
        Step::InstallBase => Action::WriteTableBase(spec_table_base(layout) as u64),
        Step::ProgramControl => Action::WriteControl(spec_control_word(layout)),
        Step::BarrierBeforeEnable => Action::Barrier,
        Step::Enable => Action::SetEnableBit,
        Step::BarrierAfterEnable => Action::Barrier,
        Step::Enabled => Action::Finish,
        Step::Failed => Action::Fail(MmuError::CapabilityUnsupported),
    }
}

/// The step that follows on a report, or nothing where the report does not
/// fit the step. The two ends accept no report.
pub open spec fn spec_successor(step: Step, event: Event, granule: Granule) -> Option<Step> {
    match (step, event) {
        (Step::CapabilityCheck, Event::Features(features)) => if spec_granule_supported(
            granule,
            features,
        ) {
            Some(Step::Populate)
        } else {
            Some(Step::Failed)
        },
        (Step::Populate, Event::Done) => Some(Step::ProgramAttributes),
        (Step::ProgramAttributes, Event::Done) => Some(Step::InstallBase),
        (Step::InstallBase, Event::Done) => Some(Step::ProgramControl),
        (Step::ProgramControl, Event::Done) => Some(Step::BarrierBeforeEnable),
        (Step::BarrierBeforeEnable, Event::Done) => Some(Step::Enable),
        (Step::Enable, Event::Done) => Some(Step::BarrierAfterEnable),
        (Step::BarrierAfterEnable, Event::Done) => Some(Step::Enabled),
        _ => None,
    }
}

/// The step after a report: the successor, or the same step where the
/// report does not fit.
pub open spec fn spec_next_step(step: Step, event: Event, granule: Granule) -> Step {
    match spec_successor(step, event, granule) {
        Some(next) => next,
        None => step,
    }
}

/// The action after a report: that of the successor, or nothing where the
/// report does not fit.
pub open spec fn spec_next_action(step: Step, event: Event, layout: Layout) -> Action {
    match spec_successor(step, event, layout.granule) {
        Some(next) => spec_action_of(next, layout),
        None => Action::Nothing,
    }
}

/// The actions that a run of reports draws from the machine, one per report.
pub open spec fn spec_trace(step: Step, events: Seq<Event>, layout: Layout) -> Seq<Action>
    decreases events.len(),
{
    if events.len() == 0 {
        Seq::empty()
    } else {
        seq![spec_next_action(step, events[0], layout)] + spec_trace(
            spec_next_step(step, events[0], layout.granule),
            events.subrange(1, events.len() as int),
            layout,
        )
    }
}

/// Whether a report is a feature value that shows support for the granule.
pub open spec fn reports_support(event: Event, granule: Granule) -> bool {
    match event {
        Event::Features(features) => spec_granule_supported(granule, features),
        Event::Done => false,
    }
}

/// Whether an action changes the hardware or the store.
pub open spec fn touches_hardware(action: Action) -> bool {
    match action {
        Action::Populate => true,
        Action::WriteAttributes(_) => true,
        Action::WriteTableBase(_) => true,
        Action::WriteControl(_) => true,
        Action::Barrier => true,
        Action::SetEnableBit => true,
        _ => false,
    }
}

/// Whether a value of the memory-model feature register reports support
/// for the granule.
pub fn granule_supported(granule: Granule, features: u64) -> (r: bool)
    ensures
        r == spec_granule_supported(granule, features),
{
    match granule {
        Granule::Kib4 => extract_bits(features, FEATURE_GRANULE_4K_LO, FEATURE_GRANULE_4K_HI) == 0,
        Granule::Kib64 => extract_bits(features, FEATURE_GRANULE_64K_LO, FEATURE_GRANULE_64K_HI)
            == 0,
    }
}

/// The value for the memory-attribute indirection register.
pub fn attributes_word() -> (word: u64)
    ensures
        word == MEMORY_ATTRIBUTES,
{
    MEMORY_ATTRIBUTES
}

/// The level at which the hardware walk starts.
pub fn top_level(layout: &Layout) -> (level: usize)
    ensures
        level == spec_top_level(layout.geometry),
        level <= 1,
{
    if layout.geometry.level0 == 1 {
        1
    } else {
        0
    }
}

/// The address to install as table base.
pub fn table_base(layout: &Layout) -> (addr: u64)
    requires
        layout.wf(),
    ensures
        addr == spec_table_base(*layout),
        crate::descriptor::storable(addr, layout.granule),
{
    proof {
        layout.geometry.lemma_entries_bounded(layout.granule);
    }
    layout.table_addr(top_level(layout), 0)
}

/// The value for the translation-control register.
pub fn control_word(layout: &Layout) -> (word: u64)
    ensures
        word == spec_control_word(*layout),
{
    let input_bits: u64 = if layout.geometry.level0 == 1 {
        layout.granule.shift(0)
    } else {
        48
    };
    let code: u64 = match layout.granule {
        Granule::Kib4 => 0,
        Granule::Kib64 => 1,
    };
    (64 - input_bits) | (code << CONTROL_GRANULE_SHIFT) | CONTROL_FIXED
}

/// The action that a step asks for.
pub fn action_of(step: Step, layout: &Layout) -> (action: Action)
    requires
        layout.wf(),
    ensures
        action == spec_action_of(step, *layout),
{
    match step {
        Step::CapabilityCheck => Action::ReadFeatures,
        Step::Populate => Action::Populate,
        Step::ProgramAttributes => Action::WriteAttributes(attributes_word()),
        Step::InstallBase => Action::WriteTableBase(table_base(layout)),
        Step::ProgramControl => Action::WriteControl(control_word(layout)),
        Step::BarrierBeforeEnable => Action::Barrier,
        Step::Enable => Action::SetEnableBit,
        Step::BarrierAfterEnable => Action::Barrier,
        Step::Enabled => Action::Finish,
        Step::Failed => Action::Fail(MmuError::CapabilityUnsupported),
    }
}

/// The enable sequence for one layout.
#[derive(Clone, Copy, Debug)]
pub struct Enabler {
    pub layout: Layout,
    pub step: Step,
}

impl Enabler {
    /// Starts the sequence: the machine stands at the capability check and
    /// asks for the feature register to be read.
    pub fn start(layout: Layout) -> (r: (Enabler, Action))
        requires
            layout.wf(),
        ensures
            r.0.layout == layout,
            r.0.step == Step::CapabilityCheck,
            r.1 == Action::ReadFeatures,
    {
        (Enabler { layout, step: Step::CapabilityCheck }, Action::ReadFeatures)
    }

    /// Takes a report and returns what to do next.
    ///
    /// A feature value at the capability check leads to `Populate` where it
    /// shows support for the configured granule, and otherwise to `Failed`
    /// with the error. `Done` moves every later step on by one, up to
    /// `Enabled`. A report that does not fit the step changes nothing and
    /// asks for nothing.
    pub fn advance(&mut self, event: Event) -> (action: Action)
        requires
            old(self).layout.wf(),
        ensures
            final(self).layout == old(self).layout,
            final(self).step == spec_next_step(old(self).step, event, old(self).layout.granule),
            action == spec_next_action(old(self).step, event, old(self).layout),
    {
        let next: Option<Step> = match (self.step, event) {
            (Step::CapabilityCheck, Event::Features(features)) => {
                if granule_supported(self.layout.granule, features) {
                    Some(Step::Populate)
                } else {
                    Some(Step::Failed)
                }
            },
            (Step::Populate, Event::Done) => Some(Step::ProgramAttributes),
            (Step::ProgramAttributes, Event::Done) => Some(Step::InstallBase),
            (Step::InstallBase, Event::Done) => Some(Step::ProgramControl),
            (Step::ProgramControl, Event::Done) => Some(Step::BarrierBeforeEnable),
            (Step::BarrierBeforeEnable, Event::Done) => Some(Step::Enable),
            (Step::Enable, Event::Done) => Some(Step::BarrierAfterEnable),
            (Step::BarrierAfterEnable, Event::Done) => Some(Step::Enabled),
            _ => None,
        };
        match next {
            Some(step) => {
                self.step = step;
                action_of(step, &self.layout)
            },
            None => Action::Nothing,
        }
    }

    /// Whether the sequence has ended, in success or in failure.
    pub fn finished(&self) -> (r: bool)
        ensures
            r == (self.step == Step::Enabled || self.step == Step::Failed),
    {
        match self.step {
            Step::Enabled => true,
            Step::Failed => true,
            _ => false,
        }
    }

    /// The outcome of the sequence once it has ended.
    pub fn outcome(&self) -> (r: Option<Result<(), MmuError>>)
        ensures
            r == match self.step {
                Step::Enabled => Some(Ok::<(), MmuError>(())),
                Step::Failed => Some(Err::<(), MmuError>(MmuError::CapabilityUnsupported)),
                _ => None::<Result<(), MmuError>>,
            },
    {
        match self.step {
            Step::Enabled => Some(Ok(())),
            Step::Failed => Some(Err(MmuError::CapabilityUnsupported)),
            _ => None,
        }
    }
}

/// No enabling without the capability: as long as no report shows support
/// for the configured granule, the machine stays at the capability check
/// or in failure and asks for no change to the hardware or the store; in
/// particular it never asks for the enable bit to be set.
pub proof fn lemma_unsupported_never_enables(step: Step, events: Seq<Event>, layout: Layout)
    requires
        step == Step::CapabilityCheck || step == Step::Failed,
        forall|i: int| 0 <= i < events.len() ==> !reports_support(#[trigger] events[i], layout.granule),
    ensures
        spec_trace(step, events, layout).len() == events.len(),
        forall|i: int|
            0 <= i < events.len() ==> !touches_hardware(#[trigger] spec_trace(step, events, layout)[i]),
        forall|i: int|
            0 <= i < events.len() ==> (#[trigger] spec_trace(step, events, layout)[i])
                != Action::SetEnableBit,
    decreases events.len(),
{
    if events.len() > 0 {
        let rest = events.subrange(1, events.len() as int);
        let next = spec_next_step(step, events[0], layout.granule);
        assert(!reports_support(events[0], layout.granule));
        assert(next == Step::CapabilityCheck || next == Step::Failed);
        assert forall|i: int| 0 <= i < rest.len() implies !reports_support(
            #[trigger] rest[i],
            layout.granule,
        ) by {
            assert(rest[i] == events[i + 1]);
        }
        lemma_unsupported_never_enables(next, rest, layout);
        let head = spec_next_action(step, events[0], layout);
        assert(!touches_hardware(head));
        let tail = spec_trace(next, rest, layout);
        assert(spec_trace(step, events, layout) == seq![head] + tail);
        assert forall|i: int| 0 <= i < events.len() implies !touches_hardware(
            #[trigger] spec_trace(step, events, layout)[i],
        ) by {
            if i > 0 {
                assert(spec_trace(step, events, layout)[i] == tail[i - 1]);
            }
        }
    }
}

/// The full sequence: from the capability check, a feature value that
/// shows support followed by seven `Done` reports draws, in this order,
/// populate, attributes, table base, control, barrier, enable bit, barrier
/// and finish, and ends in `Enabled`.
pub proof fn lemma_supported_sequence(features: u64, layout: Layout)
    requires
        spec_granule_supported(layout.granule, features),
    ensures
        spec_trace(
            Step::CapabilityCheck,
            seq![
                Event::Features(features),
                Event::Done,
                Event::Done,
                Event::Done,
                Event::Done,
                Event::Done,
                Event::Done,
                Event::Done,
            ],
            layout,
        ) == seq![
            Action::Populate,
            Action::WriteAttributes(MEMORY_ATTRIBUTES),
            Action::WriteTableBase(spec_table_base(layout) as u64),
            Action::WriteControl(spec_control_word(layout)),
            Action::Barrier,
            Action::SetEnableBit,
            Action::Barrier,
            Action::Finish,
        ],
{
    let events = seq![
        Event::Features(features),
        Event::Done,
        Event::Done,
        Event::Done,
        Event::Done,
        Event::Done,
        Event::Done,
        Event::Done,
    ];
    let e1 = events.subrange(1, 8);
    let e2 = e1.subrange(1, 7);
    let e3 = e2.subrange(1, 6);
    let e4 = e3.subrange(1, 5);
    let e5 = e4.subrange(1, 4);
    let e6 = e5.subrange(1, 3);
    let e7 = e6.subrange(1, 2);
    let e8 = e7.subrange(1, 1);
    assert(spec_trace(Step::Enabled, e8, layout) == Seq::<Action>::empty());
    assert(spec_trace(Step::BarrierAfterEnable, e7, layout) == seq![Action::Finish]);
    assert(spec_trace(Step::Enable, e6, layout) == seq![Action::Barrier, Action::Finish]);
    assert(spec_trace(Step::BarrierBeforeEnable, e5, layout) == seq![
        Action::SetEnableBit,
        Action::Barrier,
        Action::Finish,
    ]);
    assert(spec_trace(Step::ProgramControl, e4, layout) == seq![
        Action::Barrier,
        Action::SetEnableBit,
        Action::Barrier,
        Action::Finish,
    ]);
    assert(spec_trace(Step::InstallBase, e3, layout) == seq![
        Action::WriteControl(spec_control_word(layout)),
        Action::Barrier,
        Action::SetEnableBit,
        Action::Barrier,
        Action::Finish,
    ]);
    assert(spec_trace(Step::ProgramAttributes, e2, layout) == seq![
        Action::WriteTableBase(spec_table_base(layout) as u64),
        Action::WriteControl(spec_control_word(layout)),
        Action::Barrier,
        Action::SetEnableBit,
        Action::Barrier,
        Action::Finish,
    ]);
    assert(spec_trace(Step::Populate, e1, layout) == seq![
        Action::WriteAttributes(MEMORY_ATTRIBUTES),
        Action::WriteTableBase(spec_table_base(layout) as u64),
        Action::WriteControl(spec_control_word(layout)),
        Action::Barrier,
        Action::SetEnableBit,
        Action::Barrier,
        Action::Finish,
    ]);
}

} // verus!
