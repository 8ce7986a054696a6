//! The loader's state machine, from the first file read to the jump into
//! the kernel.
//!
//! The controller never touches the firmware. Each report of what the
//! firmware did moves it to its next state and yields the next thing to do.
//! Every error is final: the controller goes to `Aborted` and stays there.
//! The one retry is for a map key that went stale between capturing the
//! memory map and ending firmware services, and it is bounded.

use crate::config::{
    kernel_entries, kernel_key, missing_key, parse_config, parsed, volume_key, BootConfig,
    MissingKeyError,
};
use crate::error::{BootError, DiskError, HandoffError};
use crate::image::{
    law_layout_segments_fit, layout_of, segment_fits, ElfFormatError, ExecutableImage, ImageLayout,
    Segment,
};
use crate::memory_map::{
    capture_after, capture_step, CaptureStep, MapCapture, MapQueryOutcome, MemoryMapSnapshot,
};
use crate::placement::{
    after_answer, answer_fault, fill_bytes, first_overlap_of, lemma_first_overlap_of,
    pairwise_disjoint, request_for, segment_memory, AllocationRequest, PlacedSegment, PlacerState,
    Region, SegmentAllocationError, SegmentPlacer,
};
use crate::store::{lookup, ConfigStore, Entries, Text};
use vstd::prelude::*;

verus! {

/// How far the boot has come.
#[derive(Debug, Clone, Copy, PartialEq, Eq, Structural)]
pub enum Phase {
    /// Nothing is known yet.
    Init,
    /// The configuration is parsed and names a volume and a kernel.
    ConfigReady,
    /// The kernel image is validated; its segments are being placed.
    ImageReady,
    /// Every segment is in memory.
    Placed,
    /// A memory map is captured and its key is in hand.
    MapCaptured,
    /// Firmware services have ended; the payload for the kernel is ready.
    ServicesEnded,
    /// The payload is handed over; control is with the kernel.
    Transferred,
    /// An error ended the boot.
    Aborted,
}

/// What the firmware answered when asked to end its services.
#[derive(Debug, Clone, Copy, PartialEq, Eq, Structural)]
pub enum ServicesEndOutcome {
    /// Services have ended.
    Ended,
    /// The map key was stale: memory was allocated after the capture.
    StaleMapKey,
}

/// What the caller is to do next.
#[derive(Debug, PartialEq, Eq)]
pub enum Action {
    /// Read the configuration file and report its text.
    ReadConfig,
    /// Read the kernel image from `path` on `volume` and report its bytes.
    ReadKernel { volume: String, path: String },
    /// Ask the allocator for memory and report its answer.
    Allocate { request: AllocationRequest },
    /// Write `contents` to the start of `region` and report that it is done.
    Fill { region: Region, contents: Vec<u8> },
    /// Query the memory map with a buffer of `buffer_size` bytes and report the outcome.
    QueryMemoryMap { buffer_size: usize },
    /// End firmware services with `map_key` and report the outcome.
    EndServices { map_key: u64 },
    /// Take the payload and jump to `entry_address`.
    Transfer { entry_address: u64 },
    /// End the boot with the status of `error`.
    Abort { error: BootError },
}

/// An action as contracts see it.
pub enum ActionView {
    ReadConfig,
    ReadKernel { volume: Text, path: Text },
    Allocate { request: AllocationRequest },
    Fill { region: Region, contents: Seq<u8> },
    QueryMemoryMap { buffer_size: usize },
    EndServices { map_key: u64 },
    Transfer { entry_address: u64 },
    Abort { error: BootError },
}

impl View for Action {
    type V = ActionView;

    open spec fn view(&self) -> ActionView {
        match *self {
            Action::ReadConfig => ActionView::ReadConfig,
            Action::ReadKernel { volume, path } => ActionView::ReadKernel {
                volume: volume@,
                path: path@,
            },
            Action::Allocate { request } => ActionView::Allocate { request },
            Action::Fill { region, contents } => ActionView::Fill { region, contents: contents@ },
            Action::QueryMemoryMap { buffer_size } => ActionView::QueryMemoryMap { buffer_size },
            Action::EndServices { map_key } => ActionView::EndServices { map_key },
            Action::Transfer { entry_address } => ActionView::Transfer { entry_address },
            Action::Abort { error } => ActionView::Abort { error },
        }
    }
}

/// What the kernel receives. It is put together when the memory map is
/// captured, before firmware services end, and once handed over it is the
/// kernel's alone.
#[derive(Debug)]
pub struct BootInfo {
    pub memory_map: MemoryMapSnapshot,
    pub placed_segments: Vec<PlacedSegment>,
    pub kernel_args: ConfigStore,
}

/// A controller as contracts see it. A field that the phase has no use for
/// holds its empty value.
pub struct ControllerState {
    pub phase: Phase,
    /// How often a stale map key may be answered with a new capture.
    pub retry_bound: u32,
    /// How often it has been.
    pub stale_retries: u32,
    /// How often one capture may try a larger buffer.
    pub capture_budget: u32,
    /// The configuration entries that go to the kernel.
    pub kernel_args: Entries,
    /// The kernel file, while its segments are being placed.
    pub contents: Seq<u8>,
    pub entry_address: u64,
    /// The segments to place, while they are being placed.
    pub segments: Seq<Segment>,
    pub placed: Seq<PlacedSegment>,
    /// A region was granted and its contents are not yet reported written.
    pub awaiting_fill: bool,
    pub capture: MapCapture,
    pub snapshot: Option<MemoryMapSnapshot>,
    pub failure: Option<BootError>,
}

/// A next state with the action that leads to it.
pub struct Turn {
    pub state: ControllerState,
    pub action: ActionView,
}

/// The state `s` without the data of its phase, in the phase `phase`.
pub open spec fn cleared(s: ControllerState, phase: Phase) -> ControllerState {
    ControllerState {
        phase,
        retry_bound: s.retry_bound,
        stale_retries: s.stale_retries,
        capture_budget: s.capture_budget,
        kernel_args: Seq::empty(),
        contents: Seq::empty(),
        entry_address: 0,
        segments: Seq::empty(),
        placed: Seq::empty(),
        awaiting_fill: false,
        capture: MapCapture { retries_left: 0, buffer_size: 0 },
        snapshot: None,
        failure: None,
    }
}

/// The state in which a controller starts.
pub open spec fn initial(retry_bound: u32, capture_budget: u32) -> ControllerState {
    ControllerState {
        phase: Phase::Init,
        retry_bound,
        stale_retries: 0,
        capture_budget,
        kernel_args: Seq::empty(),
        contents: Seq::empty(),
        entry_address: 0,
        segments: Seq::empty(),
        placed: Seq::empty(),
        awaiting_fill: false,
        capture: MapCapture { retries_left: 0, buffer_size: 0 },
        snapshot: None,
        failure: None,
    }
}

/// The boot ends with `error`.
pub open spec fn abort_turn(s: ControllerState, error: BootError) -> Turn {
    Turn {
        state: ControllerState { failure: Some(error), ..cleared(s, Phase::Aborted) },
        action: ActionView::Abort { error },
    }
}

/// Something was reported that `s` was not waiting for. An aborted
/// controller stays as it is and names its error again.
pub open spec fn unexpected_turn(s: ControllerState) -> Turn {
    if s.phase == Phase::Aborted && s.failure is Some {
        Turn { state: s, action: ActionView::Abort { error: s.failure->Some_0 } }
    } else {
        abort_turn(s, BootError::Handoff(HandoffError::UnexpectedEvent))
    }
}

/// The state in which every segment is placed and the memory map is to be captured.
pub open spec fn placed_state(
    s: ControllerState,
    stale_retries: u32,
    placed: Seq<PlacedSegment>,
) -> ControllerState {
    ControllerState {
        stale_retries,
        kernel_args: s.kernel_args,
        entry_address: s.entry_address,
        placed,
        capture: MapCapture { retries_left: s.capture_budget, buffer_size: 0 },
        ..cleared(s, Phase::Placed)
    }
}

/// The boot begins: the configuration is to be read.
pub open spec fn begin_turn(s: ControllerState) -> Turn {
    if s.phase == Phase::Init {
        Turn { state: s, action: ActionView::ReadConfig }
    } else {
        unexpected_turn(s)
    }
}

/// The configuration file was read, or could not be (`None`).
pub open spec fn config_turn(s: ControllerState, text: Option<Text>) -> Turn {
    if s.phase != Phase::Init {
        unexpected_turn(s)
    } else {
        match text {
            None => abort_turn(s, BootError::Disk(DiskError::Config)),
            Some(t) => match parsed(t) {
                Err(fault) => abort_turn(s, BootError::ConfigSyntax(fault)),
                Ok(entries) => match missing_key(entries) {
                    Some(key) => abort_turn(
                        s,
                        BootError::ConfigMissingKey(MissingKeyError { key }),
                    ),
                    None => Turn {
                        state: ControllerState {
                            kernel_args: kernel_entries(entries),
                            ..cleared(s, Phase::ConfigReady)
                        },
                        action: ActionView::ReadKernel {
                            volume: lookup(entries, volume_key())->Some_0,
                            path: lookup(entries, kernel_key())->Some_0,
                        },
                    },
                },
            },
        }
    }
}

/// The kernel file was read, or could not be (`None`).
pub open spec fn kernel_turn(s: ControllerState, bytes: Option<Seq<u8>>) -> Turn {
    if s.phase != Phase::ConfigReady {
        unexpected_turn(s)
    } else {
        match bytes {
            None => abort_turn(s, BootError::Disk(DiskError::Kernel)),
            Some(b) => match layout_of(b) {
                Err(fault) => abort_turn(s, BootError::ElfFormat(fault)),
                Ok(layout) => if !pairwise_disjoint(layout.segments) {
                    abort_turn(s, BootError::SegmentOverlap(first_overlap_of(layout.segments)))
                } else if layout.segments.len() == 0 {
                    Turn {
                        state: placed_state(
                            ControllerState { entry_address: layout.entry_address, ..s },
                            s.stale_retries,
                            Seq::empty(),
                        ),
                        action: ActionView::QueryMemoryMap { buffer_size: 0 },
                    }
                } else {
                    Turn {
                        state: ControllerState {
                            kernel_args: s.kernel_args,
                            contents: b,
                            entry_address: layout.entry_address,
                            segments: layout.segments,
                            ..cleared(s, Phase::ImageReady)
                        },
                        action: ActionView::Allocate { request: request_for(layout.segments[0]) },
                    }
                },
            },
        }
    }
}

/// The placer that a state stands for.
pub open spec fn placer_of(s: ControllerState) -> PlacerState {
    PlacerState { segments: s.segments, placed: s.placed }
}

/// The allocator answered: with a region, or with none to give.
pub open spec fn allocation_turn(s: ControllerState, answer: Option<Region>) -> Turn {
    if s.phase != Phase::ImageReady || s.awaiting_fill {
        unexpected_turn(s)
    } else {
        match answer_fault(placer_of(s), answer) {
            Some(fault) => abort_turn(
                s,
                BootError::SegmentAllocation(
                    SegmentAllocationError { index: s.placed.len() as usize, fault },
                ),
            ),
            None => Turn {
                state: ControllerState {
                    placed: after_answer(placer_of(s), answer).placed,
                    awaiting_fill: true,
                    ..s
                },
                action: ActionView::Fill {
                    region: answer->Some_0,
                    contents: segment_memory(s.contents, s.segments[s.placed.len() as int]),
                },
            },
        }
    }
}

/// The last region is written.
pub open spec fn filled_turn(s: ControllerState) -> Turn {
    if s.phase != Phase::ImageReady || !s.awaiting_fill {
        unexpected_turn(s)
    } else if s.placed.len() < s.segments.len() {
        Turn {
            state: ControllerState { awaiting_fill: false, ..s },
            action: ActionView::Allocate { request: request_for(s.segments[s.placed.len() as int]) },
        }
    } else {
        Turn {
            state: placed_state(s, s.stale_retries, s.placed),
            action: ActionView::QueryMemoryMap { buffer_size: 0 },
        }
    }
}

/// The firmware answered a query for the memory map.
pub open spec fn memory_map_turn(s: ControllerState, outcome: MapQueryOutcome) -> Turn {
    if s.phase != Phase::Placed {
        unexpected_turn(s)
    } else {
        match capture_step(s.capture, outcome) {
            CaptureStep::Query { buffer_size } => Turn {
                state: ControllerState { capture: capture_after(s.capture, outcome), ..s },
                action: ActionView::QueryMemoryMap { buffer_size },
            },
            CaptureStep::Done(snapshot) => Turn {
                state: ControllerState {
                    kernel_args: s.kernel_args,
                    entry_address: s.entry_address,
                    placed: s.placed,
                    snapshot: Some(snapshot),
                    ..cleared(s, Phase::MapCaptured)
                },
                action: ActionView::EndServices { map_key: snapshot.map_key },
            },
            CaptureStep::Failed(fault) => abort_turn(s, BootError::MemoryMapCapture(fault)),
        }
    }
}

/// The firmware answered the request to end its services.
pub open spec fn services_end_turn(s: ControllerState, outcome: ServicesEndOutcome) -> Turn {
    if s.phase != Phase::MapCaptured {
        unexpected_turn(s)
    } else {
        match outcome {
            ServicesEndOutcome::Ended => Turn {
                state: ControllerState { phase: Phase::ServicesEnded, ..s },
                action: ActionView::Transfer { entry_address: s.entry_address },
            },
            ServicesEndOutcome::StaleMapKey => if s.stale_retries < s.retry_bound {
                Turn {
                    state: placed_state(s, (s.stale_retries + 1) as u32, s.placed),
                    action: ActionView::QueryMemoryMap { buffer_size: 0 },
                }
            } else {
                abort_turn(s, BootError::Handoff(HandoffError::StaleRetriesExhausted))
            },
        }
    }
}

/// The kernel's entry point returned, which it must never do.
pub open spec fn entry_returned_turn(s: ControllerState) -> Turn {
    if s.phase == Phase::ServicesEnded || s.phase == Phase::Transferred {
        abort_turn(s, BootError::Handoff(HandoffError::EntryReturned))
    } else {
        unexpected_turn(s)
    }
}

/// Anything that can be reported to a controller, as contracts see it.
pub enum Report {
    Begin,
    Config(Option<Text>),
    Kernel(Option<Seq<u8>>),
    Allocation(Option<Region>),
    Filled,
    MemoryMap(MapQueryOutcome),
    ServicesEnd(ServicesEndOutcome),
    EntryReturned,
}

/// What `report` makes of the state `s`.
pub open spec fn turn(s: ControllerState, report: Report) -> Turn {
    match report {
        Report::Begin => begin_turn(s),
        Report::Config(text) => config_turn(s, text),
        Report::Kernel(bytes) => kernel_turn(s, bytes),
        Report::Allocation(answer) => allocation_turn(s, answer),
        Report::Filled => filled_turn(s),
        Report::MemoryMap(outcome) => memory_map_turn(s, outcome),
        Report::ServicesEnd(outcome) => services_end_turn(s, outcome),
        Report::EntryReturned => entry_returned_turn(s),
    }
}

/// What holds of a controller whatever was reported to it: the stale
/// retries are within their bound, an error is recorded exactly in
/// `Aborted`, and a snapshot is held exactly from its capture to the jump.
pub open spec fn coherent(s: ControllerState) -> bool {
    &&& s.stale_retries <= s.retry_bound
    &&& s.failure is Some <==> s.phase == Phase::Aborted
    &&& s.snapshot is Some <==> s.phase == Phase::MapCaptured || s.phase == Phase::ServicesEnded
}

/// A new controller is coherent.
pub proof fn law_initial_is_coherent(retry_bound: u32, capture_budget: u32)
    ensures
        coherent(initial(retry_bound, capture_budget)),
{
}

/// No report breaks coherence, and none changes the bounds.
pub proof fn law_turns_keep_coherence(s: ControllerState, report: Report)
    requires
        coherent(s),
    ensures
        coherent(turn(s, report).state),
        turn(s, report).state.retry_bound == s.retry_bound,
        turn(s, report).state.capture_budget == s.capture_budget,
{
}

/// `Aborted` is final: whatever is reported, the state stays as it is and
/// the action is to end the boot with the error that was recorded.
pub proof fn law_aborted_is_final(s: ControllerState, report: Report)
    requires
        s.phase == Phase::Aborted,
        s.failure is Some,
    ensures
        turn(s, report).state == s,
        turn(s, report).action == (ActionView::Abort { error: s.failure->Some_0 }),
{
}

/// Every action that ends the boot comes with the state `Aborted`, and
/// names the error that the state records.
pub proof fn law_abort_action_means_aborted(s: ControllerState, report: Report)
    requires
        coherent(s),
    ensures
        turn(s, report).action is Abort <==> turn(s, report).state.phase == Phase::Aborted,
        turn(s, report).action is Abort ==> turn(s, report).state.failure == Some(
            turn(s, report).action->Abort_error,
        ),
{
}

/// A configuration that parses but lacks a required key ends the boot at
/// once: the kernel file is never asked for.
pub proof fn law_missing_key_reads_no_kernel(s: ControllerState, text: Text)
    requires
        s.phase == Phase::Init,
        parsed(text) is Ok,
        missing_key(parsed(text)->Ok_0) is Some,
    ensures
        config_turn(s, Some(text)).state.phase == Phase::Aborted,
        config_turn(s, Some(text)).action == (ActionView::Abort {
            error: BootError::ConfigMissingKey(
                MissingKeyError { key: missing_key(parsed(text)->Ok_0)->Some_0 },
            ),
        }),
{
}

/// An image with two overlapping segments ends the boot when it is read:
/// the allocator is never asked for anything.
pub proof fn law_overlap_allocates_nothing(s: ControllerState, bytes: Seq<u8>)
    requires
        s.phase == Phase::ConfigReady,
        layout_of(bytes) is Ok,
        !pairwise_disjoint(layout_of(bytes)->Ok_0.segments),
    ensures
        kernel_turn(s, Some(bytes)).state.phase == Phase::Aborted,
        kernel_turn(s, Some(bytes)).action == (ActionView::Abort {
            error: BootError::SegmentOverlap(first_overlap_of(layout_of(bytes)->Ok_0.segments)),
        }),
{
}

/// One stale map key, answered with a capture that succeeds at once.
pub open spec fn stale_round(s: ControllerState, snapshot: MemoryMapSnapshot) -> ControllerState {
    memory_map_turn(
        services_end_turn(s, ServicesEndOutcome::StaleMapKey).state,
        MapQueryOutcome::Captured(snapshot),
    ).state
}

/// `rounds` such rounds in a row.
pub open spec fn stale_rounds(
    s: ControllerState,
    snapshot: MemoryMapSnapshot,
    rounds: nat,
) -> ControllerState
    decreases rounds,
{
    if rounds == 0 {
        s
    } else {
        stale_round(stale_rounds(s, snapshot, (rounds - 1) as nat), snapshot)
    }
}

/// Each round within the bound is one retry, and ends with a map captured again.
pub proof fn lemma_stale_rounds(s: ControllerState, snapshot: MemoryMapSnapshot, rounds: nat)
    requires
        s.phase == Phase::MapCaptured,
        s.stale_retries + rounds <= s.retry_bound,
    ensures
        stale_rounds(s, snapshot, rounds).phase == Phase::MapCaptured,
        stale_rounds(s, snapshot, rounds).stale_retries == s.stale_retries + rounds,
        stale_rounds(s, snapshot, rounds).retry_bound == s.retry_bound,
    decreases rounds,
{
    if rounds > 0 {
        lemma_stale_rounds(s, snapshot, (rounds - 1) as nat);
    }
}

/// A firmware that always reports a stale map key is asked to end its
/// services exactly once more than the retry bound: each of the first
/// `retry_bound` reports is answered with a new capture, and the next one
/// ends the boot.
pub proof fn law_stale_retries_are_bounded(s: ControllerState, snapshot: MemoryMapSnapshot)
    requires
        s.phase == Phase::MapCaptured,
        s.stale_retries == 0,
    ensures
        forall|k: nat|
            k < s.retry_bound ==> (#[trigger] services_end_turn(
                stale_rounds(s, snapshot, k),
                ServicesEndOutcome::StaleMapKey,
            )).action == (ActionView::QueryMemoryMap { buffer_size: 0 }),
        forall|k: nat|
            k <= s.retry_bound ==> (#[trigger] stale_rounds(s, snapshot, k)).phase
                == Phase::MapCaptured,
        services_end_turn(
            stale_rounds(s, snapshot, s.retry_bound as nat),
            ServicesEndOutcome::StaleMapKey,
        ) == abort_turn(
            stale_rounds(s, snapshot, s.retry_bound as nat),
            BootError::Handoff(HandoffError::StaleRetriesExhausted),
        ),
{
    assert forall|k: nat| k <= s.retry_bound implies {
        &&& (#[trigger] stale_rounds(s, snapshot, k)).phase == Phase::MapCaptured
        &&& stale_rounds(s, snapshot, k).stale_retries == k
        &&& stale_rounds(s, snapshot, k).retry_bound == s.retry_bound
        &&& stale_rounds(s, snapshot, k).capture_budget == s.capture_budget
    } by {
        lemma_stale_rounds(s, snapshot, k);
        lemma_rounds_keep_budget(s, snapshot, k);
    }
    assert forall|k: nat| k < s.retry_bound implies (#[trigger] services_end_turn(
        stale_rounds(s, snapshot, k),
        ServicesEndOutcome::StaleMapKey,
    )).action == (ActionView::QueryMemoryMap { buffer_size: 0 }) by {
        assert(stale_rounds(s, snapshot, k).phase == Phase::MapCaptured);
    }
    assert(stale_rounds(s, snapshot, s.retry_bound as nat).phase == Phase::MapCaptured);
}

/// Rounds of retries leave the capture budget as it is.
proof fn lemma_rounds_keep_budget(s: ControllerState, snapshot: MemoryMapSnapshot, rounds: nat)
    ensures
        stale_rounds(s, snapshot, rounds).capture_budget == s.capture_budget,
    decreases rounds,
{
    if rounds > 0 {
        lemma_rounds_keep_budget(s, snapshot, (rounds - 1) as nat);
    }
}

/// A text that was read, as contracts see it.
pub open spec fn text_of(text: Option<String>) -> Option<Text> {
    match text {
        Some(t) => Some(t@),
        None => None,
    }
}

/// A file that was read, as contracts see it.
pub open spec fn bytes_of(bytes: Option<Vec<u8>>) -> Option<Seq<u8>> {
    match bytes {
        Some(b) => Some(b@),
        None => None,
    }
}

/// What the controller holds in each phase.
#[derive(Debug)]
enum Stage {
    Init,
    ConfigReady { kernel_args: ConfigStore },
    ImageReady {
        kernel_args: ConfigStore,
        bytes: Vec<u8>,
        entry_address: u64,
        placer: SegmentPlacer,
        awaiting_fill: bool,
    },
    Placed {
        kernel_args: ConfigStore,
        entry_address: u64,
        placed: Vec<PlacedSegment>,
        capture: MapCapture,
    },
    MapCaptured { entry_address: u64, boot_info: BootInfo },
    ServicesEnded { entry_address: u64, boot_info: BootInfo },
    Transferred,
    Aborted { error: BootError },
}

/// The state that a stage and the counters stand for.
spec fn state_of(
    stage: Stage,
    retry_bound: u32,
    stale_retries: u32,
    capture_budget: u32,
) -> ControllerState {
    let base = ControllerState { stale_retries, ..initial(retry_bound, capture_budget) };
    match stage {
        Stage::Init => base,
        Stage::ConfigReady { kernel_args } => ControllerState {
            phase: Phase::ConfigReady,
            kernel_args: kernel_args@,
            ..base
        },
        Stage::ImageReady { kernel_args, bytes, entry_address, placer, awaiting_fill } => ControllerState {
            phase: Phase::ImageReady,
            kernel_args: kernel_args@,
            contents: bytes@,
            entry_address,
            segments: placer@.segments,
            placed: placer@.placed,
            awaiting_fill,
            ..base
        },
        Stage::Placed { kernel_args, entry_address, placed, capture } => ControllerState {
            phase: Phase::Placed,
            kernel_args: kernel_args@,
            entry_address,
            placed: placed@,
            capture,
            ..base
        },
        Stage::MapCaptured { entry_address, boot_info } => ControllerState {
            phase: Phase::MapCaptured,
            kernel_args: boot_info.kernel_args@,
            entry_address,
            placed: boot_info.placed_segments@,
            snapshot: Some(boot_info.memory_map),
            ..base
        },
        Stage::ServicesEnded { entry_address, boot_info } => ControllerState {
            phase: Phase::ServicesEnded,
            kernel_args: boot_info.kernel_args@,
            entry_address,
            placed: boot_info.placed_segments@,
            snapshot: Some(boot_info.memory_map),
            ..base
        },
        Stage::Transferred => ControllerState { phase: Phase::Transferred, ..base },
        Stage::Aborted { error } => ControllerState {
            phase: Phase::Aborted,
            failure: Some(error),
            ..base
        },
    }
}

/// The loader's state machine.
#[derive(Debug)]
pub struct HandoffController {
    stage: Stage,
    retry_bound: u32,
    stale_retries: u32,
    capture_budget: u32,
}

impl HandoffController {
    /// While segments are placed, they are those of the image in hand.
    #[verifier::type_invariant]
    spec fn well_formed(&self) -> bool {
        match self.stage {
            Stage::ImageReady { bytes, entry_address, placer, .. } => layout_of(bytes@) == Ok::<
                ImageLayout,
                ElfFormatError,
            >(ImageLayout { entry_address, segments: placer@.segments }),
            _ => true,
        }
    }

    /// The state of the controller.
    pub closed spec fn view(&self) -> ControllerState {
        state_of(self.stage, self.retry_bound, self.stale_retries, self.capture_budget)
    }

    /// A controller that has done nothing yet. A stale map key is answered
    /// with a new capture at most `retry_bound` times, and each capture may
    /// try a larger buffer at most `capture_budget` times.
    pub fn new(retry_bound: u32, capture_budget: u32) -> (controller: HandoffController)
        ensures
            controller@ == initial(retry_bound, capture_budget),
    {
        HandoffController { stage: Stage::Init, retry_bound, stale_retries: 0, capture_budget }
    }

    /// How far the boot has come.
    pub fn phase(&self) -> (phase: Phase)
        ensures
            phase == self@.phase,
    {
        match &self.stage {
            Stage::Init => Phase::Init,
            Stage::ConfigReady { .. } => Phase::ConfigReady,
            Stage::ImageReady { .. } => Phase::ImageReady,
            Stage::Placed { .. } => Phase::Placed,
            Stage::MapCaptured { .. } => Phase::MapCaptured,
            Stage::ServicesEnded { .. } => Phase::ServicesEnded,
            Stage::Transferred => Phase::Transferred,
            Stage::Aborted { .. } => Phase::Aborted,
        }
    }

    /// The error that ended the boot, if one did.
    pub fn failure(&self) -> (failure: Option<BootError>)
        ensures
            failure == self@.failure,
    {
        match &self.stage {
            Stage::Aborted { error } => Some(*error),
            _ => None,
        }
    }

    /// Takes the stage out and leaves `Init` in its place.
    fn take_stage(&mut self) -> (stage: Stage)
        ensures
            stage == old(self).stage,
            final(self).stage is Init,
            final(self).retry_bound == old(self).retry_bound,
            final(self).stale_retries == old(self).stale_retries,
            final(self).capture_budget == old(self).capture_budget,
    {
        let mut taken = HandoffController {
            stage: Stage::Init,
            retry_bound: self.retry_bound,
            stale_retries: self.stale_retries,
            capture_budget: self.capture_budget,
        };
        core::mem::swap(self, &mut taken);
        taken.stage
    }

    /// Ends the boot with `error`.
    fn abort(&mut self, error: BootError) -> (action: Action)
        ensures
            final(self)@ == abort_turn(old(self)@, error).state,
            action@ == abort_turn(old(self)@, error).action,
    {
        self.stage = Stage::Aborted { error };
        Action::Abort { error }
    }

    /// Answers a report that the stage `stage` was not waiting for.
    fn unexpected(&mut self, stage: Stage) -> (action: Action)
        requires
            old(self).stage is Init,
            match stage {
                Stage::ImageReady { bytes, entry_address, placer, .. } => layout_of(bytes@) == Ok::<
                    ImageLayout,
                    ElfFormatError,
                >(ImageLayout { entry_address, segments: placer@.segments }),
                _ => true,
            },
        ensures
            final(self)@ == unexpected_turn(
                state_of(
                    stage,
                    old(self).retry_bound,
                    old(self).stale_retries,
                    old(self).capture_budget,
                ),
            ).state,
            action@ == unexpected_turn(
                state_of(
                    stage,
                    old(self).retry_bound,
                    old(self).stale_retries,
                    old(self).capture_budget,
                ),
            ).action,
    {
        match stage {
            Stage::Aborted { error } => {
                self.stage = Stage::Aborted { error };
                Action::Abort { error }
            },
            _ => self.abort(BootError::Handoff(HandoffError::UnexpectedEvent)),
        }
    }

    /// Starts the boot.
    pub fn begin(&mut self) -> (action: Action)
        ensures
            final(self)@ == begin_turn(old(self)@).state,
            action@ == begin_turn(old(self)@).action,
    {
        proof {
            use_type_invariant(&*self);
        }
        match self.take_stage() {
            Stage::Init => Action::ReadConfig,
            other => self.unexpected(other),
        }
    }

    /// Takes the text of the configuration file, or `None` where it could
    /// not be read.
    pub fn on_config(&mut self, text: Option<String>) -> (action: Action)
        ensures
            final(self)@ == config_turn(old(self)@, text_of(text)).state,
            action@ == config_turn(old(self)@, text_of(text)).action,
    {
        proof {
            use_type_invariant(&*self);
        }
        match self.take_stage() {
            Stage::Init => match text {
                None => self.abort(BootError::Disk(DiskError::Config)),
                Some(t) => match parse_config(t.as_str()) {
                    Err(fault) => self.abort(BootError::ConfigSyntax(fault)),
                    Ok(store) => match BootConfig::from_store(store) {
                        Err(fault) => self.abort(BootError::ConfigMissingKey(fault)),
                        Ok(config) => {
                            self.stage = Stage::ConfigReady { kernel_args: config.kernel_args };
                            Action::ReadKernel { volume: config.volume, path: config.kernel_path }
                        },
                    },
                },
            },
            other => self.unexpected(other),
        }
    }

    /// Takes the bytes of the kernel file, or `None` where it could not be read.
    pub fn on_kernel(&mut self, bytes: Option<Vec<u8>>) -> (action: Action)
        ensures
            final(self)@ == kernel_turn(old(self)@, bytes_of(bytes)).state,
            action@ == kernel_turn(old(self)@, bytes_of(bytes)).action,
    {
        proof {
            use_type_invariant(&*self);
        }
        match self.take_stage() {
            Stage::ConfigReady { kernel_args } => match bytes {
                None => self.abort(BootError::Disk(DiskError::Kernel)),
                Some(b) => match ExecutableImage::parse(b) {
                    Err(fault) => self.abort(BootError::ElfFormat(fault)),
                    Ok(image) => {
                        let (bytes, entry_address, segments) = image.into_parts();
                        match SegmentPlacer::new(segments) {
                            Err(fault) => {
                                proof {
                                    lemma_first_overlap_of(segments@, fault);
                                }
                                self.abort(BootError::SegmentOverlap(fault))
                            },
                            Ok(placer) => match placer.next_request() {
                                Some(request) => {
                                    assert(placer@.placed =~= Seq::empty());
                                    self.stage =
                                    Stage::ImageReady {
                                        kernel_args,
                                        bytes,
                                        entry_address,
                                        placer,
                                        awaiting_fill: false,
                                    };
                                    Action::Allocate { request }
                                },
                                None => {
                                    assert(placer@.placed =~= Seq::empty());
                                    self.stage =
                                    Stage::Placed {
                                        kernel_args,
                                        entry_address,
                                        placed: placer.into_placed(),
                                        capture: MapCapture::new(self.capture_budget),
                                    };
                                    Action::QueryMemoryMap { buffer_size: 0 }
                                },
                            },
                        }
                    },
                },
            },
            other => self.unexpected(other),
        }
    }

    /// Takes the allocator's answer to the last request: `None` where it
    /// had no memory to give.
    pub fn on_allocation(&mut self, answer: Option<Region>) -> (action: Action)
        ensures
            final(self)@ == allocation_turn(old(self)@, answer).state,
            action@ == allocation_turn(old(self)@, answer).action,
    {
        proof {
            use_type_invariant(&*self);
        }
        match self.take_stage() {
            Stage::ImageReady { kernel_args, bytes, entry_address, placer, awaiting_fill: false } => {
                let mut placer = placer;
                let ghost before = placer@;
                match placer.record(answer) {
                    Err(fault) => self.abort(BootError::SegmentAllocation(fault)),
                    Ok(()) => {
                        let last: usize = placer.placed().len() - 1;
                        let placed: PlacedSegment = placer.placed()[last];
                        proof {
                            law_layout_segments_fit(bytes@);
                            let layout = layout_of(bytes@)->Ok_0;
                            assert(layout.segments == before.segments);
                            assert(placed.segment == layout.segments[last as int]);
                            assert(segment_fits(layout.segments[last as int], bytes@.len() as int));
                        }
                        let contents = fill_bytes(bytes.as_slice(), &placed.segment);
                        self.stage =
                        Stage::ImageReady {
                            kernel_args,
                            bytes,
                            entry_address,
                            placer,
                            awaiting_fill: true,
                        };
                        Action::Fill { region: placed.backing_region, contents }
                    },
                }
            },
            other => self.unexpected(other),
        }
    }

    /// Takes the report that the last region is written.
    pub fn on_filled(&mut self) -> (action: Action)
        ensures
            final(self)@ == filled_turn(old(self)@).state,
            action@ == filled_turn(old(self)@).action,
    {
        proof {
            use_type_invariant(&*self);
        }
        match self.take_stage() {
            Stage::ImageReady { kernel_args, bytes, entry_address, placer, awaiting_fill: true } => {
                match placer.next_request() {
                    Some(request) => {
                        self.stage =
                        Stage::ImageReady {
                            kernel_args,
                            bytes,
                            entry_address,
                            placer,
                            awaiting_fill: false,
                        };
                        Action::Allocate { request }
                    },
                    None => {
                        self.stage =
                        Stage::Placed {
                            kernel_args,
                            entry_address,
                            placed: placer.into_placed(),
                            capture: MapCapture::new(self.capture_budget),
                        };
                        Action::QueryMemoryMap { buffer_size: 0 }
                    },
                }
            },
            other => self.unexpected(other),
        }
    }

    /// Takes the firmware's answer to the last query for the memory map.
    pub fn on_memory_map(&mut self, outcome: MapQueryOutcome) -> (action: Action)
        ensures
            final(self)@ == memory_map_turn(old(self)@, outcome).state,
            action@ == memory_map_turn(old(self)@, outcome).action,
    {
        proof {
            use_type_invariant(&*self);
        }
        match self.take_stage() {
            Stage::Placed { kernel_args, entry_address, placed, capture } => {
                let mut capture = capture;
                match capture.on_outcome(outcome) {
                    CaptureStep::Query { buffer_size } => {
                        self.stage = Stage::Placed { kernel_args, entry_address, placed, capture };
                        Action::QueryMemoryMap { buffer_size }
                    },
                    CaptureStep::Done(snapshot) => {
                        let map_key: u64 = snapshot.map_key;
                        self.stage =
                        Stage::MapCaptured {
                            entry_address,
                            boot_info: BootInfo {
                                memory_map: snapshot,
                                placed_segments: placed,
                                kernel_args,
                            },
                        };
                        Action::EndServices { map_key }
                    },
                    CaptureStep::Failed(fault) => self.abort(BootError::MemoryMapCapture(fault)),
                }
            },
            other => self.unexpected(other),
        }
    }

    /// Takes the firmware's answer to the request to end its services.
    pub fn on_services_end(&mut self, outcome: ServicesEndOutcome) -> (action: Action)
        ensures
            final(self)@ == services_end_turn(old(self)@, outcome).state,
            action@ == services_end_turn(old(self)@, outcome).action,
    {
        proof {
            use_type_invariant(&*self);
        }
        match self.take_stage() {
            Stage::MapCaptured { entry_address, boot_info } => match outcome {
                ServicesEndOutcome::Ended => {
                    self.stage = Stage::ServicesEnded { entry_address, boot_info };
                    Action::Transfer { entry_address }
                },
                ServicesEndOutcome::StaleMapKey => {
                    if self.stale_retries < self.retry_bound {
                        self.stale_retries = self.stale_retries + 1;
                        self.stage =
                        Stage::Placed {
                            kernel_args: boot_info.kernel_args,
                            entry_address,
                            placed: boot_info.placed_segments,
                            capture: MapCapture::new(self.capture_budget),
                        };
                        Action::QueryMemoryMap { buffer_size: 0 }
                    } else {
                        self.abort(BootError::Handoff(HandoffError::StaleRetriesExhausted))
                    }
                },
            },
            other => self.unexpected(other),
        }
    }

    /// Hands the payload for the kernel over. This is the last thing before
    /// the jump: from here on the payload is the kernel's.
    pub fn release(&mut self) -> (payload: Option<BootInfo>)
        ensures
            match payload {
                Some(info) => {
                    &&& old(self)@.phase == Phase::ServicesEnded
                    &&& final(self)@ == cleared(old(self)@, Phase::Transferred)
                    &&& Some(info.memory_map) == old(self)@.snapshot
                    &&& info.placed_segments@ == old(self)@.placed
                    &&& info.kernel_args@ == old(self)@.kernel_args
                },
                None => old(self)@.phase != Phase::ServicesEnded && final(self)@ == old(self)@,
            },
    {
        proof {
            use_type_invariant(&*self);
        }
        match self.take_stage() {
            Stage::ServicesEnded { entry_address: _, boot_info } => {
                self.stage = Stage::Transferred;
                Some(boot_info)
            },
            other => {
                self.stage = other;
                None
            },
        }
    }

    /// Takes the report that the kernel's entry point returned.
    pub fn on_entry_returned(&mut self) -> (action: Action)
        ensures
            final(self)@ == entry_returned_turn(old(self)@).state,
            action@ == entry_returned_turn(old(self)@).action,
    {
        proof {
            use_type_invariant(&*self);
        }
        match self.take_stage() {
            Stage::ServicesEnded { .. } => self.abort(
                BootError::Handoff(HandoffError::EntryReturned),
            ),
            Stage::Transferred => self.abort(BootError::Handoff(HandoffError::EntryReturned)),
            other => self.unexpected(other),
        }
    }
}

} // verus!
