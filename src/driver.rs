//! NVMe bring-up as a state machine: the driver names the next register
//! access, memory allocation or delay, and the caller performs it and hands
//! back what it observed.
use vstd::prelude::*;
use crate::nvme::{
    address_at, admin_queue_attributes, aqa_value, cap_dstrd, cc_value, controller_configuration,
    doorbell_stride, is_nvme, is_nvme_spec, register_address, NvmeCommand, BUFFER_ALIGN,
    CNS_IDENTIFY_CONTROLLER, ENTRY_BYTES, IDENTIFY_BUFFER_BYTES, IDENTIFY_COMMAND_ID,
    OPCODE_IDENTIFY, QUEUE_ENTRIES, REG_ACQ, REG_AQA, REG_ASQ, REG_CAP, REG_CC, REG_CSTS,
    REG_INTMC, REG_INTMS, REG_SQ0_TAIL_DOORBELL,
};
use crate::pci::{bar_base, PciDevice};
use crate::poll::{bit0, lemma_poll_outcome, poll_run, poll_step, PollStatus, Poller};

verus! {

/// Polls of CSTS.RDY before the controller is declared not ready.
pub const READY_POLL_BUDGET: u32 = 1000;
/// Busy-wait cycles between two polls of CSTS.
pub const READY_DELAY_CYCLES: u64 = 1_000_000;
/// Polls of the completion phase tag before the command is declared lost.
pub const COMPLETION_POLL_BUDGET: u32 = 1_000_000;
/// Byte offset of the status dword, holding the phase tag, in a completion entry.
pub const COMPLETION_STATUS_OFFSET: u64 = 12;
/// Bytes of the Identify result surfaced in the report.
pub const IDENTIFY_HEAD_BYTES: u32 = 64;

/// Why bring-up stopped without a result.
#[derive(Clone, Copy, Debug, PartialEq, Eq, Structural)]
pub enum NvmeError {
    /// No PCI function of the NVMe class was found.
    NotFound,
    /// CSTS.RDY was never observed within the poll budget.
    NotReady,
    /// The completion's phase tag was never observed within the poll budget.
    CompletionTimeout { last_status: u32 },
}

/// What a successful bring-up found.
#[derive(Clone, Debug)]
pub struct Report {
    pub device: PciDevice,
    pub bar0: u64,
    pub cap: u64,
    /// The completion entry's status dword, phase tag set.
    pub status: u32,
    /// The first bytes of the Identify Controller data, as read.
    pub identify_head: Vec<u8>,
}

/// Where the bring-up stands; each phase waits for one kind of event.
#[derive(Clone, Copy, Debug, PartialEq, Eq, Structural)]
pub enum Phase {
    Scanning,
    ReadingBar,
    ReadingCap,
    MaskingInterrupts,
    ClearingInterrupts,
    Configuring,
    PollingReady,
    Waiting,
    Allocating,
    SettingAqa,
    SettingAsq,
    SettingAcq,
    Submitting,
    RingingDoorbell,
    PollingCompletion,
    ReadingIdentify,
    Finished,
    Failed(NvmeError),
}

/// The next piece of outside work the driver asks for.
#[derive(Clone, Copy, Debug, PartialEq, Eq, Structural)]
pub enum Action {
    /// Hand over the next enumerated PCI device, or report the end of the scan.
    NextDevice,
    /// Read base address register `index` of `device` (both dwords).
    ReadBar { device: PciDevice, index: u8 },
    /// Volatile 64-bit read of the register at `address`.
    Read64 { address: u64 },
    /// Volatile 32-bit read at `address`.
    Read32 { address: u64 },
    /// Volatile 32-bit write.
    Write32 { address: u64, value: u32 },
    /// Volatile 64-bit write.
    Write64 { address: u64, value: u64 },
    /// Busy-wait.
    Delay { cycles: u64 },
    /// Allocate two zeroed queues of `queue_bytes` and a zeroed buffer of
    /// `buffer_bytes`, all aligned to `align`, and hand back their physical addresses.
    Allocate { queue_bytes: u32, buffer_bytes: u32, align: u32 },
    /// Volatile write of a command into the submission queue slot at `address`.
    WriteCommand { address: u64, command: NvmeCommand },
    /// Read `len` bytes of memory at `address`.
    ReadBytes { address: u64, len: u32 },
    /// Bring-up is over, with the error that stopped it, if any; the report of a
    /// successful bring-up is taken with `NvmeDriver::into_report`.
    Finish { error: Option<NvmeError> },
}

/// What the caller observed while performing an action.
#[derive(Clone, Debug)]
pub enum Event {
    Device(PciDevice),
    ScanEnd,
    Bar(u64),
    Value64(u64),
    Value32(u32),
    /// A write or a delay was carried out.
    Done,
    Buffers { submission: u64, completion: u64, identify: u64 },
    Bytes(Vec<u8>),
}

/// The bring-up of the first NVMe controller found: discover, map, read the
/// capabilities, mask interrupts, configure, wait for ready, set up the admin
/// queues, submit Identify Controller, wait for its completion, read the result.
pub struct NvmeDriver {
    pub phase: Phase,
    pub device: PciDevice,
    pub bar0: u64,
    pub cap: u64,
    pub ready: Poller,
    pub completion: Poller,
    pub submission_queue: u64,
    pub completion_queue: u64,
    pub identify_buffer: u64,
    pub status: u32,
    pub identify_head: Vec<u8>,
}

/// The action that a driver in state `d` asks for.
pub open spec fn action_of(d: NvmeDriver) -> Action {
    match d.phase {
        Phase::Scanning => Action::NextDevice,
        Phase::ReadingBar => Action::ReadBar { device: d.device, index: 0 },
        Phase::ReadingCap => Action::Read64 { address: address_at(d.bar0, REG_CAP) },
        Phase::MaskingInterrupts => Action::Write32 { address: address_at(d.bar0, REG_INTMS), value: 0xFFFF_FFFF },
        Phase::ClearingInterrupts => Action::Write32 { address: address_at(d.bar0, REG_INTMC), value: 0xFFFF_FFFF },
        Phase::Configuring => Action::Write32 { address: address_at(d.bar0, REG_CC), value: cc_value(cap_dstrd(d.cap)) },
        Phase::PollingReady => Action::Read32 { address: address_at(d.bar0, REG_CSTS) },
        Phase::Waiting => Action::Delay { cycles: READY_DELAY_CYCLES },
        Phase::Allocating => Action::Allocate {
            queue_bytes: (QUEUE_ENTRIES * ENTRY_BYTES) as u32,
            buffer_bytes: IDENTIFY_BUFFER_BYTES,
            align: BUFFER_ALIGN,
        },
        Phase::SettingAqa => Action::Write32 { address: address_at(d.bar0, REG_AQA), value: aqa_value(QUEUE_ENTRIES) },
        Phase::SettingAsq => Action::Write64 { address: address_at(d.bar0, REG_ASQ), value: d.submission_queue },
        Phase::SettingAcq => Action::Write64 { address: address_at(d.bar0, REG_ACQ), value: d.completion_queue },
        Phase::Submitting => Action::WriteCommand {
            address: d.submission_queue,
            command: NvmeCommand {
                opcode: OPCODE_IDENTIFY,
                flags: 0,
                cid: IDENTIFY_COMMAND_ID,
                nsid: 0,
                mptr: 0,
                prp1: d.identify_buffer,
                prp2: 0,
                cdw10: CNS_IDENTIFY_CONTROLLER,
                cdw11: 0,
                cdw12: 0,
                cdw13: 0,
                cdw14: 0,
                cdw15: 0,
            },
        },
        Phase::RingingDoorbell => Action::Write32 { address: address_at(d.bar0, REG_SQ0_TAIL_DOORBELL), value: 1 },
        Phase::PollingCompletion => Action::Read32 {
            address: address_at(d.completion_queue, COMPLETION_STATUS_OFFSET),
        },
        Phase::ReadingIdentify => Action::ReadBytes { address: d.identify_buffer, len: IDENTIFY_HEAD_BYTES },
        Phase::Finished => Action::Finish { error: None },
        Phase::Failed(e) => Action::Finish { error: Some(e) },
    }
}

/// The driver in state `d` with its phase replaced.
pub open spec fn in_phase(d: NvmeDriver, p: Phase) -> NvmeDriver {
    NvmeDriver { phase: p, ..d }
}

/// The state after `e` was observed in state `d`. An event that does not
/// answer the pending action leaves the state unchanged.
pub open spec fn next_state(d: NvmeDriver, e: Event) -> NvmeDriver {
    match (d.phase, e) {
        (Phase::Scanning, Event::Device(dev)) => if is_nvme_spec(dev.class, dev.subclass) {
            NvmeDriver { phase: Phase::ReadingBar, device: dev, ..d }
        } else {
            d
        },
        (Phase::Scanning, Event::ScanEnd) => in_phase(d, Phase::Failed(NvmeError::NotFound)),
        (Phase::ReadingBar, Event::Bar(bar)) => NvmeDriver {
            phase: Phase::ReadingCap,
            bar0: (bar - bar % 16) as u64,
            ..d
        },
        (Phase::ReadingCap, Event::Value64(cap)) => NvmeDriver { phase: Phase::MaskingInterrupts, cap, ..d },
        (Phase::MaskingInterrupts, Event::Done) => in_phase(d, Phase::ClearingInterrupts),
        (Phase::ClearingInterrupts, Event::Done) => in_phase(d, Phase::Configuring),
        (Phase::Configuring, Event::Done) => NvmeDriver {
            phase: Phase::PollingReady,
            ready: Poller { polls: 0, budget: READY_POLL_BUDGET },
            ..d
        },
        (Phase::PollingReady, Event::Value32(csts)) => {
            let (p, st) = poll_step(d.ready, csts);
            NvmeDriver {
                phase: match st {
                    PollStatus::Ready => Phase::Allocating,
                    PollStatus::Retry => Phase::Waiting,
                    PollStatus::Exhausted => Phase::Failed(NvmeError::NotReady),
                },
                ready: p,
                ..d
            }
        },
        (Phase::Waiting, Event::Done) => in_phase(d, Phase::PollingReady),
        (Phase::Allocating, Event::Buffers { submission, completion, identify }) => NvmeDriver {
            phase: Phase::SettingAqa,
            submission_queue: submission,
            completion_queue: completion,
            identify_buffer: identify,
            ..d
        },
        (Phase::SettingAqa, Event::Done) => in_phase(d, Phase::SettingAsq),
        (Phase::SettingAsq, Event::Done) => in_phase(d, Phase::SettingAcq),
        (Phase::SettingAcq, Event::Done) => in_phase(d, Phase::Submitting),
        (Phase::Submitting, Event::Done) => in_phase(d, Phase::RingingDoorbell),
        (Phase::RingingDoorbell, Event::Done) => NvmeDriver {
            phase: Phase::PollingCompletion,
            completion: Poller { polls: 0, budget: COMPLETION_POLL_BUDGET },
            ..d
        },
        (Phase::PollingCompletion, Event::Value32(word)) => {
            let (p, st) = poll_step(d.completion, word);
            NvmeDriver {
                phase: match st {
                    PollStatus::Ready => Phase::ReadingIdentify,
                    PollStatus::Retry => Phase::PollingCompletion,
                    PollStatus::Exhausted => Phase::Failed(NvmeError::CompletionTimeout { last_status: word }),
                },
                completion: p,
                status: word,
                ..d
            }
        },
        (Phase::ReadingIdentify, Event::Bytes(bytes)) => NvmeDriver {
            phase: Phase::Finished,
            identify_head: bytes,
            ..d
        },
        _ => d,
    }
}

/// Answering the pending CSTS reads with `obs`, and each delay in between,
/// until the driver leaves the ready wait or the words run out.
pub open spec fn ready_wait(d: NvmeDriver, obs: Seq<u32>) -> NvmeDriver
    decreases obs.len(),
{
    if obs.len() == 0 {
        d
    } else {
        let d1 = next_state(d, Event::Value32(obs[0]));
        if d1.phase == Phase::Waiting {
            ready_wait(next_state(d1, Event::Done), obs.drop_first())
        } else {
            d1
        }
    }
}

/// Answering the pending completion reads with `obs` until the driver leaves
/// the completion wait or the words run out.
pub open spec fn completion_wait(d: NvmeDriver, obs: Seq<u32>) -> NvmeDriver
    decreases obs.len(),
{
    if obs.len() == 0 {
        d
    } else {
        let d1 = next_state(d, Event::Value32(obs[0]));
        if d1.phase == Phase::PollingCompletion {
            completion_wait(d1, obs.drop_first())
        } else {
            d1
        }
    }
}

proof fn lemma_ready_wait_follows_poller(d: NvmeDriver, obs: Seq<u32>)
    requires
        d.phase == Phase::PollingReady,
        d.ready.wf(),
    ensures
        ({
            let (p, st) = poll_run(d.ready, obs);
            let e = ready_wait(d, obs);
            &&& e.ready == p
            &&& st == PollStatus::Ready ==> e.phase == Phase::Allocating
            &&& st == PollStatus::Exhausted ==> e.phase == Phase::Failed(NvmeError::NotReady)
        }),
    decreases obs.len(),
{
    if obs.len() > 0 {
        let d1 = next_state(d, Event::Value32(obs[0]));
        if d1.phase == Phase::Waiting {
            lemma_ready_wait_follows_poller(next_state(d1, Event::Done), obs.drop_first());
        }
    }
}

proof fn lemma_completion_wait_follows_poller(d: NvmeDriver, obs: Seq<u32>)
    requires
        d.phase == Phase::PollingCompletion,
        d.completion.wf(),
    ensures
        ({
            let (p, st) = poll_run(d.completion, obs);
            let e = completion_wait(d, obs);
            &&& e.completion == p
            &&& st != PollStatus::Retry ==> {
                &&& d.completion.polls < p.polls <= d.completion.polls + obs.len()
                &&& e.status == obs[p.polls - d.completion.polls - 1]
            }
            &&& st == PollStatus::Ready ==> e.phase == Phase::ReadingIdentify
            &&& st == PollStatus::Exhausted ==> e.phase == Phase::Failed(
                NvmeError::CompletionTimeout { last_status: e.status },
            )
        }),
    decreases obs.len(),
{
    if obs.len() > 0 {
        let d1 = next_state(d, Event::Value32(obs[0]));
        if d1.phase == Phase::PollingCompletion {
            let rest = obs.drop_first();
            lemma_completion_wait_follows_poller(d1, rest);
            let (p, st) = poll_run(d1.completion, rest);
            if st != PollStatus::Retry {
                assert(rest[p.polls - d1.completion.polls - 1] == obs[p.polls - d.completion.polls - 1]);
            }
        }
    }
}

/// Once the configuration is written, the driver reads CSTS with a delay
/// between reads. Given at least `READY_POLL_BUDGET` observed words, it goes
/// on to allocate the queues right after the first word whose bit 0 is set
/// when that word is among the first `READY_POLL_BUDGET`, having read exactly
/// that many; otherwise it stops with `NotReady` after exactly
/// `READY_POLL_BUDGET` reads.
pub proof fn lemma_ready_wait(d: NvmeDriver, obs: Seq<u32>)
    requires
        d.phase == Phase::Configuring,
        obs.len() >= READY_POLL_BUDGET,
    ensures
        forall|k: int|
            0 <= k < READY_POLL_BUDGET && bit0(#[trigger] obs[k]) && (forall|j: int| 0 <= j < k ==> !bit0(#[trigger] obs[j]))
                ==> ({
                let e = ready_wait(next_state(d, Event::Done), obs);
                e.phase == Phase::Allocating && e.ready.polls == k + 1
            }),
        (forall|j: int| 0 <= j < READY_POLL_BUDGET ==> !bit0(#[trigger] obs[j])) ==> ({
            let e = ready_wait(next_state(d, Event::Done), obs);
            e.phase == Phase::Failed(NvmeError::NotReady) && e.ready.polls == READY_POLL_BUDGET
        }),
{
    let d0 = next_state(d, Event::Done);
    lemma_poll_outcome(READY_POLL_BUDGET, obs);
    lemma_ready_wait_follows_poller(d0, obs);
}

/// Once the doorbell is rung, the driver reads the completion status with no
/// delay. Given at least `COMPLETION_POLL_BUDGET` observed words, it goes on
/// to read the Identify data right after the first word whose phase tag is
/// set when that word is among the first `COMPLETION_POLL_BUDGET`, having read
/// exactly that many; otherwise it stops with a completion timeout after
/// exactly `COMPLETION_POLL_BUDGET` reads.
pub proof fn lemma_completion_wait(d: NvmeDriver, obs: Seq<u32>)
    requires
        d.phase == Phase::RingingDoorbell,
        obs.len() >= COMPLETION_POLL_BUDGET,
    ensures
        forall|k: int|
            0 <= k < COMPLETION_POLL_BUDGET && bit0(#[trigger] obs[k]) && (forall|j: int| 0 <= j < k ==> !bit0(#[trigger] obs[j]))
                ==> ({
                let e = completion_wait(next_state(d, Event::Done), obs);
                e.phase == Phase::ReadingIdentify && e.completion.polls == k + 1 && e.status == obs[k]
            }),
        (forall|j: int| 0 <= j < COMPLETION_POLL_BUDGET ==> !bit0(#[trigger] obs[j])) ==> ({
            let e = completion_wait(next_state(d, Event::Done), obs);
            &&& e.phase == Phase::Failed(NvmeError::CompletionTimeout { last_status: obs[COMPLETION_POLL_BUDGET - 1] })
            &&& e.completion.polls == COMPLETION_POLL_BUDGET
        }),
{
    let d0 = next_state(d, Event::Done);
    lemma_poll_outcome(COMPLETION_POLL_BUDGET, obs);
    lemma_completion_wait_follows_poller(d0, obs);
}

impl NvmeDriver {
    /// The state invariant: a poller in use has observations left.
    pub open spec fn wf(&self) -> bool {
        &&& (self.phase == Phase::PollingReady || self.phase == Phase::Waiting) ==> {
            &&& self.ready.wf()
            &&& self.ready.budget == READY_POLL_BUDGET
        }
        &&& self.phase == Phase::PollingCompletion ==> {
            &&& self.completion.wf()
            &&& self.completion.budget == COMPLETION_POLL_BUDGET
        }
    }

    /// A driver about to look for a controller among the PCI devices.
    pub fn new() -> (r: NvmeDriver)
        ensures
            r.wf(),
            r.phase == Phase::Scanning,
            r.identify_head@.len() == 0,
    {
        let none = PciDevice {
            bus: 0,
            slot: 0,
            function: 0,
            vendor_id: 0,
            device_id: 0,
            class: 0,
            subclass: 0,
        };
        NvmeDriver {
            phase: Phase::Scanning,
            device: none,
            bar0: 0,
            cap: 0,
            ready: Poller { polls: 0, budget: READY_POLL_BUDGET },
            completion: Poller { polls: 0, budget: COMPLETION_POLL_BUDGET },
            submission_queue: 0,
            completion_queue: 0,
            identify_buffer: 0,
            status: 0,
            identify_head: Vec::new(),
        }
    }

    /// The outside work the driver waits for.
    pub fn pending_action(&self) -> (r: Action)
        ensures
            r == action_of(*self),
    {
        match self.phase {
            Phase::Scanning => Action::NextDevice,
            Phase::ReadingBar => Action::ReadBar { device: self.device, index: 0 },
            Phase::ReadingCap => Action::Read64 { address: register_address(self.bar0, REG_CAP) },
            Phase::MaskingInterrupts => Action::Write32 {
                address: register_address(self.bar0, REG_INTMS),
                value: 0xFFFF_FFFF,
            },
            Phase::ClearingInterrupts => Action::Write32 {
                address: register_address(self.bar0, REG_INTMC),
                value: 0xFFFF_FFFF,
            },
            Phase::Configuring => Action::Write32 {
                address: register_address(self.bar0, REG_CC),
                value: controller_configuration(doorbell_stride(self.cap)),
            },
            Phase::PollingReady => Action::Read32 { address: register_address(self.bar0, REG_CSTS) },
            Phase::Waiting => Action::Delay { cycles: READY_DELAY_CYCLES },
            Phase::Allocating => Action::Allocate {
                queue_bytes: QUEUE_ENTRIES * ENTRY_BYTES,
                buffer_bytes: IDENTIFY_BUFFER_BYTES,
                align: BUFFER_ALIGN,
            },
            Phase::SettingAqa => Action::Write32 {
                address: register_address(self.bar0, REG_AQA),
                value: admin_queue_attributes(QUEUE_ENTRIES),
            },
            Phase::SettingAsq => Action::Write64 {
                address: register_address(self.bar0, REG_ASQ),
                value: self.submission_queue,
            },
            Phase::SettingAcq => Action::Write64 {
                address: register_address(self.bar0, REG_ACQ),
                value: self.completion_queue,
            },
            Phase::Submitting => Action::WriteCommand {
                address: self.submission_queue,
                command: NvmeCommand::identify_controller(self.identify_buffer),
            },
            Phase::RingingDoorbell => Action::Write32 {
                address: register_address(self.bar0, REG_SQ0_TAIL_DOORBELL),
                value: 1,
            },
            Phase::PollingCompletion => Action::Read32 {
                address: register_address(self.completion_queue, COMPLETION_STATUS_OFFSET),
            },
            Phase::ReadingIdentify => Action::ReadBytes {
                address: self.identify_buffer,
                len: IDENTIFY_HEAD_BYTES,
            },
            Phase::Finished => Action::Finish { error: None },
            Phase::Failed(e) => Action::Finish { error: Some(e) },
        }
    }

    /// Takes what the caller observed while performing the pending action.
    pub fn handle(&mut self, event: Event)
        requires
            old(self).wf(),
        ensures
            final(self).wf(),
            *final(self) == next_state(*old(self), event),
    {
        match event {
            Event::Device(dev) => {
                if self.phase == Phase::Scanning && is_nvme(dev.class, dev.subclass) {
                    self.device = dev;
                    self.phase = Phase::ReadingBar;
                }
            },
            Event::ScanEnd => {
                if self.phase == Phase::Scanning {
                    self.phase = Phase::Failed(NvmeError::NotFound);
                }
            },
            Event::Bar(bar) => {
                if self.phase == Phase::ReadingBar {
                    self.bar0 = bar_base(bar);
                    self.phase = Phase::ReadingCap;
                }
            },
            Event::Value64(cap) => {
                if self.phase == Phase::ReadingCap {
                    self.cap = cap;
                    self.phase = Phase::MaskingInterrupts;
                }
            },
            Event::Done => {
                match self.phase {
                    Phase::MaskingInterrupts => {
                        self.phase = Phase::ClearingInterrupts;
                    },
                    Phase::ClearingInterrupts => {
                        self.phase = Phase::Configuring;
                    },
                    Phase::Configuring => {
                        self.ready = Poller::new(READY_POLL_BUDGET);
                        self.phase = Phase::PollingReady;
                    },
                    Phase::Waiting => {
                        self.phase = Phase::PollingReady;
                    },
                    Phase::SettingAqa => {
                        self.phase = Phase::SettingAsq;
                    },
                    Phase::SettingAsq => {
                        self.phase = Phase::SettingAcq;
                    },
                    Phase::SettingAcq => {
                        self.phase = Phase::Submitting;
                    },
                    Phase::Submitting => {
                        self.phase = Phase::RingingDoorbell;
                    },
                    Phase::RingingDoorbell => {
                        self.completion = Poller::new(COMPLETION_POLL_BUDGET);
                        self.phase = Phase::PollingCompletion;
                    },
                    _ => {},
                }
            },
            Event::Value32(word) => {
                if self.phase == Phase::PollingReady {
                    let st = self.ready.observe(word);
                    self.phase = match st {
                        PollStatus::Ready => Phase::Allocating,
                        PollStatus::Retry => Phase::Waiting,
                        PollStatus::Exhausted => Phase::Failed(NvmeError::NotReady),
                    };
                } else if self.phase == Phase::PollingCompletion {
                    let st = self.completion.observe(word);
                    self.status = word;
                    self.phase = match st {
                        PollStatus::Ready => Phase::ReadingIdentify,
                        PollStatus::Retry => Phase::PollingCompletion,
                        PollStatus::Exhausted => Phase::Failed(
                            NvmeError::CompletionTimeout { last_status: word },
                        ),
                    };
                }
            },
            Event::Buffers { submission, completion, identify } => {
                if self.phase == Phase::Allocating {
                    self.submission_queue = submission;
                    self.completion_queue = completion;
                    self.identify_buffer = identify;
                    self.phase = Phase::SettingAqa;
                }
            },
            Event::Bytes(bytes) => {
                if self.phase == Phase::ReadingIdentify {
                    self.identify_head = bytes;
                    self.phase = Phase::Finished;
                }
            },
        }
    }

    /// The outcome of a finished bring-up.
    pub fn into_report(self) -> (r: Result<Report, NvmeError>)
        requires
            self.phase == Phase::Finished || self.phase is Failed,
        ensures
            self.phase == Phase::Finished ==> r == Ok::<Report, NvmeError>(
                Report {
                    device: self.device,
                    bar0: self.bar0,
                    cap: self.cap,
                    status: self.status,
                    identify_head: self.identify_head,
                },
            ),
            self.phase matches Phase::Failed(e) ==> r == Err::<Report, NvmeError>(e),
    {
        match self.phase {
            Phase::Failed(e) => Err(e),
            _ => Ok(
                Report {
                    device: self.device,
                    bar0: self.bar0,
                    cap: self.cap,
                    status: self.status,
                    identify_head: self.identify_head,
                },
            ),
        }
    }
}

} // verus!
