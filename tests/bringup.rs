use aisos_hw::driver::{
    Action, Event, NvmeDriver, NvmeError, Phase, COMPLETION_POLL_BUDGET, READY_DELAY_CYCLES, READY_POLL_BUDGET,
};
use aisos_hw::nvme::NvmeCommand;
use aisos_hw::pci::PciDevice;

const BAR0: u64 = 0xFEBF_0000;
const SQ: u64 = 0x0010_0000;
const CQ: u64 = 0x0010_1000;
const IDENTIFY: u64 = 0x0010_2000;

struct SimController {
    devices: Vec<PciDevice>,
    cap: u64,
    ready_after: Option<u32>,
    complete_after: Option<u32>,
    status: u32,
    csts_polls: u32,
    completion_polls: u32,
    delays: u32,
    writes32: Vec<(u64, u32)>,
    writes64: Vec<(u64, u64)>,
    commands: Vec<(u64, NvmeCommand)>,
}

fn nvme_device() -> PciDevice {
    PciDevice { bus: 0, slot: 3, function: 0, vendor_id: 0x8086, device_id: 0x1234, class: 0x01, subclass: 0x08 }
}

fn other_device() -> PciDevice {
    PciDevice { bus: 0, slot: 1, function: 0, vendor_id: 0x8086, device_id: 0x100E, class: 0x02, subclass: 0x00 }
}

impl SimController {
    fn new(ready_after: Option<u32>, complete_after: Option<u32>) -> Self {
        SimController {
            devices: vec![other_device(), nvme_device()],
            cap: (20u64 << 24) | 63,
            ready_after,
            complete_after,
            status: 0x0001_0001,
            csts_polls: 0,
            completion_polls: 0,
            delays: 0,
            writes32: Vec::new(),
            writes64: Vec::new(),
            commands: Vec::new(),
        }
    }

    fn answer(&mut self, action: Action) -> Event {
        match action {
            Action::NextDevice => {
                if self.devices.is_empty() {
                    Event::ScanEnd
                } else {
                    Event::Device(self.devices.remove(0))
                }
            }
            Action::ReadBar { device, index } => {
                assert_eq!(device, nvme_device());
                assert_eq!(index, 0);
                Event::Bar(BAR0 | 0x4)
            }
            Action::Read64 { address } => {
                assert_eq!(address, BAR0);
                Event::Value64(self.cap)
            }
            Action::Read32 { address } if address == BAR0 + 0x1C => {
                self.csts_polls += 1;
                let ready = matches!(self.ready_after, Some(n) if self.csts_polls > n);
                Event::Value32(if ready { 1 } else { 0 })
            }
            Action::Read32 { address } => {
                assert_eq!(address, CQ + 12);
                self.completion_polls += 1;
                let posted = matches!(self.complete_after, Some(n) if self.completion_polls > n);
                Event::Value32(if posted { self.status } else { 0 })
            }
            Action::Write32 { address, value } => {
                self.writes32.push((address, value));
                Event::Done
            }
            Action::Write64 { address, value } => {
                self.writes64.push((address, value));
                Event::Done
            }
            Action::Delay { cycles } => {
                assert_eq!(cycles, READY_DELAY_CYCLES);
                self.delays += 1;
                Event::Done
            }
            Action::Allocate { queue_bytes, buffer_bytes, align } => {
                assert_eq!((queue_bytes, buffer_bytes, align), (4096, 4096, 4096));
                Event::Buffers { submission: SQ, completion: CQ, identify: IDENTIFY }
            }
            Action::WriteCommand { address, command } => {
                self.commands.push((address, command));
                Event::Done
            }
            Action::ReadBytes { address, len } => {
                assert_eq!(address, IDENTIFY);
                let mut bytes = vec![0u8; len as usize];
                bytes[..4].copy_from_slice(&[0xAA, 0xBB, 0xCC, 0xDD]);
                Event::Bytes(bytes)
            }
            Action::Finish { .. } => panic!("nothing to answer"),
        }
    }
}

fn drive(sim: &mut SimController) -> NvmeDriver {
    let mut drv = NvmeDriver::new();
    loop {
        let action = drv.pending_action();
        if let Action::Finish { .. } = action {
            return drv;
        }
        let event = sim.answer(action);
        drv.handle(event);
    }
}

#[test]
fn end_to_end_identify() {
    let mut sim = SimController::new(Some(9), Some(99));
    let drv = drive(&mut sim);
    assert_eq!(drv.phase, Phase::Finished);
    assert_eq!(drv.pending_action(), Action::Finish { error: None });
    assert_eq!(sim.csts_polls, 10);
    assert_eq!(sim.delays, 9);
    assert_eq!(sim.completion_polls, 100);
    assert_eq!(
        sim.writes32,
        vec![
            (BAR0 + 0x0C, 0xFFFF_FFFF),
            (BAR0 + 0x10, 0xFFFF_FFFF),
            (BAR0 + 0x14, 0x0060_2001),
            (BAR0 + 0x24, 0x003F_003F),
            (BAR0 + 0x1000, 1),
        ]
    );
    assert_eq!(sim.writes64, vec![(BAR0 + 0x28, SQ), (BAR0 + 0x30, CQ)]);
    assert_eq!(sim.commands, vec![(SQ, NvmeCommand::identify_controller(IDENTIFY))]);
    let report = drv.into_report().unwrap();
    assert_eq!(report.device, nvme_device());
    assert_eq!(report.bar0, BAR0);
    assert_eq!(report.cap, (20u64 << 24) | 63);
    assert_eq!(report.status, 0x0001_0001);
    assert_eq!(report.identify_head.len(), 64);
    assert_eq!(&report.identify_head[..4], &[0xAA, 0xBB, 0xCC, 0xDD]);
}

#[test]
fn no_controller_is_reported() {
    let mut sim = SimController::new(Some(0), Some(0));
    sim.devices = vec![other_device()];
    let drv = drive(&mut sim);
    assert_eq!(drv.pending_action(), Action::Finish { error: Some(NvmeError::NotFound) });
    assert_eq!(drv.into_report().unwrap_err(), NvmeError::NotFound);
}

#[test]
fn controller_that_never_gets_ready_stops_bring_up() {
    let mut sim = SimController::new(None, Some(0));
    let drv = drive(&mut sim);
    assert_eq!(drv.into_report().unwrap_err(), NvmeError::NotReady);
    assert_eq!(sim.csts_polls, READY_POLL_BUDGET);
    assert_eq!(sim.delays, READY_POLL_BUDGET - 1);
    assert!(sim.commands.is_empty());
    assert!(sim.writes64.is_empty());
}

#[test]
fn ready_after_500_polls() {
    let mut sim = SimController::new(Some(500), Some(0));
    let drv = drive(&mut sim);
    assert!(drv.into_report().is_ok());
    assert_eq!(sim.csts_polls, 501);
}

#[test]
fn lost_completion_is_a_timeout() {
    let mut sim = SimController::new(Some(0), None);
    let drv = drive(&mut sim);
    assert_eq!(drv.into_report().unwrap_err(), NvmeError::CompletionTimeout { last_status: 0 });
    assert_eq!(sim.completion_polls, COMPLETION_POLL_BUDGET);
}

#[test]
fn unexpected_event_changes_nothing() {
    let mut drv = NvmeDriver::new();
    drv.handle(Event::Value32(1));
    drv.handle(Event::Done);
    assert_eq!(drv.phase, Phase::Scanning);
    assert_eq!(drv.pending_action(), Action::NextDevice);
}
