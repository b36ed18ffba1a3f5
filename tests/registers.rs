use aisos_hw::nvme::{
    admin_queue_attributes, controller_configuration, doorbell_stride, is_nvme, max_queue_entries,
    register_address, timeout_ms, NvmeCommand,
};
use aisos_hw::poll::{PollStatus, Poller};

#[test]
fn cc_value_decomposes_into_its_fields() {
    let cc = controller_configuration(0);
    assert_eq!(cc & 1, 1);
    assert_eq!((cc >> 20) & 0x7, 6);
    assert_eq!((cc >> 16) & 0x7, 0);
    assert_eq!((cc >> 11) & 0xF, 4);
    assert_eq!(cc & !0x0077_780F, 0);
    assert_eq!(cc, 0x0060_2001);
}

#[test]
fn cc_value_carries_the_doorbell_stride() {
    assert_eq!(controller_configuration(6) & 0xF, 7);
}

#[test]
fn capability_fields() {
    let cap: u64 = (3u64 << 32) | (20u64 << 24) | 63;
    assert_eq!(max_queue_entries(cap), 63);
    assert_eq!(doorbell_stride(cap), 3);
    assert_eq!(timeout_ms(cap), 10_000);
}

#[test]
fn admin_queue_attribute_packing() {
    assert_eq!(admin_queue_attributes(64), 0x003F_003F);
    assert_eq!(admin_queue_attributes(1), 0);
}

#[test]
fn register_addresses_wrap() {
    assert_eq!(register_address(0xFEBF_0000, 0x1C), 0xFEBF_001C);
    assert_eq!(register_address(u64::MAX - 1, 0x1000), 0xFFE);
}

#[test]
fn class_filter() {
    assert!(is_nvme(0x01, 0x08));
    assert!(!is_nvme(0x01, 0x06));
    assert!(!is_nvme(0x02, 0x08));
}

#[test]
fn identify_command_layout() {
    let dwords = NvmeCommand::identify_controller(0x1_2345_6000).to_dwords();
    assert_eq!(dwords.len(), 16);
    assert_eq!(dwords[0], 0x0001_0006);
    assert_eq!(dwords[6], 0x2345_6000);
    assert_eq!(dwords[7], 0x1);
    assert_eq!(dwords[10], 1);
    for i in [1, 2, 3, 4, 5, 8, 9, 11, 12, 13, 14, 15] {
        assert_eq!(dwords[i], 0);
    }
}

fn run(budget: u32, ready_after: Option<u32>) -> (PollStatus, u32) {
    let mut p = Poller::new(budget);
    loop {
        let word = match ready_after {
            Some(n) if p.polls >= n => 1,
            _ => 0,
        };
        let st = p.observe(word);
        if st != PollStatus::Retry {
            return (st, p.polls);
        }
    }
}

#[test]
fn ready_poll_sees_readiness_after_500_polls() {
    assert_eq!(run(1000, Some(500)), (PollStatus::Ready, 501));
}

#[test]
fn ready_poll_gives_up_after_its_budget() {
    assert_eq!(run(1000, None), (PollStatus::Exhausted, 1000));
}

#[test]
fn completion_poll_sees_the_phase_tag() {
    assert_eq!(run(1_000_000, Some(12_345)), (PollStatus::Ready, 12_346));
}

#[test]
fn completion_poll_gives_up_after_its_budget() {
    assert_eq!(run(1_000_000, None), (PollStatus::Exhausted, 1_000_000));
}

#[test]
fn poll_ready_on_last_allowed_observation() {
    assert_eq!(run(3, Some(2)), (PollStatus::Ready, 3));
}
