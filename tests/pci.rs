use aisos_hw::pci::{bar_base, config_address, devices, pci_read_word, PciDevice};

fn nvme_config_space(address: u32) -> u32 {
    let at = |offset: u8| config_address(0, 3, 0, offset);
    if address == at(0x00) {
        0x1234_8086
    } else if address == at(0x08) {
        0x0108_0002
    } else {
        0xFFFF_FFFF
    }
}

fn scan_all(cfg: &dyn Fn(u32) -> u32) -> (Vec<PciDevice>, usize) {
    let mut scan = devices();
    let mut found = Vec::new();
    let mut reads = 0usize;
    while let Some(address) = scan.pending_read() {
        reads += 1;
        if let Some(dev) = scan.supply(cfg(address)) {
            found.push(dev);
        }
    }
    (found, reads)
}

#[test]
fn empty_bus_yields_no_device() {
    let (found, reads) = scan_all(&|_| 0xFFFF_FFFF);
    assert!(found.is_empty());
    assert_eq!(reads, 65536);
}

#[test]
fn single_nvme_device_is_found_with_its_fields() {
    let (found, reads) = scan_all(&nvme_config_space);
    assert_eq!(found.len(), 1);
    assert_eq!(
        found[0],
        PciDevice {
            bus: 0,
            slot: 3,
            function: 0,
            vendor_id: 0x8086,
            device_id: 0x1234,
            class: 0x01,
            subclass: 0x08,
        }
    );
    assert_eq!(reads, 65536 + 2);
}

#[test]
fn devices_come_in_bus_slot_function_order() {
    let present = |address: u32| -> u32 {
        let wanted = [(2u8, 0u8, 1u8), (0, 31, 7), (1, 4, 0)];
        for (b, s, f) in wanted {
            if address & !0xFC == config_address(b, s, f, 0) & !0xFC {
                return 0x0000_1AF4 | ((b as u32) << 16);
            }
        }
        0xFFFF_FFFF
    };
    let (found, _) = scan_all(&present);
    let triples: Vec<(u8, u8, u8)> = found.iter().map(|d| (d.bus, d.slot, d.function)).collect();
    assert_eq!(triples, vec![(0, 31, 7), (1, 4, 0), (2, 0, 1)]);
}

#[test]
fn config_address_layout() {
    assert_eq!(config_address(0, 0, 0, 0), 0x8000_0000);
    assert_eq!(config_address(0x12, 0x1F, 0x7, 0x0A), 0x8012_FF08);
    assert_eq!(config_address(1, 2, 3, 0x10), 0x8001_1310);
}

#[test]
fn word_extraction() {
    assert_eq!(pci_read_word(0x1234_8086, 0x00), 0x8086);
    assert_eq!(pci_read_word(0x1234_8086, 0x02), 0x1234);
    assert_eq!(pci_read_word(0x0108_0002, 0x0A), 0x0108);
}

#[test]
fn bar_combines_high_and_low_dwords() {
    let bar = PciDevice::read_bar(0xFFFF_E004, 0x0000_0001);
    assert_eq!(bar, (0x0000_0001u64 << 32) | 0xFFFF_E004);
    assert_eq!(bar_base(bar), 0x1_FFFF_E000);
    assert_eq!(bar_base(bar) & 0xF, 0);
}

#[test]
fn bar_addresses_follow_the_index() {
    let dev = PciDevice { bus: 0, slot: 3, function: 0, vendor_id: 0x8086, device_id: 0x1234, class: 1, subclass: 8 };
    assert_eq!(dev.bar_addresses(0), (0x8000_1810, 0x8000_1814));
    assert_eq!(dev.bar_addresses(5), (0x8000_1824, 0x8000_1828));
}

#[test]
fn device_on_the_last_triple_is_found() {
    let last = config_address(255, 31, 7, 0);
    let (found, reads) = scan_all(&|address| if address & !0xFC == last { 0x0000_1AF4 } else { 0xFFFF_FFFF });
    assert_eq!(found.len(), 1);
    assert_eq!((found[0].bus, found[0].slot, found[0].function), (255, 31, 7));
    assert_eq!(found[0].vendor_id, 0x1AF4);
    assert_eq!(reads, 65536 + 2);
}
