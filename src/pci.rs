//! Enumeration of the PCI configuration space through the address/data port
//! pair, and assembly of base address registers.
use vstd::prelude::*;

verus! {

/// Number of (bus, slot, function) triples: 256 buses, 32 slots, 8 functions.
pub const PCI_FUNCTION_COUNT: u32 = 65536;

/// Vendor identifier read from a location where no device answers.
pub const NO_DEVICE: u16 = 0xFFFF;

/// Configuration offsets of the words the enumerator reads.
pub const VENDOR_ID_OFFSET: u8 = 0x00;
pub const DEVICE_ID_OFFSET: u8 = 0x02;
pub const CLASS_OFFSET: u8 = 0x0A;

/// Identity of one function found on the PCI bus.
#[derive(Clone, Copy, Debug, PartialEq, Eq, Structural)]
pub struct PciDevice {
    pub bus: u8,
    pub slot: u8,
    pub function: u8,
    pub vendor_id: u16,
    pub device_id: u16,
    pub class: u8,
    pub subclass: u8,
}

/// The 32-bit value written to the address port to select a configuration dword.
pub open spec fn config_address_spec(bus: u8, slot: u8, function: u8, offset: u8) -> u32 {
    0x8000_0000u32 | ((bus as u32) << 16u32) | ((slot as u32) << 11u32) | ((function as u32)
        << 8u32) | (offset as u32)
}

/// The 16-bit word at configuration `offset`, taken from the dword read at `offset & 0xFC`.
pub open spec fn word_at(dword: u32, offset: u8) -> u16 {
    if offset & 2 == 0 {
        (dword % 0x10000) as u16
    } else {
        (dword / 0x10000) as u16
    }
}

pub open spec fn bus_of(index: int) -> u8 {
    (index / 256) as u8
}

pub open spec fn slot_of(index: int) -> u8 {
    ((index / 8) % 32) as u8
}

pub open spec fn function_of(index: int) -> u8 {
    (index % 8) as u8
}

/// Composes the configuration address for a dword; the low two bits of `offset`
/// are cleared, as the mechanism only addresses whole dwords.
pub fn config_address(bus: u8, slot: u8, function: u8, offset: u8) -> (r: u32)
    ensures
        r == config_address_spec(bus, slot, function, offset & 0xFC),
{
    0x8000_0000u32 | ((bus as u32) << 16u32) | ((slot as u32) << 11u32) | ((function as u32)
        << 8u32) | ((offset & 0xFC) as u32)
}

/// Extracts the 16-bit word at configuration `offset` from the dword that was
/// read at `offset & 0xFC`.
pub fn pci_read_word(dword: u32, offset: u8) -> (r: u16)
    ensures
        r == word_at(dword, offset),
{
    let r: u16 = if offset & 2 == 0 {
        (dword & 0xFFFF) as u16
    } else {
        (dword >> 16u32) as u16
    };
    assert(dword & 0xFFFF == dword % 0x10000 && dword >> 16u32 == dword / 0x10000) by (bit_vector);
    r
}

/// A restartable enumeration of the configuration space, bus slowest and
/// function fastest. `next` indexes the triple `bus * 256 + slot * 8 + function`;
/// `stage` says which of the vendor (0), device (1) or class (2) words is read next.
#[derive(Clone, Copy, Debug)]
pub struct PciScan {
    pub next: u32,
    pub stage: u8,
    pub vendor_id: u16,
    pub device_id: u16,
}

pub open spec fn stage_offset(stage: u8) -> u8 {
    if stage == 0 {
        VENDOR_ID_OFFSET
    } else if stage == 1 {
        DEVICE_ID_OFFSET
    } else {
        CLASS_OFFSET
    }
}

/// The device at triple `index` with the identity words read there.
pub open spec fn device_at(index: int, vendor_id: u16, device_id: u16, class_word: u16) -> PciDevice {
    PciDevice {
        bus: bus_of(index),
        slot: slot_of(index),
        function: function_of(index),
        vendor_id,
        device_id,
        class: (class_word / 256) as u8,
        subclass: (class_word % 256) as u8,
    }
}

/// One step of the enumeration: the state after `dword` was read at the pending
/// address, and the device completed by it, if any.
pub open spec fn scan_step(s: PciScan, dword: u32) -> (PciScan, Option<PciDevice>) {
    if s.stage == 0 {
        let vendor = word_at(dword, VENDOR_ID_OFFSET);
        if vendor == NO_DEVICE {
            (PciScan { next: (s.next + 1) as u32, stage: 0, ..s }, None)
        } else {
            (PciScan { stage: 1, vendor_id: vendor, ..s }, None)
        }
    } else if s.stage == 1 {
        (PciScan { stage: 2, device_id: word_at(dword, DEVICE_ID_OFFSET), ..s }, None)
    } else {
        (
            PciScan { next: (s.next + 1) as u32, stage: 0, ..s },
            Some(device_at(s.next as int, s.vendor_id, s.device_id, word_at(dword, CLASS_OFFSET))),
        )
    }
}

impl PciScan {
    pub open spec fn wf(&self) -> bool {
        &&& self.next <= PCI_FUNCTION_COUNT
        &&& self.stage <= 2
        &&& self.next == PCI_FUNCTION_COUNT ==> self.stage == 0
        &&& self.stage >= 1 ==> self.vendor_id != NO_DEVICE
    }

    pub open spec fn finished(&self) -> bool {
        self.next == PCI_FUNCTION_COUNT
    }

    /// The configuration address whose dword the enumeration needs next.
    pub open spec fn pending_spec(&self) -> u32 {
        config_address_spec(
            bus_of(self.next as int),
            slot_of(self.next as int),
            function_of(self.next as int),
            stage_offset(self.stage) & 0xFC,
        )
    }

    /// The address to read next, or `None` once every triple was probed.
    pub fn pending_read(&self) -> (r: Option<u32>)
        requires
            self.wf(),
        ensures
            self.finished() ==> r is None,
            !self.finished() ==> r == Some(self.pending_spec()),
    {
        if self.next >= PCI_FUNCTION_COUNT {
            return None;
        }
        let bus = (self.next / 256) as u8;
        let slot = ((self.next / 8) % 32) as u8;
        let function = (self.next % 8) as u8;
        let offset: u8 = if self.stage == 0 {
            VENDOR_ID_OFFSET
        } else if self.stage == 1 {
            DEVICE_ID_OFFSET
        } else {
            CLASS_OFFSET
        };
        Some(config_address(bus, slot, function, offset))
    }

    /// Takes the dword read at the pending address and returns the device that
    /// it completes. A vendor word of `NO_DEVICE` skips the triple at once.
    pub fn supply(&mut self, dword: u32) -> (r: Option<PciDevice>)
        requires
            old(self).wf(),
            !old(self).finished(),
        ensures
            final(self).wf(),
            (*final(self), r) == scan_step(*old(self), dword),
            r matches Some(d) ==> d.vendor_id != NO_DEVICE,
    {
        if self.stage == 0 {
            let vendor = pci_read_word(dword, VENDOR_ID_OFFSET);
            if vendor == NO_DEVICE {
                self.next = self.next + 1;
            } else {
                self.vendor_id = vendor;
                self.stage = 1;
            }
            None
        } else if self.stage == 1 {
            self.device_id = pci_read_word(dword, DEVICE_ID_OFFSET);
            self.stage = 2;
            None
        } else {
            let class_word = pci_read_word(dword, CLASS_OFFSET);
            let index = self.next;
            let dev = PciDevice {
                bus: (index / 256) as u8,
                slot: ((index / 8) % 32) as u8,
                function: (index % 8) as u8,
                vendor_id: self.vendor_id,
                device_id: self.device_id,
                class: (class_word / 256) as u8,
                subclass: (class_word % 256) as u8,
            };
            self.next = self.next + 1;
            self.stage = 0;
            Some(dev)
        }
    }
}

/// Starts an enumeration at bus 0, slot 0, function 0.
pub open spec fn scan_start() -> PciScan {
    PciScan { next: 0, stage: 0, vendor_id: 0, device_id: 0 }
}

pub fn devices() -> (r: PciScan)
    ensures
        r.wf(),
        r == scan_start(),
{
    PciScan { next: 0, stage: 0, vendor_id: 0, device_id: 0 }
}


/// Configuration offset of the low dword of base address register `index`.
pub open spec fn bar_offset(index: u8) -> u8 {
    (0x10 + 4 * index) as u8
}

impl PciDevice {
    /// Configuration addresses of the low and the high dword of base address
    /// register `index` (0 to 5).
    pub fn bar_addresses(&self, index: u8) -> (r: (u32, u32))
        requires
            index < 6,
        ensures
            r.0 == config_address_spec(self.bus, self.slot, self.function, bar_offset(index)),
            r.1 == config_address_spec(self.bus, self.slot, self.function, (bar_offset(index) + 4) as u8),
    {
        let offset: u8 = 0x10 + index * 4;
        let low = config_address(self.bus, self.slot, self.function, offset);
        let high = config_address(self.bus, self.slot, self.function, offset + 4);
        assert(offset & 0xFC == offset && (offset + 4) as u8 & 0xFC == (offset + 4) as u8) by (bit_vector)
            requires
                offset == 0x10 + index * 4,
                index < 6,
        ;
        (low, high)
    }

    /// Combines the two dwords of a 64-bit base address register, high dword
    /// above low. The flag bits are kept: see `bar_base`.
    pub fn read_bar(low: u32, high: u32) -> (r: u64)
        ensures
            r as int == high as int * 0x1_0000_0000 + low as int,
    {
        let r = ((high as u64) << 32u64) | (low as u64);
        assert(((high as u64) << 32u64) | (low as u64) == high as u64 * 0x1_0000_0000 + low as u64)
            by (bit_vector);
        r
    }
}

/// The memory address held in a base address register: the four flag bits cleared.
pub fn bar_base(bar: u64) -> (r: u64)
    ensures
        r as int == bar as int - bar as int % 16,
{
    let r = bar & !0xFu64;
    assert(bar & !0xFu64 == bar - bar % 16) by (bit_vector);
    r
}

/// The dword that the configuration space `cfg` holds at the scan's pending address.
pub open spec fn feed(s: PciScan, cfg: spec_fn(u32) -> u32) -> (PciScan, Option<PciDevice>) {
    scan_step(s, cfg(s.pending_spec()))
}

/// The device that the configuration space `cfg` shows at triple `index`, if any.
pub open spec fn present(cfg: spec_fn(u32) -> u32, index: int) -> Option<PciDevice> {
    let bus = bus_of(index);
    let slot = slot_of(index);
    let function = function_of(index);
    let vendor = word_at(cfg(config_address_spec(bus, slot, function, VENDOR_ID_OFFSET & 0xFC)), VENDOR_ID_OFFSET);
    let device = word_at(cfg(config_address_spec(bus, slot, function, DEVICE_ID_OFFSET & 0xFC)), DEVICE_ID_OFFSET);
    let class_word = word_at(cfg(config_address_spec(bus, slot, function, CLASS_OFFSET & 0xFC)), CLASS_OFFSET);
    if vendor == NO_DEVICE {
        None
    } else {
        Some(device_at(index, vendor, device, class_word))
    }
}

/// Probing one triple of a configuration space: where its vendor word is
/// `NO_DEVICE` the scan yields nothing and moves to the next triple after that
/// single read; otherwise it yields exactly the device found there, after three
/// reads, and then moves to the next triple.
pub proof fn lemma_probe_triple(s: PciScan, cfg: spec_fn(u32) -> u32)
    requires
        s.wf(),
        !s.finished(),
        s.stage == 0,
    ensures
        present(cfg, s.next as int) is None ==> ({
            let (s1, r1) = feed(s, cfg);
            r1 is None && s1.next == s.next + 1 && s1.stage == 0
        }),
        present(cfg, s.next as int) is Some ==> ({
            let (s1, r1) = feed(s, cfg);
            let (s2, r2) = feed(s1, cfg);
            let (s3, r3) = feed(s2, cfg);
            &&& r1 is None && s1.stage == 1 && s1.next == s.next
            &&& r2 is None && s2.stage == 2 && s2.next == s.next
            &&& r3 == present(cfg, s.next as int)
            &&& s3.next == s.next + 1 && s3.stage == 0
        }),
{
}

/// Reads left before the scan is over: three per triple still to probe, less
/// the words already read of the current one.
pub open spec fn scan_measure(s: PciScan) -> int {
    (PCI_FUNCTION_COUNT - s.next) * 3 - s.stage
}

/// The devices a scan from `s` yields when every read is answered from `cfg`.
pub open spec fn run_scan(s: PciScan, cfg: spec_fn(u32) -> u32) -> Seq<PciDevice>
    decreases scan_measure(s),
{
    if !s.wf() || s.finished() {
        Seq::empty()
    } else {
        let (s1, r) = feed(s, cfg);
        let rest = run_scan(s1, cfg);
        match r {
            Some(d) => seq![d] + rest,
            None => rest,
        }
    }
}

/// The devices that `cfg` shows at triples `index` onwards, in scan order.
pub open spec fn present_from(cfg: spec_fn(u32) -> u32, index: int) -> Seq<PciDevice>
    decreases PCI_FUNCTION_COUNT - index,
{
    if index < 0 || index >= PCI_FUNCTION_COUNT {
        Seq::empty()
    } else {
        match present(cfg, index) {
            Some(d) => seq![d] + present_from(cfg, index + 1),
            None => present_from(cfg, index + 1),
        }
    }
}

pub open spec fn triple_index(bus: u8, slot: u8, function: u8) -> int {
    bus as int * 256 + slot as int * 8 + function as int
}

proof fn lemma_run_from(s: PciScan, cfg: spec_fn(u32) -> u32)
    requires
        s.wf(),
        s.stage == 0,
    ensures
        run_scan(s, cfg) == present_from(cfg, s.next as int),
    decreases PCI_FUNCTION_COUNT - s.next,
{
    if !s.finished() {
        lemma_probe_triple(s, cfg);
        let (s1, r1) = feed(s, cfg);
        if present(cfg, s.next as int) is None {
            lemma_run_from(s1, cfg);
        } else {
            let (s2, r2) = feed(s1, cfg);
            let (s3, r3) = feed(s2, cfg);
            lemma_run_from(s3, cfg);
            assert(run_scan(s2, cfg) == seq![r3->0] + run_scan(s3, cfg));
            assert(run_scan(s1, cfg) == run_scan(s2, cfg));
        }
    }
}

proof fn lemma_triple_of_index(index: int)
    requires
        0 <= index < PCI_FUNCTION_COUNT,
    ensures
        triple_index(bus_of(index), slot_of(index), function_of(index)) == index,
{
    assert(index == (index / 256) * 256 + ((index / 8) % 32) * 8 + index % 8) by (nonlinear_arith)
        requires
            0 <= index < 65536,
    ;
}

proof fn lemma_index_of_triple(bus: u8, slot: u8, function: u8)
    requires
        slot < 32,
        function < 8,
    ensures
        bus_of(triple_index(bus, slot, function)) == bus,
        slot_of(triple_index(bus, slot, function)) == slot,
        function_of(triple_index(bus, slot, function)) == function,
        0 <= triple_index(bus, slot, function) < PCI_FUNCTION_COUNT,
{
    let i = triple_index(bus, slot, function);
    assert(i / 256 == bus as int && (i / 8) % 32 == slot as int && i % 8 == function as int) by (nonlinear_arith)
        requires
            i == bus as int * 256 + slot as int * 8 + function as int,
            0 <= bus < 256,
            0 <= slot < 32,
            0 <= function < 8,
    ;
}

proof fn lemma_present_from_sound(cfg: spec_fn(u32) -> u32, index: int)
    requires
        0 <= index,
    ensures
        forall|k: int|
            0 <= k < present_from(cfg, index).len() ==> {
                let d = #[trigger] present_from(cfg, index)[k];
                present(cfg, triple_index(d.bus, d.slot, d.function)) == Some(d)
            },
    decreases PCI_FUNCTION_COUNT - index,
{
    if index < PCI_FUNCTION_COUNT {
        lemma_present_from_sound(cfg, index + 1);
        if let Some(d) = present(cfg, index) {
            lemma_triple_of_index(index);
            let all = present_from(cfg, index);
            let rest = present_from(cfg, index + 1);
            assert(all == seq![d] + rest);
            assert forall|k: int| 0 <= k < all.len() implies {
                let e = #[trigger] all[k];
                present(cfg, triple_index(e.bus, e.slot, e.function)) == Some(e)
            } by {
                if k > 0 {
                    assert(all[k] == rest[k - 1]);
                }
            }
        }
    }
}

/// A full scan from `devices()` whose reads are answered from the
/// configuration space `cfg` yields exactly the devices that `cfg` shows, in
/// bus, slot, function order.
pub proof fn lemma_scan_yields_present(cfg: spec_fn(u32) -> u32)
    ensures
        run_scan(scan_start(), cfg) == present_from(cfg, 0),
{
    lemma_run_from(scan_start(), cfg);
}

/// A full scan never yields a device at a (bus, slot, function) whose vendor
/// word reads `NO_DEVICE`.
pub proof fn lemma_scan_skips_absent(cfg: spec_fn(u32) -> u32, bus: u8, slot: u8, function: u8)
    requires
        slot < 32,
        function < 8,
        word_at(cfg(config_address_spec(bus, slot, function, VENDOR_ID_OFFSET & 0xFC)), VENDOR_ID_OFFSET)
            == NO_DEVICE,
    ensures
        forall|k: int|
            0 <= k < run_scan(scan_start(), cfg).len() ==> {
                let d = #[trigger] run_scan(scan_start(), cfg)[k];
                !(d.bus == bus && d.slot == slot && d.function == function)
            },
{
    lemma_scan_yields_present(cfg);
    lemma_present_from_sound(cfg, 0);
    lemma_index_of_triple(bus, slot, function);
    assert(present(cfg, triple_index(bus, slot, function)) is None);
}

} // verus!
