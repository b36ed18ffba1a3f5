//! NVMe controller register layout, register values and admin commands.
use vstd::prelude::*;

verus! {

pub const CLASS_MASS_STORAGE: u8 = 0x01;
pub const SUBCLASS_NVME: u8 = 0x08;

/// Byte offsets of the controller registers from BAR0.
pub const REG_CAP: u64 = 0x00;
pub const REG_VS: u64 = 0x08;
pub const REG_INTMS: u64 = 0x0C;
pub const REG_INTMC: u64 = 0x10;
pub const REG_CC: u64 = 0x14;
pub const REG_CSTS: u64 = 0x1C;
pub const REG_AQA: u64 = 0x24;
pub const REG_ASQ: u64 = 0x28;
pub const REG_ACQ: u64 = 0x30;
/// Submission queue 0 tail doorbell, for a doorbell stride of 0.
pub const REG_SQ0_TAIL_DOORBELL: u64 = 0x1000;

/// Entries in each admin queue, and the size of one entry in bytes.
pub const QUEUE_ENTRIES: u32 = 64;
pub const ENTRY_BYTES: u32 = 64;
pub const IDENTIFY_BUFFER_BYTES: u32 = 4096;
pub const BUFFER_ALIGN: u32 = 4096;

pub const OPCODE_IDENTIFY: u8 = 0x06;
pub const CNS_IDENTIFY_CONTROLLER: u32 = 1;
pub const IDENTIFY_COMMAND_ID: u16 = 1;

/// Controller configuration fields written at bring-up.
pub const CC_COMMAND_SET_NVM: u32 = 6;
pub const CC_PAGE_SIZE: u32 = 4;
pub const CC_ARBITRATION_ROUND_ROBIN: u32 = 0;

/// Whether a PCI function is an NVMe mass-storage controller.
pub open spec fn is_nvme_spec(class: u8, subclass: u8) -> bool {
    class == CLASS_MASS_STORAGE && subclass == SUBCLASS_NVME
}

pub fn is_nvme(class: u8, subclass: u8) -> (r: bool)
    ensures
        r == is_nvme_spec(class, subclass),
{
    class == CLASS_MASS_STORAGE && subclass == SUBCLASS_NVME
}

/// `base + offset`, wrapping at 2^64 as address arithmetic does.
pub open spec fn address_at(base: u64, offset: u64) -> u64 {
    ((base as int + offset as int) % 0x1_0000_0000_0000_0000) as u64
}

pub fn register_address(base: u64, offset: u64) -> (r: u64)
    ensures
        r == address_at(base, offset),
{
    if base <= u64::MAX - offset {
        base + offset
    } else {
        base - (u64::MAX - offset) - 1
    }
}

/// CAP.MQES: maximum queue entries supported, minus one (bits 0 to 15).
pub open spec fn cap_mqes(cap: u64) -> u16 {
    (cap % 0x10000) as u16
}

/// CAP.TO: worst-case time to ready, in 500 ms units (bits 24 to 31).
pub open spec fn cap_timeout(cap: u64) -> u8 {
    ((cap / 0x100_0000) % 0x100) as u8
}

/// CAP.DSTRD: doorbell stride exponent (bits 32 to 35).
pub open spec fn cap_dstrd(cap: u64) -> u8 {
    ((cap / 0x1_0000_0000) % 16) as u8
}

pub fn max_queue_entries(cap: u64) -> (r: u16)
    ensures
        r == cap_mqes(cap),
{
    let r = (cap & 0xFFFF) as u16;
    assert(cap & 0xFFFF == cap % 0x10000) by (bit_vector);
    r
}

pub fn doorbell_stride(cap: u64) -> (r: u8)
    ensures
        r == cap_dstrd(cap),
        r < 16,
{
    let r = ((cap >> 32u64) & 0xF) as u8;
    assert((cap >> 32u64) & 0xF == (cap / 0x1_0000_0000) % 16) by (bit_vector);
    r
}

/// The controller's ready timeout in milliseconds.
pub fn timeout_ms(cap: u64) -> (r: u64)
    ensures
        r == cap_timeout(cap) as u64 * 500,
{
    let to = (cap >> 24u64) & 0xFF;
    assert((cap >> 24u64) & 0xFF == (cap / 0x100_0000) % 0x100) by (bit_vector);
    to * 500
}

/// Fields of a controller configuration value.
pub open spec fn cc_enable(cc: u32) -> u32 {
    cc % 2
}

/// Bits 0 to 3: the enable bit, with the doorbell stride merged in.
pub open spec fn cc_low_nibble(cc: u32) -> u32 {
    cc % 16
}

pub open spec fn cc_page_size(cc: u32) -> u32 {
    (cc / 0x800) % 16
}

pub open spec fn cc_arbitration(cc: u32) -> u32 {
    (cc / 0x1_0000) % 8
}

pub open spec fn cc_command_set(cc: u32) -> u32 {
    (cc / 0x10_0000) % 8
}

/// The bits outside the four fields above.
pub open spec fn cc_other_bits(cc: u32) -> u32 {
    cc & !0x0077_780Fu32
}

/// The controller configuration value: NVM command set, round-robin
/// arbitration, page size exponent 4, the doorbell stride, enabled.
pub open spec fn cc_value(dstrd: u8) -> u32 {
    (CC_COMMAND_SET_NVM << 20u32) | (CC_ARBITRATION_ROUND_ROBIN << 16u32) | (CC_PAGE_SIZE << 11u32) | (
    dstrd as u32) | 1u32
}

pub fn controller_configuration(dstrd: u8) -> (r: u32)
    requires
        dstrd < 16,
    ensures
        r == cc_value(dstrd),
        cc_enable(r) == 1,
        cc_command_set(r) == CC_COMMAND_SET_NVM,
        cc_arbitration(r) == CC_ARBITRATION_ROUND_ROBIN,
        cc_page_size(r) == CC_PAGE_SIZE,
        cc_low_nibble(r) == (dstrd as u32 | 1u32),
        cc_other_bits(r) == 0,
{
    proof {
        lemma_cc_fields(dstrd);
    }
    (CC_COMMAND_SET_NVM << 20u32) | (CC_ARBITRATION_ROUND_ROBIN << 16u32) | (CC_PAGE_SIZE << 11u32) | (
    dstrd as u32) | 1u32
}

/// The configuration value decomposes back into the fields it was built from:
/// enable set, NVM command set, round-robin arbitration, the page size in its
/// own field only, the doorbell stride in the low nibble, and no other bit set.
pub proof fn lemma_cc_fields(dstrd: u8)
    requires
        dstrd < 16,
    ensures
        cc_enable(cc_value(dstrd)) == 1,
        cc_command_set(cc_value(dstrd)) == CC_COMMAND_SET_NVM,
        cc_arbitration(cc_value(dstrd)) == CC_ARBITRATION_ROUND_ROBIN,
        cc_page_size(cc_value(dstrd)) == CC_PAGE_SIZE,
        cc_low_nibble(cc_value(dstrd)) == (dstrd as u32 | 1u32),
        cc_other_bits(cc_value(dstrd)) == 0,
{
    let d = dstrd as u32;
    let v = cc_value(dstrd);
    assert(v == (6u32 << 20u32) | (0u32 << 16u32) | (4u32 << 11u32) | d | 1u32);
    assert(d < 16 ==> ({
        let w = (6u32 << 20u32) | (0u32 << 16u32) | (4u32 << 11u32) | d | 1u32;
        &&& w % 2 == 1
        &&& (w / 0x10_0000) % 8 == 6
        &&& (w / 0x1_0000) % 8 == 0
        &&& (w / 0x800) % 16 == 4
        &&& w % 16 == (d | 1u32)
        &&& w & !0x0077_780Fu32 == 0
    })) by (bit_vector);
}

/// AQA: admin completion and submission queue sizes, each as entries minus one.
pub open spec fn aqa_value(entries: u32) -> u32 {
    ((entries - 1) * 0x1_0000 + (entries - 1)) as u32
}

pub fn admin_queue_attributes(entries: u32) -> (r: u32)
    requires
        1 <= entries <= 4096,
    ensures
        r == aqa_value(entries),
{
    let n = entries - 1;
    let r = (n << 16u32) | n;
    assert((n << 16u32) | n == n * 0x1_0000 + n) by (bit_vector)
        requires
            n < 4096,
    ;
    r
}

/// A 64-byte admin submission queue entry.
#[derive(Clone, Copy, Debug, PartialEq, Eq, Structural)]
pub struct NvmeCommand {
    pub opcode: u8,
    pub flags: u8,
    pub cid: u16,
    pub nsid: u32,
    pub mptr: u64,
    pub prp1: u64,
    pub prp2: u64,
    pub cdw10: u32,
    pub cdw11: u32,
    pub cdw12: u32,
    pub cdw13: u32,
    pub cdw14: u32,
    pub cdw15: u32,
}

pub open spec fn low_dword(x: u64) -> u32 {
    (x % 0x1_0000_0000) as u32
}

pub open spec fn high_dword(x: u64) -> u32 {
    (x / 0x1_0000_0000) as u32
}

/// The sixteen little-endian dwords of a command as the controller reads them.
pub open spec fn command_dwords(c: NvmeCommand) -> Seq<u32> {
    seq![
        (c.opcode as int + c.flags as int * 0x100 + c.cid as int * 0x1_0000) as u32,
        c.nsid,
        0u32,
        0u32,
        low_dword(c.mptr),
        high_dword(c.mptr),
        low_dword(c.prp1),
        high_dword(c.prp1),
        low_dword(c.prp2),
        high_dword(c.prp2),
        c.cdw10,
        c.cdw11,
        c.cdw12,
        c.cdw13,
        c.cdw14,
        c.cdw15,
    ]
}

fn split_u64(x: u64) -> (r: (u32, u32))
    ensures
        r.0 == low_dword(x),
        r.1 == high_dword(x),
{
    let lo = (x & 0xFFFF_FFFF) as u32;
    let hi = (x >> 32u64) as u32;
    assert(x & 0xFFFF_FFFF == x % 0x1_0000_0000 && x >> 32u64 == x / 0x1_0000_0000) by (bit_vector);
    (lo, hi)
}

impl NvmeCommand {
    /// Identify Controller: its 4096-byte result goes to `buffer`.
    pub fn identify_controller(buffer: u64) -> (r: NvmeCommand)
        ensures
            r == (NvmeCommand {
                opcode: OPCODE_IDENTIFY,
                flags: 0,
                cid: IDENTIFY_COMMAND_ID,
                nsid: 0,
                mptr: 0,
                prp1: buffer,
                prp2: 0,
                cdw10: CNS_IDENTIFY_CONTROLLER,
                cdw11: 0,
                cdw12: 0,
                cdw13: 0,
                cdw14: 0,
                cdw15: 0,
            }),
    {
        NvmeCommand {
            opcode: OPCODE_IDENTIFY,
            flags: 0,
            cid: IDENTIFY_COMMAND_ID,
            nsid: 0,
            mptr: 0,
            prp1: buffer,
            prp2: 0,
            cdw10: CNS_IDENTIFY_CONTROLLER,
            cdw11: 0,
            cdw12: 0,
            cdw13: 0,
            cdw14: 0,
            cdw15: 0,
        }
    }

    /// The command as the sixteen dwords written into a submission queue slot.
    pub fn to_dwords(&self) -> (r: Vec<u32>)
        ensures
            r@ == command_dwords(*self),
    {
        let op = self.opcode as u32;
        let fl = self.flags as u32;
        let id = self.cid as u32;
        let dw0 = op | (fl << 8u32) | (id << 16u32);
        assert(op | (fl << 8u32) | (id << 16u32) == op + fl * 0x100 + id * 0x1_0000) by (bit_vector)
            requires
                op < 0x100,
                fl < 0x100,
                id < 0x1_0000,
        ;
        let (m0, m1) = split_u64(self.mptr);
        let (p0, p1) = split_u64(self.prp1);
        let (q0, q1) = split_u64(self.prp2);
        let mut v: Vec<u32> = Vec::new();
        v.push(dw0);
        v.push(self.nsid);
        v.push(0);
        v.push(0);
        v.push(m0);
        v.push(m1);
        v.push(p0);
        v.push(p1);
        v.push(q0);
        v.push(q1);
        v.push(self.cdw10);
        v.push(self.cdw11);
        v.push(self.cdw12);
        v.push(self.cdw13);
        v.push(self.cdw14);
        v.push(self.cdw15);
        assert(v@ =~= command_dwords(*self));
        v
    }
}

} // verus!
