//! The register space of an xHCI controller: where each register lies
//! from the capability, operational and runtime bases, and the values
//! written to the registers that take more than one bit.
use vstd::prelude::*;
use crate::xhci_registers::{
    XhciConfig, XhciCrCr, XhciDoorbell, XhciHccParams1, XhciHccParams2, XhciHcsParams1, XhciHcsParams2,
    XhciHcsParams3, XhciInterruptRegisterSet, XhciPortHlpMcUsb2, XhciPortLiUsb3, XhciPortPmscUsb2,
    XhciPortPmscUsb3, XhciPortSc, XhciUsbCmd, XhciUsbSts,
};

verus! {

/// The three bases of a controller's registers.
#[derive(Clone, Copy, PartialEq, Eq, Structural, Debug)]
pub struct XhciBar {
    pub capability_base: u64,
    pub operational_base: u64,
    pub runtime_base: u64,
}

/// The floor of the base-two logarithm.
pub open spec fn log2(x: u32) -> int
    decreases x,
{
    if x <= 1 {
        0
    } else {
        1 + log2(x / 2)
    }
}

proof fn lemma_log2_nonnegative(x: u32)
    ensures
        log2(x) >= 0,
    decreases x,
{
    if x > 1 {
        lemma_log2_nonnegative(x / 2);
    }
}

proof fn lemma_log2_monotonic(a: u32, b: u32)
    requires
        a <= b,
    ensures
        log2(a) <= log2(b),
    decreases b,
{
    lemma_log2_nonnegative(b);
    if a > 1 {
        assert(log2(a) == 1 + log2(a / 2));
        assert(log2(b) == 1 + log2(b / 2));
        lemma_log2_monotonic(a / 2, b / 2);
    }
}

/// The floor of the base-two logarithm of `x`.
pub fn ilog2(x: u32) -> (r: u32)
    requires
        x > 0,
    ensures
        r == log2(x),
        r < 32,
{
    proof {
        lemma_log2_below_32(x);
    }
    let mut v = x;
    let mut l: u32 = 0;
    while v > 1
        invariant
            v > 0,
            l + log2(v) == log2(x),
            log2(x) < 32,
        decreases v,
    {
        assert(log2(v) == 1 + log2(v / 2));
        proof {
            lemma_log2_nonnegative(v / 2);
        }
        v = v / 2;
        l = l + 1;
    }
    l
}

/// Two to the power `k`.
pub open spec fn p2(k: nat) -> int
    decreases k,
{
    if k == 0 {
        1
    } else {
        2 * p2((k - 1) as nat)
    }
}

proof fn lemma_log2_upper(x: u32, k: nat)
    requires
        k >= 1,
        x < p2(k),
    ensures
        log2(x) < k,
    decreases k,
{
    if x > 1 {
        assert(p2(k) == 2 * p2((k - 1) as nat));
        assert(log2(x) == 1 + log2(x / 2));
        if k > 1 {
            lemma_log2_upper(x / 2, (k - 1) as nat);
        } else {
            assert(p2(0) == 1);
        }
    }
}

proof fn lemma_log2_below_32(x: u32)
    ensures
        log2(x) < 32,
{
    reveal_with_fuel(p2, 33);
    assert(p2(32) == 0x1_0000_0000);
    lemma_log2_upper(x, 32);
}

impl XhciBar {
    /// A controller whose capability registers are at `capability_base`;
    /// the other bases are not known yet.
    pub fn new(capability_base: u64) -> (r: Self)
        ensures
            r == (XhciBar { capability_base, operational_base: 0, runtime_base: 0 }),
    {
        XhciBar { capability_base, operational_base: 0, runtime_base: 0 }
    }

    pub fn get_base(&self) -> (r: u64)
        ensures
            r == self.capability_base,
    {
        self.capability_base
    }

    /// The operational registers follow the capability registers, which
    /// are `caplength` bytes long.
    pub fn set_operational_base(&mut self, caplength: u8)
        requires
            old(self).capability_base + caplength <= u64::MAX,
        ensures
            *final(self) == (XhciBar { operational_base: (old(self).capability_base + caplength) as u64, ..*old(self) }),
    {
        self.operational_base = self.capability_base + caplength as u64;
    }

    /// The runtime registers lie `rtsoff` bytes from the capability registers.
    pub fn set_runtime_base(&mut self, rtsoff: u32)
        requires
            old(self).capability_base + rtsoff <= u64::MAX,
        ensures
            *final(self) == (XhciBar { runtime_base: (old(self).capability_base + rtsoff) as u64, ..*old(self) }),
    {
        self.runtime_base = self.capability_base + rtsoff as u64;
    }

    pub fn hcsparams1(&self) -> (r: XhciHcsParams1)
        requires
            self.capability_base + 4 <= u64::MAX,
        ensures
            r.addr == self.capability_base + 4,
    {
        XhciHcsParams1::new(self.capability_base + 4)
    }

    pub fn hcsparams2(&self) -> (r: XhciHcsParams2)
        requires
            self.capability_base + 8 <= u64::MAX,
        ensures
            r.addr == self.capability_base + 8,
    {
        XhciHcsParams2::new(self.capability_base + 8)
    }

    pub fn hcsparams3(&self) -> (r: XhciHcsParams3)
        requires
            self.capability_base + 0xC <= u64::MAX,
        ensures
            r.addr == self.capability_base + 0xC,
    {
        XhciHcsParams3::new(self.capability_base + 0xC)
    }

    pub fn hccparams1(&self) -> (r: XhciHccParams1)
        requires
            self.capability_base + 0x10 <= u64::MAX,
        ensures
            r.addr == self.capability_base + 0x10,
    {
        XhciHccParams1::new(self.capability_base + 0x10)
    }

    pub fn hccparams2(&self) -> (r: XhciHccParams2)
        requires
            self.capability_base + 0x1C <= u64::MAX,
        ensures
            r.addr == self.capability_base + 0x1C,
    {
        XhciHccParams2::new(self.capability_base + 0x1C)
    }

    pub fn usbcmd(&self) -> (r: XhciUsbCmd)
        ensures
            r.addr == self.operational_base,
    {
        XhciUsbCmd::new(self.operational_base)
    }

    pub fn usbsts(&self) -> (r: XhciUsbSts)
        requires
            self.operational_base + 4 <= u64::MAX,
        ensures
            r.addr == self.operational_base + 4,
    {
        XhciUsbSts::new(self.operational_base + 4)
    }

    pub fn crcr(&self) -> (r: XhciCrCr)
        requires
            self.operational_base + 0x18 <= u64::MAX,
        ensures
            r.addr == self.operational_base + 0x18,
    {
        XhciCrCr::new(self.operational_base + 0x18)
    }

    pub fn config(&self) -> (r: XhciConfig)
        requires
            self.operational_base + 0x38 <= u64::MAX,
        ensures
            r.addr == self.operational_base + 0x38,
    {
        XhciConfig::new(self.operational_base + 0x38)
    }

    /// The status and control register of port `port` (ports count from one).
    pub fn portsc(&self, port: u8) -> (r: XhciPortSc)
        requires
            port >= 1,
            self.operational_base + 0x400 + 0x10 * (port - 1) <= u64::MAX,
        ensures
            r.addr == self.operational_base + 0x400 + 0x10 * (port - 1),
    {
        XhciPortSc::new(self.operational_base + 0x400 + 0x10 * ((port - 1) as u64))
    }

    pub fn portpmsc_usb3(&self, port: u8) -> (r: XhciPortPmscUsb3)
        requires
            port >= 1,
            self.operational_base + 0x404 + 0x10 * (port - 1) <= u64::MAX,
        ensures
            r.addr == self.operational_base + 0x404 + 0x10 * (port - 1),
    {
        XhciPortPmscUsb3::new(self.operational_base + 0x404 + 0x10 * ((port - 1) as u64))
    }

    pub fn portpmsc_usb2(&self, port: u8) -> (r: XhciPortPmscUsb2)
        requires
            port >= 1,
            self.operational_base + 0x404 + 0x10 * (port - 1) <= u64::MAX,
        ensures
            r.addr == self.operational_base + 0x404 + 0x10 * (port - 1),
    {
        XhciPortPmscUsb2::new(self.operational_base + 0x404 + 0x10 * ((port - 1) as u64))
    }

    pub fn portli_usb3(&self, port: u8) -> (r: XhciPortLiUsb3)
        requires
            port >= 1,
            self.operational_base + 0x408 + 0x10 * (port - 1) <= u64::MAX,
        ensures
            r.addr == self.operational_base + 0x408 + 0x10 * (port - 1),
    {
        XhciPortLiUsb3::new(self.operational_base + 0x408 + 0x10 * ((port - 1) as u64))
    }

    pub fn porthlpmc_usb2(&self, port: u8) -> (r: XhciPortHlpMcUsb2)
        requires
            port >= 1,
            self.operational_base + 0x40C + 0x10 * (port - 1) <= u64::MAX,
        ensures
            r.addr == self.operational_base + 0x40C + 0x10 * (port - 1),
    {
        XhciPortHlpMcUsb2::new(self.operational_base + 0x40C + 0x10 * ((port - 1) as u64))
    }

    /// The interrupter register set `index`.
    pub fn ir(&self, index: u16) -> (r: XhciInterruptRegisterSet)
        requires
            self.runtime_base + 0x20 + 0x20 * index <= u64::MAX,
        ensures
            r.addr == self.runtime_base + 0x20 + 0x20 * index,
    {
        XhciInterruptRegisterSet::new(self.runtime_base + 0x20 + 0x20 * (index as u64))
    }

    /// The doorbell of slot `index`, the doorbell array lying `dboff`
    /// bytes from the capability registers.
    pub fn doorbell(&self, index: u16, dboff: u32) -> (r: XhciDoorbell)
        requires
            self.capability_base + dboff + 4 * index <= u64::MAX,
        ensures
            r.addr == self.capability_base + dboff + 4 * index,
    {
        XhciDoorbell::new(self.capability_base + dboff as u64 + 4 * (index as u64))
    }

    /// Whether the controller supports pages of `page_size` bytes (the low
    /// twelve bits are dropped): the bit of the page size register, read as
    /// `pagesize`, for the size's logarithm less twelve.
    pub fn is_page_size_valid(&self, page_size: u32, pagesize: u32) -> (r: bool)
        requires
            page_size & !0xFFFu32 >= 0x1000,
        ensures
            r == (pagesize & (1u32 << ((log2(page_size & !0xFFFu32) - 12) as u32)) != 0),
    {
        let masked = page_size & !0xFFF;
        proof {
            lemma_log2_monotonic(0x1000, masked);
            reveal_with_fuel(log2, 13);
            assert(log2(0x1000) == 12);
            lemma_log2_below_32(masked);
        }
        let bit = ilog2(masked) - 12;
        pagesize & (1u32 << bit) != 0
    }

    /// Whether notification `index` is enabled in the device notification
    /// control register, read as `dnctrl`.
    pub fn dnctrl_notification_enabled(&self, index: u8, dnctrl: u32) -> (r: bool)
        requires
            index < 32,
        ensures
            r == (dnctrl & (1u32 << index) != 0),
    {
        dnctrl & (1u32 << index) != 0
    }

    /// The device notification control register, read as `dnctrl`, with
    /// notification `index` set to `val`.
    pub fn dnctrl_set_notification(&self, index: u8, val: bool, dnctrl: u32) -> (r: u32)
        requires
            index < 32,
        ensures
            r == (dnctrl & !(1u32 << index)) | ((if val { 1u32 } else { 0u32 }) << index),
    {
        let v: u32 = if val { 1 } else { 0 };
        (dnctrl & !(1u32 << index)) | (v << index)
    }

    /// The two words of the device context base address array pointer
    /// register for `pointer`, its low five bits dropped.
    pub fn write_dcbaap(&self, pointer: u64) -> (r: (u32, u32))
        ensures
            r == (((pointer & !0x1Fu64) & 0xFFFF_FFFFu64) as u32, ((pointer & !0x1Fu64) >> 32u64) as u32),
    {
        let p = pointer & !0x1F;
        ((p & 0xFFFF_FFFF) as u32, (p >> 32) as u32)
    }

    /// The microframe index, the low fourteen bits of its register, read as `mfindex`.
    pub fn microframe_index(&self, mfindex: u32) -> (r: u16)
        ensures
            r == (mfindex & 0x3FFFu32) as u16,
    {
        (mfindex & 0x3FFF) as u16
    }
}

} // verus!
