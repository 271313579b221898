//! The configuration of a UHCI device, read from the configuration
//! descriptor it reports: its interfaces with their endpoints, and its HID
//! descriptors.
use vstd::prelude::*;
use crate::pe::{le_u16, le_u16_spec};
use crate::uhci::{UhciTransferDescriptor, UsbTransferType};
use crate::xhci_config::{hid_at, UsbHID};
use crate::xhci_controller::Direction;
use crate::xhci_endpoint::{direction_of, transfer_type_of};

verus! {

/// What serves an endpoint: nothing yet, a control endpoint record, a
/// descriptor array record (interrupt or bulk), or an isochronous
/// transfer descriptor.
#[derive(Clone, Copy)]
pub enum UhciGeneralEndpointRealEndpoint {
    Unassigned,
    Control(u8),
    TdArray(u8),
    Isochronous(UhciTransferDescriptor),
}

/// An endpoint of a UHCI device, as its descriptor gives it.
#[derive(Clone, Copy)]
pub struct UhciGeneralEndpoint {
    pub endpoint_address: u8,
    pub bm_attributes: u8,
    pub w_max_packet_size: u16,
    pub b_interval: u8,
    pub real_endpoint: UhciGeneralEndpointRealEndpoint,
}

/// The endpoint descriptor at byte `q`: address, attributes, packet size
/// and interval, served by nothing yet.
pub open spec fn general_endpoint_at(bytes: Seq<u8>, q: int) -> (u8, u8, u16, u8) {
    (bytes[q + 2], bytes[q + 3], le_u16_spec(bytes, q + 4), bytes[q + 6])
}

impl UhciGeneralEndpoint {
    /// The endpoint of the endpoint descriptor at byte `q` of `bytes`.
    pub fn from_raw(bytes: &[u8], q: usize) -> (r: Self)
        requires
            q + 7 <= bytes@.len(),
        ensures
            (r.endpoint_address, r.bm_attributes, r.w_max_packet_size, r.b_interval) == general_endpoint_at(
                bytes@,
                q as int,
            ),
            r.real_endpoint is Unassigned,
    {
        let _len = bytes.len();
        UhciGeneralEndpoint {
            endpoint_address: bytes[q + 2],
            bm_attributes: bytes[q + 3],
            w_max_packet_size: le_u16(bytes, q + 4),
            b_interval: bytes[q + 6],
            real_endpoint: UhciGeneralEndpointRealEndpoint::Unassigned,
        }
    }

    pub fn get_endpoint_address(&self) -> (r: u8)
        ensures
            r == self.endpoint_address,
    {
        self.endpoint_address
    }

    pub fn get_bm_attributes(&self) -> (r: u8)
        ensures
            r == self.bm_attributes,
    {
        self.bm_attributes
    }

    pub fn get_max_packet_size(&self) -> (r: u16)
        ensures
            r == self.w_max_packet_size,
    {
        self.w_max_packet_size
    }

    /// The endpoint number, the low four bits of the address.
    pub fn endpoint_number(&self) -> (r: u8)
        ensures
            r == self.endpoint_address & 0xFu8,
    {
        self.endpoint_address & 0b1111
    }

    /// The direction, from the top bit of the address.
    pub fn get_direction(&self) -> (r: Direction)
        ensures
            r == direction_of(self.endpoint_address),
    {
        if self.endpoint_address >> 7 == 0 {
            Direction::Out
        } else {
            Direction::In
        }
    }

    pub fn get_interval_in_ms(&self) -> (r: u16)
        ensures
            r == self.b_interval as u16,
    {
        self.b_interval as u16
    }

    pub fn get_maximum_packet_size(&self) -> (r: u16)
        ensures
            r == self.w_max_packet_size,
    {
        self.w_max_packet_size
    }

    /// The transfer type, from the low two bits of the attributes.
    pub fn get_transfer_type(&self) -> (r: UsbTransferType)
        ensures
            r == transfer_type_of(self.bm_attributes),
    {
        let t = self.bm_attributes & 0b11;
        if t == 0 {
            UsbTransferType::Control
        } else if t == 1 {
            UsbTransferType::Isochronous
        } else if t == 2 {
            UsbTransferType::Bulk
        } else {
            UsbTransferType::Interrupt
        }
    }

    pub fn update_max_packet_size(&mut self, max_packet_size: u16)
        ensures
            final(self).w_max_packet_size == max_packet_size,
            final(self).endpoint_address == old(self).endpoint_address,
            final(self).bm_attributes == old(self).bm_attributes,
            final(self).b_interval == old(self).b_interval,
    {
        self.w_max_packet_size = max_packet_size;
    }
}

/// An interface of a UHCI device: class, subclass, protocol, number and
/// alternate setting, and its endpoints.
pub struct UhciInterface {
    pub interface_class: u8,
    pub interface_sub_class: u8,
    pub interface_protocol: u8,
    pub interface_number: u8,
    pub alternate_setting: u8,
    pub endpoints: Vec<UhciGeneralEndpoint>,
}

impl UhciInterface {
    /// The interface of the interface descriptor at byte `p`, with the
    /// endpoints `endpoints`.
    pub fn from_raw(bytes: &[u8], p: usize, endpoints: Vec<UhciGeneralEndpoint>) -> (r: Self)
        requires
            p + 9 <= bytes@.len(),
        ensures
            r.interface_number == bytes@[p + 2],
            r.alternate_setting == bytes@[p + 3],
            r.interface_class == bytes@[p + 5],
            r.interface_sub_class == bytes@[p + 6],
            r.interface_protocol == bytes@[p + 7],
            r.endpoints@ == endpoints@,
    {
        let _len = bytes.len();
        UhciInterface {
            interface_number: bytes[p + 2],
            alternate_setting: bytes[p + 3],
            interface_class: bytes[p + 5],
            interface_sub_class: bytes[p + 6],
            interface_protocol: bytes[p + 7],
            endpoints,
        }
    }

    pub fn endpoint_count(&self) -> (r: u16)
        ensures
            r == self.endpoints@.len() as u16,
    {
        self.endpoints.len() as u16
    }

    pub fn get_class(&self) -> (r: u8)
        ensures
            r == self.interface_class,
    {
        self.interface_class
    }

    pub fn get_sub_class(&self) -> (r: u8)
        ensures
            r == self.interface_sub_class,
    {
        self.interface_sub_class
    }

    pub fn get_protocol(&self) -> (r: u8)
        ensures
            r == self.interface_protocol,
    {
        self.interface_protocol
    }

    /// Endpoint `index`, if the interface has that many.
    pub fn get_endpoint(&self, index: u16) -> (r: Option<UhciGeneralEndpoint>)
        ensures
            index >= self.endpoints@.len() ==> r is None,
            index < self.endpoints@.len() ==> (r matches Some(e) && {
                let x = self.endpoints@[index as int];
                e.endpoint_address == x.endpoint_address && e.bm_attributes == x.bm_attributes
                    && e.w_max_packet_size == x.w_max_packet_size && e.b_interval == x.b_interval
            }),
    {
        if index as usize >= self.endpoints.len() {
            return None;
        }
        Some(self.endpoints[index as usize])
    }
}

/// Where the endpoints of the interface at `p` start: after its descriptor
/// and a HID descriptor, if one follows.
pub open spec fn uhci_endpoints_start(bytes: Seq<u8>, p: int) -> int {
    if bytes[p + 10] == 5 {
        p + 9
    } else {
        p + 18
    }
}

/// Where interface `k` starts, the first at `start`: each interface takes
/// its descriptor, a HID descriptor if one follows, and seven bytes per
/// endpoint.
pub open spec fn uhci_interface_pos(bytes: Seq<u8>, start: int, k: nat) -> int
    decreases k,
{
    if k == 0 {
        start
    } else {
        let p = uhci_interface_pos(bytes, start, (k - 1) as nat);
        uhci_endpoints_start(bytes, p) + 7 * bytes[p + 4]
    }
}

/// The interface at `p` lies in the bytes, followed by an endpoint or a
/// HID descriptor.
pub open spec fn uhci_interface_fits(bytes: Seq<u8>, p: int) -> bool {
    &&& p + 11 <= bytes.len()
    &&& (bytes[p + 10] == 5 || bytes[p + 10] == 0x21)
    &&& uhci_endpoints_start(bytes, p) + 7 * bytes[p + 4] <= bytes.len()
}

pub open spec fn uhci_interfaces_fit(bytes: Seq<u8>, start: int, n: nat) -> bool {
    forall|k: nat| k < n ==> #[trigger] uhci_interface_fits(bytes, uhci_interface_pos(bytes, start, k))
}

/// The endpoints of the first `k` interfaces.
pub open spec fn uhci_endpoint_total(bytes: Seq<u8>, start: int, k: nat) -> int
    decreases k,
{
    if k == 0 {
        0
    } else {
        uhci_endpoint_total(bytes, start, (k - 1) as nat) + bytes[uhci_interface_pos(bytes, start, (k - 1) as nat) + 4]
    }
}

/// The HID descriptors of the first `k` interfaces.
pub open spec fn uhci_hids_of(bytes: Seq<u8>, start: int, k: nat) -> Seq<UsbHID>
    decreases k,
{
    if k == 0 {
        seq![]
    } else {
        let p = uhci_interface_pos(bytes, start, (k - 1) as nat);
        let prev = uhci_hids_of(bytes, start, (k - 1) as nat);
        if bytes[p + 10] == 0x21 {
            prev.push(hid_at(bytes, p + 9, (k - 1) as u8))
        } else {
            prev
        }
    }
}

/// A UHCI device's configuration: how many endpoints its interfaces have,
/// the interfaces, and the HID descriptors.
pub struct UhciDeviceConfiguration {
    pub num_endpoints: u16,
    pub interfaces: Vec<UhciInterface>,
    pub hid_interfaces: Vec<UsbHID>,
}

impl UhciDeviceConfiguration {
    pub fn empty() -> (r: Self)
        ensures
            r.num_endpoints == 0,
            r.interfaces@.len() == 0,
            r.hid_interfaces@.len() == 0,
    {
        UhciDeviceConfiguration { num_endpoints: 0, interfaces: Vec::new(), hid_interfaces: Vec::new() }
    }

    pub fn get_hid_interface(&self, index: u8) -> (r: Option<UsbHID>)
        ensures
            index >= self.hid_interfaces@.len() as u8 ==> r is None,
            index < self.hid_interfaces@.len() as u8 ==> r == Some(self.hid_interfaces@[index as int]),
    {
        if index >= self.hid_interfaces.len() as u8 {
            return None;
        }
        Some(self.hid_interfaces[index as usize])
    }

    pub fn get_hid_interface_count(&self) -> (r: u8)
        ensures
            r == self.hid_interfaces@.len() as u8,
    {
        self.hid_interfaces.len() as u8
    }

    pub fn get_interface(&self, index: u8) -> (r: Option<&UhciInterface>)
        ensures
            index >= self.interfaces@.len() as u8 ==> r is None,
            index < self.interfaces@.len() as u8 ==> r == Some(&self.interfaces@[index as int]),
    {
        if index >= self.interfaces.len() as u8 {
            return None;
        }
        Some(&self.interfaces[index as usize])
    }

    pub fn get_interface_count(&self) -> (r: u8)
        ensures
            r == self.interfaces@.len() as u8,
    {
        self.interfaces.len() as u8
    }

    /// Takes in the HID descriptor at byte `q` that follows the descriptor
    /// of interface `interface_index`; gives the bytes it takes.
    pub fn handle_special_descriptor(&mut self, bytes: &[u8], q: usize, interface_index: u8) -> (r: u16)
        requires
            q + 9 <= bytes@.len(),
            bytes@[q + 1] == 0x21,
        ensures
            r == 9,
            final(self).num_endpoints == old(self).num_endpoints,
            final(self).interfaces@ == old(self).interfaces@,
            final(self).hid_interfaces@ == old(self).hid_interfaces@.push(hid_at(bytes@, q as int, interface_index)),
    {
        let _len = bytes.len();
        self.hid_interfaces.push(
            UsbHID {
                bcd_hid: le_u16(bytes, q + 2),
                country_code: bytes[q + 4],
                num_descriptors: bytes[q + 5],
                descriptor_type: bytes[q + 6],
                descriptor_length: le_u16(bytes, q + 7),
                interface_index,
            },
        );
        9
    }

    /// Reads a configuration of `num_interfaces` interfaces whose first
    /// interface descriptor is at byte `start`: each interface, a HID
    /// descriptor if one follows it, then its endpoints.
    pub fn new(bytes: &[u8], start: usize, num_interfaces: u16) -> (r: Self)
        requires
            uhci_interfaces_fit(bytes@, start as int, num_interfaces as nat),
            uhci_endpoint_total(bytes@, start as int, num_interfaces as nat) <= u16::MAX,
        ensures
            r.num_endpoints == uhci_endpoint_total(bytes@, start as int, num_interfaces as nat),
            r.interfaces@.len() == num_interfaces,
            forall|k: int|
                0 <= k < num_interfaces ==> {
                    let p = uhci_interface_pos(bytes@, start as int, k as nat);
                    let q = uhci_endpoints_start(bytes@, p);
                    &&& (#[trigger] r.interfaces@[k]).interface_class == bytes@[p + 5]
                    &&& r.interfaces@[k].interface_sub_class == bytes@[p + 6]
                    &&& r.interfaces@[k].interface_protocol == bytes@[p + 7]
                    &&& r.interfaces@[k].interface_number == bytes@[p + 2]
                    &&& r.interfaces@[k].alternate_setting == bytes@[p + 3]
                    &&& r.interfaces@[k].endpoints@.len() == bytes@[p + 4]
                    &&& forall|j: int|
                        0 <= j < bytes@[p + 4] ==> {
                            let e = #[trigger] r.interfaces@[k].endpoints@[j];
                            (e.endpoint_address, e.bm_attributes, e.w_max_packet_size, e.b_interval)
                                == general_endpoint_at(bytes@, q + 7 * j)
                        }
                },
            r.hid_interfaces@ == uhci_hids_of(bytes@, start as int, num_interfaces as nat),
    {
        let len = bytes.len();
        let mut ret = UhciDeviceConfiguration::empty();
        let mut p: usize = start;
        let mut i: u16 = 0;
        while i < num_interfaces
            invariant
                len == bytes@.len(),
                i <= num_interfaces,
                uhci_interfaces_fit(bytes@, start as int, num_interfaces as nat),
                uhci_endpoint_total(bytes@, start as int, num_interfaces as nat) <= u16::MAX,
                p == uhci_interface_pos(bytes@, start as int, i as nat),
                ret.num_endpoints == uhci_endpoint_total(bytes@, start as int, i as nat),
                ret.interfaces@.len() == i,
                forall|k: int|
                    0 <= k < i ==> {
                        let pk = uhci_interface_pos(bytes@, start as int, k as nat);
                        let qk = uhci_endpoints_start(bytes@, pk);
                        &&& (#[trigger] ret.interfaces@[k]).interface_class == bytes@[pk + 5]
                        &&& ret.interfaces@[k].interface_sub_class == bytes@[pk + 6]
                        &&& ret.interfaces@[k].interface_protocol == bytes@[pk + 7]
                        &&& ret.interfaces@[k].interface_number == bytes@[pk + 2]
                        &&& ret.interfaces@[k].alternate_setting == bytes@[pk + 3]
                        &&& ret.interfaces@[k].endpoints@.len() == bytes@[pk + 4]
                        &&& forall|j: int|
                            0 <= j < bytes@[pk + 4] ==> {
                                let e = #[trigger] ret.interfaces@[k].endpoints@[j];
                                (e.endpoint_address, e.bm_attributes, e.w_max_packet_size, e.b_interval)
                                    == general_endpoint_at(bytes@, qk + 7 * j)
                            }
                    },
                ret.hid_interfaces@ == uhci_hids_of(bytes@, start as int, i as nat),
            decreases num_interfaces - i,
        {
            proof {
                assert(uhci_interface_fits(bytes@, uhci_interface_pos(bytes@, start as int, i as nat)));
                lemma_uhci_total_grows(bytes@, start as int, (i + 1) as nat, num_interfaces as nat);
            }
            let num_endpoints = bytes[p + 4];
            let mut q = p + 9;
            if bytes[q + 1] != 5 {
                let taken = ret.handle_special_descriptor(bytes, q, i as u8);
                q = q + taken as usize;
            }
            let mut endpoints: Vec<UhciGeneralEndpoint> = Vec::new();
            let mut j: u8 = 0;
            while j < num_endpoints
                invariant
                    len == bytes@.len(),
                    j <= num_endpoints,
                    q + 7 * num_endpoints <= len,
                    endpoints@.len() == j,
                    forall|k: int|
                        0 <= k < j ==> {
                            let e = #[trigger] endpoints@[k];
                            (e.endpoint_address, e.bm_attributes, e.w_max_packet_size, e.b_interval)
                                == general_endpoint_at(bytes@, q + 7 * k)
                        },
                decreases num_endpoints - j,
            {
                endpoints.push(UhciGeneralEndpoint::from_raw(bytes, q + 7 * (j as usize)));
                j = j + 1;
            }
            let interface = UhciInterface::from_raw(bytes, p, endpoints);
            ret.interfaces.push(interface);
            ret.num_endpoints = ret.num_endpoints + num_endpoints as u16;
            p = q + 7 * (num_endpoints as usize);
            i = i + 1;
        }
        ret
    }
}

proof fn lemma_uhci_total_grows(bytes: Seq<u8>, start: int, k: nat, n: nat)
    requires
        k <= n,
    ensures
        uhci_endpoint_total(bytes, start, k) <= uhci_endpoint_total(bytes, start, n),
    decreases n - k,
{
    if k < n {
        lemma_uhci_total_grows(bytes, start, k, (n - 1) as nat);
    }
}

} // verus!
