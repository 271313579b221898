//! The configuration of an xHCI device, read from the configuration
//! descriptor it reports: its interfaces with their endpoints, its HID
//! descriptors, and the exit latencies of its SuperSpeed capability.
use vstd::prelude::*;
use crate::pe::{le_u16, le_u16_spec};
use crate::xhci_endpoint::{UsbEndpointDescriptor, XhciEndpointDescriptor, XhciEndpointDescriptorRealEndpoint};

verus! {

/// The HID descriptor of an interface, as the configuration keeps it.
#[derive(Clone, Copy, PartialEq, Eq, Structural, Debug)]
pub struct UsbHID {
    pub bcd_hid: u16,
    pub country_code: u8,
    pub num_descriptors: u8,
    pub descriptor_type: u8,
    pub descriptor_length: u16,
    pub interface_index: u8,
}

/// An interface of a configuration: its class, subclass and protocol,
/// and its endpoints.
pub struct XhciInterface {
    pub class: u8,
    pub sub_class: u8,
    pub protocol: u8,
    pub endpoints: Vec<XhciEndpointDescriptor>,
}

impl XhciInterface {
    /// The interface of the interface descriptor at byte `p` of `bytes`,
    /// with the endpoints `endpoints`.
    pub fn from_raw(bytes: &[u8], p: usize, endpoints: Vec<XhciEndpointDescriptor>) -> (r: Self)
        requires
            p + 9 <= bytes@.len(),
        ensures
            r.class == bytes@[p + 5],
            r.sub_class == bytes@[p + 6],
            r.protocol == bytes@[p + 7],
            r.endpoints@ == endpoints@,
    {
        let _len = bytes.len();
        XhciInterface { class: bytes[p + 5], sub_class: bytes[p + 6], protocol: bytes[p + 7], endpoints }
    }

    pub fn endpoint_count(&self) -> (r: u16)
        ensures
            r == self.endpoints@.len() as u16,
    {
        self.endpoints.len() as u16
    }

    pub fn get_class(&self) -> (r: u8)
        ensures
            r == self.class,
    {
        self.class
    }

    pub fn get_sub_class(&self) -> (r: u8)
        ensures
            r == self.sub_class,
    {
        self.sub_class
    }

    pub fn get_protocol(&self) -> (r: u8)
        ensures
            r == self.protocol,
    {
        self.protocol
    }

    /// Endpoint `index`, if the interface has that many (counted in 16 bits).
    pub fn get_endpoint(&self, index: u16) -> (r: Option<XhciEndpointDescriptor>)
        ensures
            index >= self.endpoints@.len() as u16 ==> r is None,
            index < self.endpoints@.len() as u16 ==> r == Some(self.endpoints@[index as int]),
    {
        if index >= self.endpoints.len() as u16 {
            return None;
        }
        Some(self.endpoints[index as usize])
    }
}

/// The endpoint descriptor at byte `q`, with the values of the SuperSpeed
/// companion descriptor (type 48) that may follow it.
pub open spec fn endpoint_at(bytes: Seq<u8>, q: int) -> XhciEndpointDescriptor {
    let plain = XhciEndpointDescriptor {
        bm_attributes: bytes[q + 3],
        endpoint_address: bytes[q + 2],
        interval: bytes[q + 6],
        max_packet_size: le_u16_spec(bytes, q + 4),
        superspeed_max_burst: 0,
        superspeed_bm_attributes: 0,
        endpoint: XhciEndpointDescriptorRealEndpoint::Unassigned,
    };
    if bytes[q + 8] == 48 {
        XhciEndpointDescriptor { superspeed_max_burst: bytes[q + 9], superspeed_bm_attributes: bytes[q + 10], ..plain }
    } else {
        plain
    }
}

/// Bytes of the endpoint at `q` and its companion.
pub open spec fn endpoint_len(bytes: Seq<u8>, q: int) -> int {
    if bytes[q + 8] == 48 {
        13
    } else {
        7
    }
}

/// The `m` endpoints from byte `q`.
pub open spec fn endpoints_from(bytes: Seq<u8>, q: int, m: nat) -> Seq<XhciEndpointDescriptor>
    decreases m,
{
    if m == 0 {
        seq![]
    } else {
        seq![endpoint_at(bytes, q)] + endpoints_from(bytes, q + endpoint_len(bytes, q), (m - 1) as nat)
    }
}

/// Where the `m` endpoints from byte `q` end.
pub open spec fn endpoints_end(bytes: Seq<u8>, q: int, m: nat) -> int
    decreases m,
{
    if m == 0 {
        q
    } else {
        endpoints_end(bytes, q + endpoint_len(bytes, q), (m - 1) as nat)
    }
}

/// The `m` endpoints from byte `q` lie in the bytes: each endpoint and the
/// type of what follows it, and a companion's values.
pub open spec fn endpoints_fit(bytes: Seq<u8>, q: int, m: nat) -> bool
    decreases m,
{
    if m == 0 {
        true
    } else {
        &&& q + 9 <= bytes.len()
        &&& bytes[q + 8] == 48 ==> q + 13 <= bytes.len()
        &&& endpoints_fit(bytes, q + endpoint_len(bytes, q), (m - 1) as nat)
    }
}

/// Bytes of the descriptor at `q` that is not an endpoint: a device
/// capability gives its own length, a HID descriptor is 9 bytes; none
/// when an endpoint follows.
pub open spec fn special_len(bytes: Seq<u8>, q: int) -> int {
    if bytes[q + 1] == 5 {
        0
    } else if bytes[q + 1] == 0x10 {
        bytes[q] as int
    } else {
        9
    }
}

/// Where the endpoints of the interface at `p` start.
pub open spec fn endpoints_start(bytes: Seq<u8>, p: int) -> int {
    p + 9 + special_len(bytes, p + 9)
}

/// Where the interface at `p` and what follows it end.
pub open spec fn interface_end(bytes: Seq<u8>, p: int) -> int {
    endpoints_end(bytes, endpoints_start(bytes, p), bytes[p + 4] as nat)
}

/// Where interface `k` starts, the first at `start`.
pub open spec fn interface_pos(bytes: Seq<u8>, start: int, k: nat) -> int
    decreases k,
{
    if k == 0 {
        start
    } else {
        interface_end(bytes, interface_pos(bytes, start, (k - 1) as nat))
    }
}

/// The interface at `p` lies in the bytes and what follows its descriptor
/// is an endpoint, a device capability or a HID descriptor.
pub open spec fn interface_fits(bytes: Seq<u8>, p: int) -> bool {
    let q = p + 9;
    let t = bytes[q + 1];
    &&& p + 11 <= bytes.len()
    &&& (t == 5 || t == 0x10 || t == 0x21)
    &&& t == 0x10 ==> q + 3 <= bytes.len() && (bytes[q + 2] == 3 ==> q + 10 <= bytes.len())
    &&& t == 0x21 ==> q + 9 <= bytes.len()
    &&& endpoints_start(bytes, p) <= bytes.len()
    &&& endpoints_fit(bytes, endpoints_start(bytes, p), bytes[p + 4] as nat)
}

/// The first `n` interfaces from `start` lie in the bytes.
pub open spec fn interfaces_fit(bytes: Seq<u8>, start: int, n: nat) -> bool {
    forall|k: nat| k < n ==> #[trigger] interface_fits(bytes, interface_pos(bytes, start, k))
}

/// The endpoints of the first `k` interfaces from `start`.
pub open spec fn endpoint_total(bytes: Seq<u8>, start: int, k: nat) -> int
    decreases k,
{
    if k == 0 {
        0
    } else {
        endpoint_total(bytes, start, (k - 1) as nat) + bytes[interface_pos(bytes, start, (k - 1) as nat) + 4]
    }
}

/// The HID descriptor at `q`, of interface `i`.
pub open spec fn hid_at(bytes: Seq<u8>, q: int, i: u8) -> UsbHID {
    UsbHID {
        bcd_hid: le_u16_spec(bytes, q + 2),
        country_code: bytes[q + 4],
        num_descriptors: bytes[q + 5],
        descriptor_type: bytes[q + 6],
        descriptor_length: le_u16_spec(bytes, q + 7),
        interface_index: i,
    }
}

/// The HID descriptors of the first `k` interfaces from `start`.
pub open spec fn hids_of(bytes: Seq<u8>, start: int, k: nat) -> Seq<UsbHID>
    decreases k,
{
    if k == 0 {
        seq![]
    } else {
        let p = interface_pos(bytes, start, (k - 1) as nat);
        let prev = hids_of(bytes, start, (k - 1) as nat);
        if bytes[p + 10] == 0x21 {
            prev.push(hid_at(bytes, p + 9, (k - 1) as u8))
        } else {
            prev
        }
    }
}

/// The exit latencies after the first `k` interfaces from `start`: a
/// SuperSpeed device capability (capability type 3) sets both.
pub open spec fn latencies_of(bytes: Seq<u8>, start: int, k: nat) -> (Option<u8>, Option<u16>)
    decreases k,
{
    if k == 0 {
        (None, None)
    } else {
        let p = interface_pos(bytes, start, (k - 1) as nat);
        let q = p + 9;
        if bytes[q + 1] == 0x10 && bytes[q + 2] == 3 {
            (Some(bytes[q + 7]), Some(le_u16_spec(bytes, q + 8)))
        } else {
            latencies_of(bytes, start, (k - 1) as nat)
        }
    }
}

/// The endpoints the first `k` interfaces hold.
pub open spec fn endpoints_held(interfaces: Seq<XhciInterface>, k: nat) -> int
    decreases k,
{
    if k == 0 {
        0
    } else {
        endpoints_held(interfaces, (k - 1) as nat) + interfaces[k - 1].endpoints@.len()
    }
}

proof fn lemma_endpoints_from_len(bytes: Seq<u8>, q: int, m: nat)
    ensures
        endpoints_from(bytes, q, m).len() == m,
    decreases m,
{
    if m > 0 {
        lemma_endpoints_from_len(bytes, q + endpoint_len(bytes, q), (m - 1) as nat);
    }
}

/// A device's configuration: how many endpoints its interfaces have, the
/// interfaces, the HID descriptors, and the SuperSpeed exit latencies.
pub struct XhciDeviceConfiguration {
    pub num_endpoints: u16,
    pub interfaces: Vec<XhciInterface>,
    pub hid_interfaces: Vec<UsbHID>,
    pub u1_exit_latency: Option<u8>,
    pub u2_exit_latency: Option<u16>,
}

impl XhciDeviceConfiguration {
    /// A configuration with nothing in it.
    pub fn empty() -> (r: Self)
        ensures
            r.num_endpoints == 0,
            r.interfaces@.len() == 0,
            r.hid_interfaces@.len() == 0,
            r.u1_exit_latency is None,
            r.u2_exit_latency is None,
    {
        XhciDeviceConfiguration {
            num_endpoints: 0,
            interfaces: Vec::new(),
            hid_interfaces: Vec::new(),
            u1_exit_latency: None,
            u2_exit_latency: None,
        }
    }

    /// HID descriptor `index`, if there is one (counted in 8 bits).
    pub fn get_hid_interface(&self, index: u8) -> (r: Option<UsbHID>)
        ensures
            index >= self.hid_interfaces@.len() as u8 ==> r is None,
            index < self.hid_interfaces@.len() as u8 ==> r == Some(self.hid_interfaces@[index as int]),
    {
        if index >= self.hid_interfaces.len() as u8 {
            return None;
        }
        Some(self.hid_interfaces[index as usize])
    }

    pub fn get_hid_interface_count(&self) -> (r: u8)
        ensures
            r == self.hid_interfaces@.len() as u8,
    {
        self.hid_interfaces.len() as u8
    }

    /// Interface `index`, if there is one (counted in 8 bits).
    pub fn get_interface(&self, index: u8) -> (r: Option<&XhciInterface>)
        ensures
            index >= self.interfaces@.len() as u8 ==> r is None,
            index < self.interfaces@.len() as u8 ==> r == Some(&self.interfaces@[index as int]),
    {
        if index >= self.interfaces.len() as u8 {
            return None;
        }
        Some(&self.interfaces[index as usize])
    }

    pub fn get_interface_count(&self) -> (r: u8)
        ensures
            r == self.interfaces@.len() as u8,
    {
        self.interfaces.len() as u8
    }

    /// Takes in the descriptor at byte `q` that follows the descriptor of
    /// interface `interface_index`, when it is no endpoint: a SuperSpeed
    /// device capability sets the exit latencies, a HID descriptor is
    /// added. Gives the bytes it takes.
    pub fn handle_special_descriptor(&mut self, bytes: &[u8], q: usize, interface_index: u8) -> (r: u16)
        requires
            q + 2 <= bytes@.len(),
            bytes@[q + 1] == 0x10 || bytes@[q + 1] == 0x21,
            bytes@[q + 1] == 0x10 ==> q + 3 <= bytes@.len() && (bytes@[q + 2] == 3 ==> q + 10 <= bytes@.len()),
            bytes@[q + 1] == 0x21 ==> q + 9 <= bytes@.len(),
        ensures
            r == special_len(bytes@, q as int),
            final(self).num_endpoints == old(self).num_endpoints,
            final(self).interfaces@ == old(self).interfaces@,
            final(self).hid_interfaces@ == if bytes@[q + 1] == 0x21 {
                old(self).hid_interfaces@.push(hid_at(bytes@, q as int, interface_index))
            } else {
                old(self).hid_interfaces@
            },
            (final(self).u1_exit_latency, final(self).u2_exit_latency) == if bytes@[q + 1] == 0x10 && bytes@[q + 2]
                == 3 {
                (Some(bytes@[q + 7]), Some(le_u16_spec(bytes@, q + 8)))
            } else {
                (old(self).u1_exit_latency, old(self).u2_exit_latency)
            },
    {
        let _len = bytes.len();
        if bytes[q + 1] == 0x10 {
            if bytes[q + 2] == 3 {
                self.u1_exit_latency = Some(bytes[q + 7]);
                self.u2_exit_latency = Some(le_u16(bytes, q + 8));
            }
            bytes[q] as u16
        } else {
            self.hid_interfaces.push(
                UsbHID {
                    bcd_hid: le_u16(bytes, q + 2),
                    country_code: bytes[q + 4],
                    num_descriptors: bytes[q + 5],
                    descriptor_type: bytes[q + 6],
                    descriptor_length: le_u16(bytes, q + 7),
                    interface_index,
                },
            );
            9
        }
    }
}

/// Reads `m` endpoints from byte `q`; gives them and where they end.
fn read_endpoints(bytes: &[u8], q: usize, m: u8) -> (r: (Vec<XhciEndpointDescriptor>, usize))
    requires
        endpoints_fit(bytes@, q as int, m as nat),
    ensures
        r.0@ == endpoints_from(bytes@, q as int, m as nat),
        r.1 == endpoints_end(bytes@, q as int, m as nat),
{
    let len = bytes.len();
    let mut v: Vec<XhciEndpointDescriptor> = Vec::new();
    let mut at: usize = q;
    let mut j: u8 = 0;
    while j < m
        invariant
            len == bytes@.len(),
            j <= m,
            endpoints_fit(bytes@, at as int, (m - j) as nat),
            v@ + endpoints_from(bytes@, at as int, (m - j) as nat) == endpoints_from(bytes@, q as int, m as nat),
            endpoints_end(bytes@, at as int, (m - j) as nat) == endpoints_end(bytes@, q as int, m as nat),
        decreases m - j,
    {
        let raw = UsbEndpointDescriptor {
            b_length: bytes[at],
            b_descriptor_type: bytes[at + 1],
            b_endpoint_address: bytes[at + 2],
            bm_attributes: bytes[at + 3],
            w_max_packet_size: le_u16(bytes, at + 4),
            b_interval: bytes[at + 6],
        };
        let mut e = XhciEndpointDescriptor::from_descriptor(&raw);
        let ghost at0 = at;
        at = at + 7;
        if bytes[at + 1] == 48 {
            e.superspeed_max_burst = bytes[at + 2];
            e.superspeed_bm_attributes = bytes[at + 3];
            at = at + 6;
        }
        proof {
            assert(e == endpoint_at(bytes@, at0 as int));
            assert(at == at0 + endpoint_len(bytes@, at0 as int));
            let rest = endpoints_from(bytes@, at as int, (m - j - 1) as nat);
            assert(endpoints_from(bytes@, at0 as int, (m - j) as nat) == seq![e] + rest);
            assert(v@.push(e) + rest =~= v@ + (seq![e] + rest));
        }
        v.push(e);
        j = j + 1;
    }
    proof {
        assert(v@ =~= endpoints_from(bytes@, q as int, m as nat));
    }
    (v, at)
}

impl XhciDeviceConfiguration {
    /// Reads a configuration of `num_interfaces` interfaces whose first
    /// interface descriptor is at byte `start` of `bytes`. After each
    /// interface descriptor one descriptor that is no endpoint is taken in,
    /// then the interface's endpoints are read, each with the SuperSpeed
    /// companion that may follow it.
    pub fn new(bytes: &[u8], start: usize, num_interfaces: u16) -> (r: Self)
        requires
            interfaces_fit(bytes@, start as int, num_interfaces as nat),
            endpoint_total(bytes@, start as int, num_interfaces as nat) <= u16::MAX,
        ensures
            r.num_endpoints == endpoint_total(bytes@, start as int, num_interfaces as nat),
            r.num_endpoints == endpoints_held(r.interfaces@, num_interfaces as nat),
            r.interfaces@.len() == num_interfaces,
            forall|k: int|
                0 <= k < num_interfaces ==> {
                    let p = interface_pos(bytes@, start as int, k as nat);
                    &&& (#[trigger] r.interfaces@[k]).class == bytes@[p + 5]
                    &&& r.interfaces@[k].sub_class == bytes@[p + 6]
                    &&& r.interfaces@[k].protocol == bytes@[p + 7]
                    &&& r.interfaces@[k].endpoints@ == endpoints_from(
                        bytes@,
                        endpoints_start(bytes@, p),
                        bytes@[p + 4] as nat,
                    )
                },
            r.hid_interfaces@ == hids_of(bytes@, start as int, num_interfaces as nat),
            (r.u1_exit_latency, r.u2_exit_latency) == latencies_of(bytes@, start as int, num_interfaces as nat),
    {
        let len = bytes.len();
        let mut ret = XhciDeviceConfiguration::empty();
        let mut p: usize = start;
        let mut i: u16 = 0;
        while i < num_interfaces
            invariant
                len == bytes@.len(),
                i <= num_interfaces,
                interfaces_fit(bytes@, start as int, num_interfaces as nat),
                endpoint_total(bytes@, start as int, num_interfaces as nat) <= u16::MAX,
                p == interface_pos(bytes@, start as int, i as nat),
                ret.num_endpoints == endpoint_total(bytes@, start as int, i as nat),
                ret.num_endpoints == endpoints_held(ret.interfaces@, i as nat),
                ret.interfaces@.len() == i,
                forall|k: int|
                    0 <= k < i ==> {
                        let pk = interface_pos(bytes@, start as int, k as nat);
                        &&& (#[trigger] ret.interfaces@[k]).class == bytes@[pk + 5]
                        &&& ret.interfaces@[k].sub_class == bytes@[pk + 6]
                        &&& ret.interfaces@[k].protocol == bytes@[pk + 7]
                        &&& ret.interfaces@[k].endpoints@ == endpoints_from(
                            bytes@,
                            endpoints_start(bytes@, pk),
                            bytes@[pk + 4] as nat,
                        )
                    },
                ret.hid_interfaces@ == hids_of(bytes@, start as int, i as nat),
                (ret.u1_exit_latency, ret.u2_exit_latency) == latencies_of(bytes@, start as int, i as nat),
            decreases num_interfaces - i,
        {
            proof {
                assert(interface_fits(bytes@, interface_pos(bytes@, start as int, i as nat)));
                lemma_endpoint_total_grows(bytes@, start as int, (i + 1) as nat, num_interfaces as nat);
            }
            let num_endpoints = bytes[p + 4];
            let mut q = p + 9;
            if bytes[q + 1] != 5 {
                let taken = ret.handle_special_descriptor(bytes, q, i as u8);
                q = q + taken as usize;
            }
            let (endpoints, end) = read_endpoints(bytes, q, num_endpoints);
            let interface = XhciInterface::from_raw(bytes, p, endpoints);
            proof {
                lemma_endpoints_from_len(bytes@, q as int, num_endpoints as nat);
                let before = ret.interfaces@;
                assert forall|k: nat| k <= i implies endpoints_held(before.push(interface), k) == endpoints_held(
                    before,
                    k,
                ) by {
                    lemma_endpoints_held_prefix(before, interface, k);
                }
            }
            ret.interfaces.push(interface);
            ret.num_endpoints = ret.num_endpoints + num_endpoints as u16;
            p = end;
            i = i + 1;
        }
        ret
    }
}

proof fn lemma_endpoints_held_prefix(s: Seq<XhciInterface>, x: XhciInterface, k: nat)
    requires
        k <= s.len(),
    ensures
        endpoints_held(s.push(x), k) == endpoints_held(s, k),
    decreases k,
{
    if k > 0 {
        lemma_endpoints_held_prefix(s, x, (k - 1) as nat);
        assert(s.push(x)[k - 1] == s[k - 1]);
    }
}

proof fn lemma_endpoint_total_grows(bytes: Seq<u8>, start: int, k: nat, n: nat)
    requires
        k <= n,
    ensures
        endpoint_total(bytes, start, k) <= endpoint_total(bytes, start, n),
    decreases n - k,
{
    if k < n {
        lemma_endpoint_total_grows(bytes, start, k, (n - 1) as nat);
    }
}

} // verus!
