//! Standard USB device requests: the eight-byte setup packets that the
//! control endpoint of a device is sent, as the UHCI and xHCI drivers build
//! them.
use vstd::prelude::*;

verus! {

/// The request codes of the standard device requests.
#[derive(Clone, Copy, PartialEq, Eq, Structural, Debug)]
pub enum UsbRequestCode {
    GetStatus,
    ClearFeature,
    SetFeature,
    SetAddress,
    GetDescriptor,
    SetDescriptor,
    GetConfiguration,
    SetConfiguration,
    GetInterface,
    SetInterface,
    SynchFrame,
}

impl UsbRequestCode {
    pub open spec fn code_spec(self) -> u8 {
        match self {
            UsbRequestCode::GetStatus => 0,
            UsbRequestCode::ClearFeature => 1,
            UsbRequestCode::SetFeature => 3,
            UsbRequestCode::SetAddress => 5,
            UsbRequestCode::GetDescriptor => 6,
            UsbRequestCode::SetDescriptor => 7,
            UsbRequestCode::GetConfiguration => 8,
            UsbRequestCode::SetConfiguration => 9,
            UsbRequestCode::GetInterface => 10,
            UsbRequestCode::SetInterface => 11,
            UsbRequestCode::SynchFrame => 12,
        }
    }

    /// The value of the request field of the setup packet.
    pub fn code(&self) -> (r: u8)
        ensures
            r == self.code_spec(),
    {
        match self {
            UsbRequestCode::GetStatus => 0,
            UsbRequestCode::ClearFeature => 1,
            UsbRequestCode::SetFeature => 3,
            UsbRequestCode::SetAddress => 5,
            UsbRequestCode::GetDescriptor => 6,
            UsbRequestCode::SetDescriptor => 7,
            UsbRequestCode::GetConfiguration => 8,
            UsbRequestCode::SetConfiguration => 9,
            UsbRequestCode::GetInterface => 10,
            UsbRequestCode::SetInterface => 11,
            UsbRequestCode::SynchFrame => 12,
        }
    }
}

/// What a request is addressed to: the device, one of its interfaces, or
/// one of its endpoints.
#[derive(Clone, Copy, PartialEq, Eq, Structural, Debug)]
pub enum UsbRecipient {
    Zero,
    Interface(u8),
    Endpoint(u8),
}

/// Features that can be set and cleared.
#[derive(Clone, Copy, PartialEq, Eq, Structural, Debug)]
pub enum UsbFeatureSelector {
    EndpointHalt,
    DeviceRemoteWakeup,
    TestMode,
}

impl UsbFeatureSelector {
    pub open spec fn value_spec(self) -> u16 {
        match self {
            UsbFeatureSelector::EndpointHalt => 0,
            UsbFeatureSelector::DeviceRemoteWakeup => 1,
            UsbFeatureSelector::TestMode => 2,
        }
    }

    /// The selector's number.
    pub fn value(&self) -> (r: u16)
        ensures
            r == self.value_spec(),
    {
        match self {
            UsbFeatureSelector::EndpointHalt => 0,
            UsbFeatureSelector::DeviceRemoteWakeup => 1,
            UsbFeatureSelector::TestMode => 2,
        }
    }
}

/// Kinds of descriptors a device can be asked for.
#[derive(Clone, Copy, PartialEq, Eq, Structural, Debug)]
pub enum UsbDescriptorType {
    Device,
    Configuration,
    String,
    Interface,
    Endpoint,
}

impl UsbDescriptorType {
    pub open spec fn value_spec(self) -> u16 {
        match self {
            UsbDescriptorType::Device => 1,
            UsbDescriptorType::Configuration => 2,
            UsbDescriptorType::String => 3,
            UsbDescriptorType::Interface => 4,
            UsbDescriptorType::Endpoint => 5,
        }
    }

    /// The descriptor type's number.
    pub fn value(&self) -> (r: u16)
        ensures
            r == self.value_spec(),
    {
        match self {
            UsbDescriptorType::Device => 1,
            UsbDescriptorType::Configuration => 2,
            UsbDescriptorType::String => 3,
            UsbDescriptorType::Interface => 4,
            UsbDescriptorType::Endpoint => 5,
        }
    }
}

/// A setup packet.
#[derive(Clone, Copy, PartialEq, Eq, Structural, Debug)]
pub struct UsbStandardDeviceRequest {
    pub bm_request_type: u8,
    pub b_request: u8,
    pub w_value: u16,
    pub w_index: u16,
    pub w_length: u16,
}

/// The setup packet with these fields.
pub open spec fn request_of(bm_request_type: u8, b_request: u8, w_value: u16, w_index: u16, w_length: u16) -> UsbStandardDeviceRequest {
    UsbStandardDeviceRequest { bm_request_type, b_request, w_value, w_index, w_length }
}

impl UsbStandardDeviceRequest {
    /// A standard request with the given request code.
    pub fn new(bm_request_type: u8, b_request: UsbRequestCode, w_value: u16, w_index: u16, w_length: u16) -> (r: Self)
        ensures
            r == request_of(bm_request_type, b_request.code_spec(), w_value, w_index, w_length),
    {
        UsbStandardDeviceRequest { bm_request_type, b_request: b_request.code(), w_value, w_index, w_length }
    }

    /// The eight bytes of the packet as the device reads them: the two
    /// single bytes, then each 16-bit field low byte first.
    pub fn to_bytes(&self) -> (r: [u8; 8])
        ensures
            r@ == seq![
                self.bm_request_type,
                self.b_request,
                (self.w_value % 256) as u8,
                (self.w_value / 256) as u8,
                (self.w_index % 256) as u8,
                (self.w_index / 256) as u8,
                (self.w_length % 256) as u8,
                (self.w_length / 256) as u8,
            ],
    {
        let r = [
            self.bm_request_type,
            self.b_request,
            (self.w_value % 256) as u8,
            (self.w_value / 256) as u8,
            (self.w_index % 256) as u8,
            (self.w_index / 256) as u8,
            (self.w_length % 256) as u8,
            (self.w_length / 256) as u8,
        ];
        assert(r@ =~= seq![
            self.bm_request_type,
            self.b_request,
            (self.w_value % 256) as u8,
            (self.w_value / 256) as u8,
            (self.w_index % 256) as u8,
            (self.w_index / 256) as u8,
            (self.w_length % 256) as u8,
            (self.w_length / 256) as u8,
        ]);
        r
    }
}

/// The recipient bits of the request type, and the index field, for a
/// recipient.
pub open spec fn recipient_spec(recipient: UsbRecipient) -> (u8, u16) {
    match recipient {
        UsbRecipient::Zero => (0, 0),
        UsbRecipient::Interface(interface) => (1, interface as u16),
        UsbRecipient::Endpoint(endpoint) => (2, endpoint as u16),
    }
}

/// The recipient bits of the request type, and the index field.
pub fn recipient_fields(recipient: UsbRecipient) -> (r: (u8, u16))
    ensures
        r == recipient_spec(recipient),
{
    match recipient {
        UsbRecipient::Zero => (0, 0),
        UsbRecipient::Interface(interface) => (1, interface as u16),
        UsbRecipient::Endpoint(endpoint) => (2, endpoint as u16),
    }
}

/// CLEAR_FEATURE as the UHCI driver sends it: the selector is not put in
/// the value field, which stays zero, and one byte of data is announced.
pub fn uhci_clear_feature_request(feature_selector: UsbFeatureSelector, recipient: UsbRecipient) -> (r: UsbStandardDeviceRequest)
    ensures
        r == request_of(recipient_spec(recipient).0, 1, 0, recipient_spec(recipient).1, 1),
{
    let (bm, w_index) = recipient_fields(recipient);
    UsbStandardDeviceRequest::new(bm, UsbRequestCode::ClearFeature, 0, w_index, 1)
}

/// CLEAR_FEATURE as the xHCI driver sends it.
pub fn xhci_clear_feature_request(feature_selector: UsbFeatureSelector, recipient: UsbRecipient) -> (r: UsbStandardDeviceRequest)
    ensures
        r == request_of(
            recipient_spec(recipient).0,
            1,
            feature_selector.value_spec(),
            recipient_spec(recipient).1,
            0,
        ),
{
    let (bm, w_index) = recipient_fields(recipient);
    UsbStandardDeviceRequest::new(bm, UsbRequestCode::ClearFeature, feature_selector.value(), w_index, 0)
}

/// SET_FEATURE, the same for both drivers.
pub fn set_feature_request(feature_selector: UsbFeatureSelector, recipient: UsbRecipient) -> (r: UsbStandardDeviceRequest)
    ensures
        r == request_of(
            recipient_spec(recipient).0,
            3,
            feature_selector.value_spec(),
            recipient_spec(recipient).1,
            0,
        ),
{
    let (bm, w_index) = recipient_fields(recipient);
    UsbStandardDeviceRequest::new(bm, UsbRequestCode::SetFeature, feature_selector.value(), w_index, 0)
}

/// The language of a string descriptor, zero for none.
pub open spec fn language_spec(language_id: Option<u16>) -> u16 {
    match language_id {
        Some(id) => id,
        None => 0,
    }
}

/// GET_DESCRIPTOR as the UHCI driver sends it, for at most 1024 bytes.
pub fn uhci_get_descriptor_request(
    descriptor_type: UsbDescriptorType,
    descriptor_index: u8,
    language_id: Option<u16>,
    descriptor_length: u16,
) -> (r: UsbStandardDeviceRequest)
    requires
        descriptor_length <= 1024,
    ensures
        r == request_of(
            0x80,
            6,
            (descriptor_type.value_spec() * 256 + descriptor_index) as u16,
            language_spec(language_id),
            descriptor_length,
        ),
{
    let language = match language_id {
        Some(id) => id,
        None => 0,
    };
    let w_value = descriptor_type.value() * 256 + descriptor_index as u16;
    UsbStandardDeviceRequest::new(0x80, UsbRequestCode::GetDescriptor, w_value, language, descriptor_length)
}

/// GET_DESCRIPTOR as the xHCI driver sends it: the descriptor index is not
/// put in the value field.
pub fn xhci_get_descriptor_request(
    descriptor_type: UsbDescriptorType,
    descriptor_index: u8,
    language_id: Option<u16>,
    descriptor_length: u16,
) -> (r: UsbStandardDeviceRequest)
    ensures
        r == request_of(
            0x80,
            6,
            (descriptor_type.value_spec() * 256) as u16,
            language_spec(language_id),
            descriptor_length,
        ),
{
    let language = match language_id {
        Some(id) => id,
        None => 0,
    };
    UsbStandardDeviceRequest::new(0x80, UsbRequestCode::GetDescriptor, descriptor_type.value() * 256, language, descriptor_length)
}

/// SET_DESCRIPTOR, for at most 1024 bytes.
pub fn set_descriptor_request(
    descriptor_type: UsbDescriptorType,
    descriptor_index: u8,
    language_id: Option<u16>,
    descriptor_length: u16,
) -> (r: UsbStandardDeviceRequest)
    requires
        descriptor_length <= 1024,
    ensures
        r == request_of(
            0,
            7,
            (descriptor_type.value_spec() * 256 + descriptor_index) as u16,
            language_spec(language_id),
            descriptor_length,
        ),
{
    let language = match language_id {
        Some(id) => id,
        None => 0,
    };
    let w_value = descriptor_type.value() * 256 + descriptor_index as u16;
    UsbStandardDeviceRequest::new(0, UsbRequestCode::SetDescriptor, w_value, language, descriptor_length)
}

/// GET_INTERFACE: one byte, the alternate setting of `interface`.
pub fn get_interface_request(interface: u16) -> (r: UsbStandardDeviceRequest)
    ensures
        r == request_of(0x80, 10, 0, interface, 1),
{
    UsbStandardDeviceRequest::new(0x80, UsbRequestCode::GetInterface, 0, interface, 1)
}

/// GET_STATUS: two bytes of status of the recipient.
pub fn get_status_request(recipient: UsbRecipient) -> (r: UsbStandardDeviceRequest)
    ensures
        r == request_of((0x80 + recipient_spec(recipient).0) as u8, 0, 0, recipient_spec(recipient).1, 2),
{
    let (bm, w_index) = recipient_fields(recipient);
    UsbStandardDeviceRequest::new(0x80 + bm, UsbRequestCode::GetStatus, 0, w_index, 2)
}

/// SET_ADDRESS.
pub fn set_address_request(device_address: u16) -> (r: UsbStandardDeviceRequest)
    ensures
        r == request_of(0, 5, device_address, 0, 0),
{
    UsbStandardDeviceRequest::new(0, UsbRequestCode::SetAddress, device_address, 0, 0)
}

/// SET_CONFIGURATION.
pub fn set_configuration_request(configuration: u8) -> (r: UsbStandardDeviceRequest)
    ensures
        r == request_of(0, 9, configuration as u16, 0, 0),
{
    UsbStandardDeviceRequest::new(0, UsbRequestCode::SetConfiguration, configuration as u16, 0, 0)
}

/// SET_INTERFACE: selects an alternate setting of `interface`.
pub fn set_interface_request(alternate_setting: u8, interface: u16) -> (r: UsbStandardDeviceRequest)
    ensures
        r == request_of(1, 11, alternate_setting as u16, interface, 0),
{
    UsbStandardDeviceRequest::new(1, UsbRequestCode::SetInterface, alternate_setting as u16, interface, 0)
}

/// SYNCH_FRAME: two bytes, the frame number of `endpoint`.
pub fn synch_frame_request(endpoint: u16) -> (r: UsbStandardDeviceRequest)
    ensures
        r == request_of(0x82, 12, 0, endpoint, 2),
{
    UsbStandardDeviceRequest::new(0x82, UsbRequestCode::SynchFrame, 0, endpoint, 2)
}

/// GET_CONFIGURATION: one byte, the current configuration.
pub fn get_configuration_request() -> (r: UsbStandardDeviceRequest)
    ensures
        r == request_of(0x80, 8, 0, 0, 1),
{
    UsbStandardDeviceRequest::new(0x80, UsbRequestCode::GetConfiguration, 0, 0, 1)
}

/// A class request to an interface (type 0x21), such as HID's SET_PROTOCOL.
pub fn set_protocol_request(request: u8, w_value: u16, interface: u16) -> (r: UsbStandardDeviceRequest)
    ensures
        r == request_of(0x21, request, w_value, interface, 0),
{
    UsbStandardDeviceRequest { bm_request_type: 0x21, b_request: request, w_value, w_index: interface, w_length: 0 }
}

} // verus!
