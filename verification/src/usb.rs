//! The USB control-transfer values that a device class sees and answers with.
use vstd::prelude::*;

verus! {

/// `bmRequestType` recipient code of an interface.
pub const RECIPIENT_INTERFACE: u16 = 1;

/// The standard `SET_INTERFACE` request addressed to an interface, as
/// `bmRequestType | bRequest << 8`.
pub const INTERFACE_SET_INTERFACE: u16 = 0x0B01;

/// The 8-byte setup packet of a control transfer.
#[derive(Clone, Copy, Debug, PartialEq, Eq, Structural)]
pub struct SetupPacket {
    /// `bmRequestType | bRequest << 8`.
    pub request: u16,
    pub value: u16,
    pub index: u16,
    pub length: u16,
}

impl SetupPacket {
    /// The packet whose bytes are the two little-endian words `words`.
    pub open spec fn decode(words: [u32; 2]) -> Self {
        SetupPacket {
            request: (words[0] % 0x1_0000) as u16,
            value: (words[0] / 0x1_0000) as u16,
            index: (words[1] % 0x1_0000) as u16,
            length: (words[1] / 0x1_0000) as u16,
        }
    }

    /// Builds the packet from its two little-endian words.
    pub fn new(words: [u32; 2]) -> (r: Self)
        ensures
            r == Self::decode(words),
    {
        SetupPacket {
            request: (words[0] % 0x1_0000) as u16,
            value: (words[0] / 0x1_0000) as u16,
            index: (words[1] % 0x1_0000) as u16,
            length: (words[1] / 0x1_0000) as u16,
        }
    }

    /// The recipient field of `bmRequestType`.
    pub open spec fn recipient(self) -> u16 {
        self.request % 0x20
    }

    /// The request, as `bmRequestType | bRequest << 8`.
    pub fn request(&self) -> (r: u16)
        ensures
            r == self.request,
    {
        self.request
    }

    /// `wValue`.
    pub fn value(&self) -> (r: u16)
        ensures
            r == self.value,
    {
        self.value
    }

    /// `wIndex`.
    pub fn index(&self) -> (r: u16)
        ensures
            r == self.index,
    {
        self.index
    }

    /// `wLength`.
    pub fn length(&self) -> (r: u16)
        ensures
            r == self.length,
    {
        self.length
    }
}

/// A data packet received on an OUT endpoint.
#[derive(Clone, Debug)]
pub struct UsbPacket {
    pub ep: u8,
    pub data: Vec<u8>,
}

/// An event delivered to a device class.
#[derive(Clone, Debug)]
pub enum UsbEvent {
    /// A setup packet arrived on `endpoint`.
    SetupPacket { pkt: SetupPacket, endpoint: u8 },
    /// A data packet arrived on an OUT endpoint.
    DataOutPacket(UsbPacket),
}

/// What a device class asks the USB stack to do next.
#[derive(Clone, Debug)]
pub enum UsbAction {
    /// Nothing.
    NoAction,
    /// Send `data` on the IN endpoint, ending with a zero-length packet if `zlp`.
    TransferIn { endpoint: u8, data: Vec<u8>, zlp: bool },
    /// The same as `TransferIn`, for data without alignment guarantees.
    TransferInUnaligned { endpoint: u8, data: Vec<u8>, zlp: bool },
    /// Stall both directions of the endpoint.
    StallInAndOut { endpoint: u8 },
}

/// A `UsbAction` with its data as a sequence.
pub ghost enum ActionView {
    NoAction,
    TransferIn { endpoint: u8, data: Seq<u8>, zlp: bool },
    TransferInUnaligned { endpoint: u8, data: Seq<u8>, zlp: bool },
    StallInAndOut { endpoint: u8 },
}

impl View for UsbAction {
    type V = ActionView;

    open spec fn view(&self) -> ActionView {
        match self {
            UsbAction::NoAction => ActionView::NoAction,
            UsbAction::TransferIn { endpoint, data, zlp } => ActionView::TransferIn {
                endpoint: *endpoint,
                data: data@,
                zlp: *zlp,
            },
            UsbAction::TransferInUnaligned { endpoint, data, zlp } => ActionView::TransferInUnaligned {
                endpoint: *endpoint,
                data: data@,
                zlp: *zlp,
            },
            UsbAction::StallInAndOut { endpoint } => ActionView::StallInAndOut { endpoint: *endpoint },
        }
    }
}

/// An acknowledgement: a zero-length IN transfer on endpoint 0.
pub open spec fn ack() -> ActionView {
    ActionView::TransferIn { endpoint: 0, data: Seq::empty(), zlp: true }
}

/// A stall of endpoint 0.
pub open spec fn stall() -> ActionView {
    ActionView::StallInAndOut { endpoint: 0 }
}

/// Builds an acknowledgement.
pub fn ack_action() -> (r: UsbAction)
    ensures
        r@ == ack(),
{
    UsbAction::TransferIn { endpoint: 0, data: Vec::new(), zlp: true }
}

/// Builds a stall of endpoint 0.
pub fn stall_action() -> (r: UsbAction)
    ensures
        r@ == stall(),
{
    UsbAction::StallInAndOut { endpoint: 0 }
}

/// The index of a string descriptor.
#[derive(Clone, Copy, Debug, PartialEq, Eq, Structural)]
pub struct StringHandle(pub u8);

/// A class-specific descriptor: its type and the bytes that follow the
/// length and type bytes.
#[derive(Clone, Debug)]
pub struct FunctionalDescriptor {
    pub descriptor_type: u8,
    pub data: Vec<u8>,
}

/// An interface descriptor.
#[derive(Clone, Debug)]
pub struct InterfaceDescriptor {
    pub name: StringHandle,
    pub interface_number: u8,
    pub alternate_setting: u8,
    pub interface_class: u8,
    pub interface_sub_class: u8,
    pub interface_protocol: u8,
    pub func_descs: Vec<FunctionalDescriptor>,
    /// The number of endpoints besides endpoint 0.
    pub num_endpoints: u8,
}

} // verus!
