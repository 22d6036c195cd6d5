//! The error taxonomy and the parameter records of control transfers.
use crate::filter::DeviceIdentity;
use crate::lifecycle::{claim_outcome, release_all_outcome, DeviceState, InterfaceClaim, Lifecycle};
use vstd::prelude::*;

verus! {

/// An error from a USB operation.
///
/// Every operation of the library resolves its failures onto exactly one of
/// these categories.
#[derive(Debug)]
pub enum Error {
    /// No device matched the supplied filters.
    DeviceNotFound,
    /// A control or bulk transfer failed at the transport level.
    TransferError,
    /// Opening, claiming, resetting or forgetting failed; carries the
    /// transport's diagnostic.
    CommunicationError(String),
    /// The device was removed, physically or logically.
    Disconnected,
    /// The handle is stale relative to its device's current state.
    Invalid,
}

impl Error {
    /// The text that describes this error.
    pub fn message(&self) -> (r: String)
        ensures
            r@ == self.message_spec(),
    {
        match self {
            Error::DeviceNotFound => String::from_str("device not found"),
            Error::TransferError => String::from_str("device transfer failed"),
            Error::CommunicationError(_) => String::from_str("device communication failed"),
            Error::Disconnected => String::from_str("device disconnected"),
            Error::Invalid => String::from_str("device no longer valid"),
        }
    }

    pub open spec fn message_spec(&self) -> Seq<char> {
        match self {
            Error::DeviceNotFound => "device not found"@,
            Error::TransferError => "device transfer failed"@,
            Error::CommunicationError(_) => "device communication failed"@,
            Error::Disconnected => "device disconnected"@,
            Error::Invalid => "device no longer valid"@,
        }
    }
}

impl PartialEq for Error {
    fn eq(&self, o: &Error) -> (r: bool) {
        match (self, o) {
            (Error::DeviceNotFound, Error::DeviceNotFound) => true,
            (Error::TransferError, Error::TransferError) => true,
            (Error::CommunicationError(a), Error::CommunicationError(b)) => a.eq(b),
            (Error::Disconnected, Error::Disconnected) => true,
            (Error::Invalid, Error::Invalid) => true,
            _ => false,
        }
    }
}

impl vstd::std_specs::cmp::PartialEqSpecImpl for Error {
    open spec fn obeys_eq_spec() -> bool {
        true
    }

    open spec fn eq_spec(&self, o: &Error) -> bool {
        match (self, o) {
            (Error::DeviceNotFound, Error::DeviceNotFound) => true,
            (Error::TransferError, Error::TransferError) => true,
            (Error::CommunicationError(a), Error::CommunicationError(b)) => a@ == b@,
            (Error::Disconnected, Error::Disconnected) => true,
            (Error::Invalid, Error::Invalid) => true,
            _ => false,
        }
    }
}

impl Eq for Error {
}

/// The type of a USB control transfer.
#[derive(Clone, Copy, Debug, PartialEq, Eq, Structural)]
pub enum ControlType {
    /// A standard transfer.
    Standard,
    /// A class transfer.
    Class,
    /// A vendor-defined transfer.
    Vendor,
}

/// The recipient of a USB control transfer.
#[derive(Clone, Copy, Debug, PartialEq, Eq, Structural)]
pub enum Recipient {
    /// The device is the recipient.
    Device,
    /// An interface is the recipient.
    Interface,
    /// An endpoint is the recipient.
    Endpoint,
    /// Something else is the recipient.
    Other,
}

/// Parameters of a control IN transfer (device to host).
#[derive(Clone, Copy, Debug, PartialEq, Eq, Structural)]
pub struct ControlIn {
    /// The type of the transfer, in the `bmRequestType` field.
    pub control_type: ControlType,
    /// The recipient of the transfer, in the `bmRequestType` field.
    pub recipient: Recipient,
    /// The `bRequest` field.
    pub request: u8,
    /// The `wValue` field.
    pub value: u16,
    /// The `wIndex` field.
    pub index: u16,
    /// The number of bytes to read.
    pub length: u16,
}

/// Parameters of a control OUT transfer (host to device); the data is
/// borrowed for the duration of the call.
#[derive(Clone, Copy, Debug)]
pub struct ControlOut<'a> {
    /// The type of the transfer, in the `bmRequestType` field.
    pub control_type: ControlType,
    /// The recipient of the transfer, in the `bmRequestType` field.
    pub recipient: Recipient,
    /// The `bRequest` field.
    pub request: u8,
    /// The `wValue` field.
    pub value: u16,
    /// The `wIndex` field.
    pub index: u16,
    /// The data to send.
    pub data: &'a [u8],
}

/// A device found by discovery and not yet opened.
pub trait UsbDeviceInfo: Sized {
    /// The opened device.
    type Device: UsbDevice;

    /// The identity read at discovery.
    spec fn identity_spec(&self) -> DeviceIdentity;

    /// The manufacturer string read at discovery, if any.
    spec fn manufacturer_spec(&self) -> Option<Seq<char>>;

    /// The product string read at discovery, if any.
    spec fn product_spec(&self) -> Option<Seq<char>>;

    /// Opens the device, with no interface claimed yet. A failure to open is
    /// a communication error.
    fn open(self) -> (r: Result<Self::Device, Error>)
        ensures
            match r {
                Ok(d) => {
                    &&& d.wf()
                    &&& d.identity_spec() == self.identity_spec()
                    &&& d.manufacturer_spec() == self.manufacturer_spec()
                    &&& d.product_spec() == self.product_spec()
                    &&& d.lifecycle_spec().phase() == DeviceState::Opened
                    &&& d.lifecycle_spec().live_claims() == Seq::<InterfaceClaim>::empty()
                },
                Err(e) => e is CommunicationError,
            },
    ;

    /// The 16-bit product id.
    fn product_id(&self) -> (r: u16)
        ensures
            r == self.identity_spec().product_id,
    ;

    /// The 16-bit vendor id.
    fn vendor_id(&self) -> (r: u16)
        ensures
            r == self.identity_spec().vendor_id,
    ;

    /// The standard device class.
    fn class(&self) -> (r: u8)
        ensures
            r == self.identity_spec().class,
    ;

    /// The standard device subclass.
    fn subclass(&self) -> (r: u8)
        ensures
            r == self.identity_spec().subclass,
    ;

    /// The manufacturer string, where the platform gives it without device
    /// I/O; absent otherwise.
    fn manufacturer_string(&self) -> (r: Option<String>)
        ensures
            match r {
                Some(s) => self.manufacturer_spec() == Some(s@),
                None => self.manufacturer_spec() is None,
            },
    ;

    /// The product string, where the platform gives it without device I/O;
    /// absent otherwise.
    fn product_string(&self) -> (r: Option<String>)
        ensures
            match r {
                Some(s) => self.product_spec() == Some(s@),
                None => self.product_spec() is None,
            },
    ;
}

/// An opened device. Interfaces are claimed through it, and named by the
/// claims it hands out.
pub trait UsbDevice: Sized {
    /// The identity read at discovery.
    spec fn identity_spec(&self) -> DeviceIdentity;

    /// The manufacturer string read at discovery, if any.
    spec fn manufacturer_spec(&self) -> Option<Seq<char>>;

    /// The product string read at discovery, if any.
    spec fn product_spec(&self) -> Option<Seq<char>>;

    /// The state of the device and its live claims.
    spec fn lifecycle_spec(&self) -> Lifecycle;

    /// The device's own invariant.
    spec fn wf(&self) -> bool;

    /// The transport keeps a set of authorized devices, which a forget
    /// removes the device from.
    spec fn keeps_authorized_set(&self) -> bool;

    /// Claims interface `number`.
    fn open_interface(&mut self, number: u8) -> (r: Result<InterfaceClaim, Error>)
        requires
            old(self).wf(),
        ensures
            final(self).wf(),
            final(self).identity_spec() == old(self).identity_spec(),
            claim_outcome(old(self).lifecycle_spec(), final(self).lifecycle_spec(), number, r),
    ;

    /// Claims interface `number` after detaching any driver that holds it,
    /// where the platform has such drivers; elsewhere as `open_interface`.
    fn detach_and_open_interface(&mut self, number: u8) -> (r: Result<InterfaceClaim, Error>)
        requires
            old(self).wf(),
        ensures
            final(self).wf(),
            final(self).identity_spec() == old(self).identity_spec(),
            claim_outcome(old(self).lifecycle_spec(), final(self).lifecycle_spec(), number, r),
    ;

    /// Resets the device, after which it is no longer usable and a fresh
    /// discovery is needed.
    fn reset(&mut self) -> (r: Result<(), Error>)
        requires
            old(self).wf(),
        ensures
            final(self).wf(),
            final(self).identity_spec() == old(self).identity_spec(),
            release_all_outcome(old(self).lifecycle_spec(), final(self).lifecycle_spec(), r),
            r is Ok ==> final(self).lifecycle_spec().phase() == DeviceState::Reset,
    ;

    /// Removes the device from the authorized set, where the transport has
    /// one; elsewhere a reset.
    fn forget(&mut self) -> (r: Result<(), Error>)
        requires
            old(self).wf(),
        ensures
            final(self).wf(),
            final(self).identity_spec() == old(self).identity_spec(),
            release_all_outcome(old(self).lifecycle_spec(), final(self).lifecycle_spec(), r),
            r is Ok ==> final(self).lifecycle_spec().phase() == (if old(self).keeps_authorized_set() {
                DeviceState::Forgotten
            } else {
                DeviceState::Reset
            }),
    ;

    /// The 16-bit product id.
    fn product_id(&self) -> (r: u16)
        ensures
            r == self.identity_spec().product_id,
    ;

    /// The 16-bit vendor id.
    fn vendor_id(&self) -> (r: u16)
        ensures
            r == self.identity_spec().vendor_id,
    ;

    /// The standard device class.
    fn class(&self) -> (r: u8)
        ensures
            r == self.identity_spec().class,
    ;

    /// The standard device subclass.
    fn subclass(&self) -> (r: u8)
        ensures
            r == self.identity_spec().subclass,
    ;

    /// The manufacturer string read at discovery, if any.
    fn manufacturer_string(&self) -> (r: Option<String>)
        ensures
            match r {
                Some(s) => self.manufacturer_spec() == Some(s@),
                None => self.manufacturer_spec() is None,
            },
    ;

    /// The product string read at discovery, if any.
    fn product_string(&self) -> (r: Option<String>)
        ensures
            match r {
                Some(s) => self.product_spec() == Some(s@),
                None => self.product_spec() is None,
            },
    ;
}

} // verus!
