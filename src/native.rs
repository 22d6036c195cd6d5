//! The native transport: devices enumerated, opened, claimed and reset
//! through the operating system's USB stack (`nusb`).
use crate::filter::{any_selects, matches_any, selected_identities, DeviceFilter, DeviceIdentity};
use crate::lifecycle::{claim_outcome, release_all_outcome, DeviceState, InterfaceClaim, Lifecycle};
use crate::transfer::{finish_read, finish_write, TransferFault, UsbInterface};
use crate::usb::{ControlIn, ControlOut, ControlType, Error, Recipient, UsbDevice, UsbDeviceInfo};
use nusb::transfer::ControlType as WireControlType;
use nusb::transfer::Recipient as WireRecipient;
use nusb::transfer::TransferError as WireTransferError;
use nusb::Device as OpenedHandle;
use nusb::DeviceInfo as AttachedInfo;
use nusb::Interface as ClaimedHandle;
use vstd::prelude::*;

verus! {

#[verifier::external_type_specification]
#[verifier::external_body]
pub struct ExNusbDeviceInfo(AttachedInfo);

#[verifier::external_type_specification]
#[verifier::external_body]
pub struct ExNusbDevice(OpenedHandle);

#[verifier::external_type_specification]
#[verifier::external_body]
pub struct ExNusbInterface(ClaimedHandle);

#[verifier::external_type_specification]
#[verifier::external_body]
pub struct ExNusbTransferError(WireTransferError);

#[verifier::external_type_specification]
#[verifier::external_body]
pub struct ExNusbControlType(WireControlType);

#[verifier::external_type_specification]
#[verifier::external_body]
pub struct ExNusbRecipient(WireRecipient);

/// Relies on `nusb::DeviceInfo::vendor_id`: the `idVendor` field of the device descriptor.
#[verifier::external_body]
fn info_vendor_id(info: &AttachedInfo) -> (r: u16) {
    info.vendor_id()
}

/// Relies on `nusb::DeviceInfo::product_id`: the `idProduct` field of the device descriptor.
#[verifier::external_body]
fn info_product_id(info: &AttachedInfo) -> (r: u16) {
    info.product_id()
}

/// Relies on `nusb::DeviceInfo::class`: the `bDeviceClass` field of the device descriptor.
#[verifier::external_body]
fn info_class(info: &AttachedInfo) -> (r: u8) {
    info.class()
}

/// Relies on `nusb::DeviceInfo::subclass`: the `bDeviceSubClass` field of the device descriptor.
#[verifier::external_body]
fn info_subclass(info: &AttachedInfo) -> (r: u8) {
    info.subclass()
}

/// Relies on `nusb::DeviceInfo::protocol`: the `bDeviceProtocol` field of the device descriptor.
#[verifier::external_body]
fn info_protocol(info: &AttachedInfo) -> (r: u8) {
    info.protocol()
}

/// Relies on `nusb::DeviceInfo::manufacturer_string`: the manufacturer string, where the
/// platform has it without device I/O.
#[verifier::external_body]
fn info_manufacturer_string(info: &AttachedInfo) -> (r: Option<String>) {
    info.manufacturer_string().map(str::to_owned)
}

/// Relies on `nusb::DeviceInfo::product_string`: the product string, where the
/// platform has it without device I/O.
#[verifier::external_body]
fn info_product_string(info: &AttachedInfo) -> (r: Option<String>) {
    info.product_string().map(str::to_owned)
}

/// Relies on `nusb::list_devices`: the devices attached now, in the order
/// the platform enumerates them; a failure carries the platform's message.
#[verifier::external_body]
fn list_attached() -> (r: Result<Vec<AttachedInfo>, String>) {
    nusb::list_devices().map(|devices| devices.collect()).map_err(|e| e.to_string())
}

/// Relies on `nusb::DeviceInfo::open`: opens the device; a failure carries
/// the platform's message.
#[verifier::external_body]
fn open_attached(info: &AttachedInfo) -> (r: Result<OpenedHandle, String>) {
    info.open().map_err(|e| e.to_string())
}

/// Relies on `nusb::Device::claim_interface`: claims interface `number`.
#[verifier::external_body]
fn claim_on(device: &OpenedHandle, number: u8) -> (r: Result<ClaimedHandle, String>) {
    device.claim_interface(number).map_err(|e| e.to_string())
}

/// Relies on `nusb::Device::detach_and_claim_interface`: detaches a kernel
/// driver from interface `number`, where the platform has one, and claims it.
#[verifier::external_body]
fn detach_and_claim_on(device: &OpenedHandle, number: u8) -> (r: Result<ClaimedHandle, String>) {
    device.detach_and_claim_interface(number).map_err(|e| e.to_string())
}

/// Relies on `nusb::Device::reset`: resets the device, after which the
/// handle is no longer usable. It returns an `io::Result` from one ioctl
/// (an error where the platform has no reset) and does not panic.
#[verifier::external_body]
fn reset_on(device: &OpenedHandle) -> (r: Result<(), String>)
    opens_invariants none
    no_unwind
{
    device.reset().map_err(|e| e.to_string())
}

/// Relies on the variants of `nusb::transfer::TransferError`, one for one.
#[verifier::external_body]
fn fault_of(e: WireTransferError) -> (r: TransferFault) {
    match e {
        WireTransferError::Cancelled => TransferFault::Cancelled,
        WireTransferError::Stall => TransferFault::Stall,
        WireTransferError::Disconnected => TransferFault::Disconnected,
        WireTransferError::Fault => TransferFault::Fault,
        WireTransferError::Unknown => TransferFault::Unknown,
    }
}

/// Relies on the variants of `nusb::transfer::ControlType`, one for one.
#[verifier::external_body]
fn nusb_control_type(t: ControlType) -> (r: WireControlType) {
    match t {
        ControlType::Standard => WireControlType::Standard,
        ControlType::Class => WireControlType::Class,
        ControlType::Vendor => WireControlType::Vendor,
    }
}

/// Relies on the variants of `nusb::transfer::Recipient`, one for one.
#[verifier::external_body]
fn nusb_recipient(t: Recipient) -> (r: WireRecipient) {
    match t {
        Recipient::Device => WireRecipient::Device,
        Recipient::Interface => WireRecipient::Interface,
        Recipient::Endpoint => WireRecipient::Endpoint,
        Recipient::Other => WireRecipient::Other,
    }
}

/// Relies on `nusb::Interface::control_in`, waited on until it completes:
/// the bytes the device returned.
#[verifier::external_body]
fn control_in_on(
    interface: &ClaimedHandle,
    control_type: WireControlType,
    recipient: WireRecipient,
    data: ControlIn,
) -> (r: Result<Vec<u8>, WireTransferError>) {
    let request = nusb::transfer::ControlIn {
        control_type,
        recipient,
        request: data.request,
        value: data.value,
        index: data.index,
        length: data.length,
    };
    futures_lite::future::block_on(interface.control_in(request)).into_result()
}

/// Relies on `nusb::Interface::control_out`, waited on until it completes:
/// the count of bytes the device accepted. nusb panics on data longer than
/// the setup packet's 16-bit length field.
#[verifier::external_body]
fn control_out_on(
    interface: &ClaimedHandle,
    control_type: WireControlType,
    recipient: WireRecipient,
    data: ControlOut,
) -> (r: Result<usize, WireTransferError>)
    requires
        data.data@.len() <= u16::MAX,
{
    let request = nusb::transfer::ControlOut {
        control_type,
        recipient,
        request: data.request,
        value: data.value,
        index: data.index,
        data: data.data,
    };
    let completion = futures_lite::future::block_on(interface.control_out(request));
    completion.into_result().map(|sent| sent.actual_length())
}

/// Relies on `nusb::Interface::bulk_in` with a buffer of `length` bytes,
/// waited on until it completes: the bytes the device returned. nusb
/// asserts that the endpoint address has its top bit set, and panics on a
/// buffer longer than `i32::MAX`.
#[verifier::external_body]
fn bulk_in_on(interface: &ClaimedHandle, endpoint: u8, length: usize) -> (r: Result<Vec<u8>, WireTransferError>)
    requires
        endpoint >= 0x80,
        length <= i32::MAX,
{
    let buffer = nusb::transfer::RequestBuffer::new(length);
    futures_lite::future::block_on(interface.bulk_in(endpoint, buffer)).into_result()
}

/// Relies on `nusb::Interface::bulk_out`, waited on until it completes: the
/// count of bytes written. nusb asserts that the endpoint address has its
/// top bit clear, and panics on a buffer longer than `i32::MAX`.
#[verifier::external_body]
fn bulk_out_on(interface: &ClaimedHandle, endpoint: u8, data: &[u8]) -> (r: Result<usize, WireTransferError>)
    requires
        endpoint < 0x80,
        data@.len() <= i32::MAX,
{
    let completion = futures_lite::future::block_on(interface.bulk_out(endpoint, data.to_vec()));
    completion.into_result().map(|sent| sent.actual_length())
}

/// A transport outcome with its fault in the library's terms.
fn with_fault<T>(outcome: Result<T, WireTransferError>) -> (r: Result<T, TransferFault>)
    ensures
        outcome matches Ok(v) ==> r == Ok::<T, TransferFault>(v),
        outcome is Err ==> r is Err,
{
    match outcome {
        Ok(v) => Ok(v),
        Err(e) => Err(fault_of(e)),
    }
}

/// An unopened device found by discovery, with the identity it had when it
/// was found.
pub struct Descriptor {
    info: AttachedInfo,
    identity: DeviceIdentity,
    manufacturer: Option<String>,
    product: Option<String>,
}

/// An unopened device, under the name that discovery hands out.
pub type DeviceInfo = Descriptor;

/// A string as its characters, where there is one.
pub open spec fn chars_of(s: Option<String>) -> Option<Seq<char>> {
    match s {
        Some(t) => Some(t@),
        None => None,
    }
}

/// A copy of an optional string.
fn copied(s: &Option<String>) -> (r: Option<String>)
    ensures
        chars_of(r) == chars_of(*s),
{
    match s {
        Some(t) => Some(t.clone()),
        None => None,
    }
}

impl Descriptor {
    /// Reads the identity of an enumerated device.
    fn from_info(info: AttachedInfo) -> (r: Descriptor) {
        let identity = DeviceIdentity {
            vendor_id: info_vendor_id(&info),
            product_id: info_product_id(&info),
            class: info_class(&info),
            subclass: info_subclass(&info),
            protocol: info_protocol(&info),
        };
        let manufacturer = info_manufacturer_string(&info);
        let product = info_product_string(&info);
        Descriptor { info, identity, manufacturer, product }
    }

    /// The identity read at discovery.
    pub fn identity(&self) -> (r: DeviceIdentity)
        ensures
            r == self.identity_spec(),
    {
        self.identity
    }
}

impl UsbDeviceInfo for Descriptor {
    type Device = Device;

    closed spec fn identity_spec(&self) -> DeviceIdentity {
        self.identity
    }

    closed spec fn manufacturer_spec(&self) -> Option<Seq<char>> {
        chars_of(self.manufacturer)
    }

    closed spec fn product_spec(&self) -> Option<Seq<char>> {
        chars_of(self.product)
    }

    fn open(self) -> (r: Result<Device, Error>) {
        match open_attached(&self.info) {
            Ok(device) => {
                let ghost before = self;
                let d = Device { descriptor: self, device, life: Lifecycle::new(), interfaces: Vec::new() };
                assert(d.descriptor == before);
                assert(d.wf());
                Ok(d)
            },
            Err(message) => Err(Error::CommunicationError(message)),
        }
    }

    fn product_id(&self) -> (r: u16) {
        self.identity.product_id
    }

    fn vendor_id(&self) -> (r: u16) {
        self.identity.vendor_id
    }

    fn class(&self) -> (r: u8) {
        self.identity.class
    }

    fn subclass(&self) -> (r: u8) {
        self.identity.subclass
    }

    fn manufacturer_string(&self) -> (r: Option<String>) {
        copied(&self.manufacturer)
    }

    fn product_string(&self) -> (r: Option<String>) {
        copied(&self.product)
    }
}

/// The descriptors of the attached devices, in enumeration order.
fn attached_descriptors() -> (r: Result<Vec<Descriptor>, Error>)
    ensures
        r matches Err(e) ==> e is CommunicationError,
{
    let mut infos = match list_attached() {
        Ok(infos) => infos,
        Err(message) => {
            return Err(Error::CommunicationError(message));
        },
    };
    let mut descriptors: Vec<Descriptor> = Vec::new();
    while infos.len() > 0
        decreases infos@.len(),
    {
        let info = infos.remove(0);
        descriptors.push(Descriptor::from_info(info));
    }
    Ok(descriptors)
}

/// The identities of a sequence of descriptors, in order.
pub open spec fn identities_of(ds: Seq<Descriptor>) -> Seq<DeviceIdentity> {
    ds.map_values(|d: Descriptor| d.identity_spec())
}

/// Some descriptor of `ds` is selected by the filters.
pub open spec fn any_selected(filters: Seq<DeviceFilter>, ds: Seq<Descriptor>) -> bool {
    exists|j: int| 0 <= j < ds.len() && any_selects(filters, #[trigger] ds[j].identity_spec())
}

/// `r` is what selecting every descriptor of `ds` that the filters select
/// gives: exactly those, in order, or `DeviceNotFound` when there is none.
pub open spec fn all_selected_outcome(
    filters: Seq<DeviceFilter>,
    ds: Seq<Descriptor>,
    r: Result<Vec<Descriptor>, Error>,
) -> bool {
    &&& r is Ok <==> any_selected(filters, ds)
    &&& r matches Ok(v) ==> v@.len() > 0 && identities_of(v@) == selected_identities(filters, identities_of(ds))
    &&& r matches Err(e) ==> e is DeviceNotFound
}

/// `r` is what selecting the first descriptor of `ds` that the filters
/// select gives: that one, or `DeviceNotFound` when there is none.
pub open spec fn first_selected_outcome(
    filters: Seq<DeviceFilter>,
    ds: Seq<Descriptor>,
    r: Result<Descriptor, Error>,
) -> bool {
    &&& r is Ok <==> any_selected(filters, ds)
    &&& r matches Ok(d) ==> selected_identities(filters, identities_of(ds)).len() > 0
        && d.identity_spec() == selected_identities(filters, identities_of(ds))[0]
    &&& r matches Err(e) ==> e is DeviceNotFound
}

/// Every descriptor that the filters select, in the order given;
/// `DeviceNotFound` when there is none.
pub fn select_descriptors(filters: &Vec<DeviceFilter>, descriptors: Vec<Descriptor>) -> (r: Result<
    Vec<Descriptor>,
    Error,
>)
    ensures
        all_selected_outcome(filters@, descriptors@, r),
{
    let ghost all = descriptors@;
    let ghost pred = |id: DeviceIdentity| any_selects(filters@, id);
    let mut rest = descriptors;
    let mut found: Vec<Descriptor> = Vec::new();
    let ghost mut i: int = 0;
    proof {
        assert(identities_of(all.take(0)) =~= Seq::<DeviceIdentity>::empty());
        reveal(Seq::filter);
    }
    while rest.len() > 0
        invariant
            0 <= i <= all.len(),
            rest@ == all.skip(i),
            identities_of(found@) == identities_of(all.take(i)).filter(pred),
            pred == (|id: DeviceIdentity| any_selects(filters@, id)),
        decreases rest@.len(),
    {
        let d = rest.remove(0);
        proof {
            assert(d == all[i]);
            assert(all.take(i + 1) =~= all.take(i).push(d));
            assert(identities_of(all.take(i + 1)) =~= identities_of(all.take(i)).push(d.identity_spec()));
            identities_of(all.take(i)).lemma_filter_push(d.identity_spec(), pred);
            assert(rest@ =~= all.skip(i + 1));
        }
        if matches_any(filters, &d.identity()) {
            let ghost before = found@;
            found.push(d);
            proof {
                assert(identities_of(found@) =~= identities_of(before).push(d.identity_spec()));
            }
        }
        proof {
            i = i + 1;
        }
    }
    proof {
        assert(all.take(i) =~= all);
        let sel = selected_identities(filters@, identities_of(all));
        assert(sel == identities_of(found@));
        if any_selected(filters@, all) {
            let j = choose|j: int| 0 <= j < all.len() && any_selects(filters@, #[trigger] all[j].identity_spec());
            assert(identities_of(all)[j] == all[j].identity_spec());
            identities_of(all).lemma_filter_contains(pred, j);
            assert(sel.len() > 0);
        }
        if found@.len() > 0 {
            identities_of(all).lemma_filter_pred(pred, 0);
            identities_of(all).lemma_filter_contains_rev(pred, sel[0]);
            assert(identities_of(found@)[0] == sel[0]);
            let j = choose|j: int| 0 <= j < identities_of(all).len() && identities_of(all)[j] == sel[0];
            assert(any_selects(filters@, all[j].identity_spec()));
        }
    }
    if found.len() == 0 {
        return Err(Error::DeviceNotFound);
    }
    Ok(found)
}

/// The first descriptor that the filters select, in the order given;
/// `DeviceNotFound` when there is none.
pub fn select_descriptor(filters: &Vec<DeviceFilter>, descriptors: Vec<Descriptor>) -> (r: Result<
    Descriptor,
    Error,
>)
    ensures
        first_selected_outcome(filters@, descriptors@, r),
{
    let ghost all = descriptors@;
    let mut found = select_descriptors(filters, descriptors)?;
    let ghost v = found@;
    let d = found.swap_remove(0);
    proof {
        assert(d == v[0]);
        assert(identities_of(v)[0] == d.identity_spec());
    }
    Ok(d)
}

/// No filter of the list has a field set.
pub open spec fn all_unset(filters: Seq<DeviceFilter>) -> bool {
    forall|i: int| 0 <= i < filters.len() ==> !(#[trigger] filters[i]).has_any_field()
}

/// With filters none of which has a field set, no descriptor is selected.
proof fn lemma_unset_selects_none(filters: Seq<DeviceFilter>, ds: Seq<Descriptor>)
    requires
        all_unset(filters),
    ensures
        !any_selected(filters, ds),
{
    if any_selected(filters, ds) {
        let j = choose|j: int| 0 <= j < ds.len() && any_selects(filters, #[trigger] ds[j].identity_spec());
        let f = choose|f: int| 0 <= f < filters.len() && #[trigger] filters[f].selects(ds[j].identity_spec());
        assert(!filters[f].has_any_field());
    }
}

/// The first device selected and all devices selected agree: on the same
/// descriptors, both succeed or both give `DeviceNotFound`, and the first is
/// the head of the list.
pub proof fn lemma_first_is_head_of_all(
    filters: Seq<DeviceFilter>,
    ds: Seq<Descriptor>,
    first: Result<Descriptor, Error>,
    all: Result<Vec<Descriptor>, Error>,
)
    requires
        first_selected_outcome(filters, ds, first),
        all_selected_outcome(filters, ds, all),
    ensures
        first is Ok <==> all is Ok,
        first is Err ==> first == Err::<Descriptor, Error>(Error::DeviceNotFound) && all == Err::<
            Vec<Descriptor>,
            Error,
        >(Error::DeviceNotFound),
        first is Ok && all is Ok ==> first->Ok_0.identity_spec() == all->Ok_0@[0].identity_spec(),
{
    if all is Ok {
        let v = all->Ok_0;
        assert(identities_of(v@)[0] == v@[0].identity_spec());
    }
}

/// The first attached device, in enumeration order, that one of the filters
/// selects. A filter with no field set selects nothing.
pub fn get_device(device_filters: Vec<DeviceFilter>) -> (r: Result<Descriptor, Error>)
    ensures
        r matches Ok(d) ==> any_selects(device_filters@, d.identity_spec()),
        r matches Err(e) ==> e is DeviceNotFound || e is CommunicationError,
        all_unset(device_filters@) ==> r is Err,
{
    let descriptors = attached_descriptors()?;
    let ghost ds = descriptors@;
    proof {
        if all_unset(device_filters@) {
            lemma_unset_selects_none(device_filters@, ds);
        }
    }
    let r = select_descriptor(&device_filters, descriptors);
    proof {
        if r is Ok {
            let sel = selected_identities(device_filters@, identities_of(ds));
            identities_of(ds).lemma_filter_pred(|id: DeviceIdentity| any_selects(device_filters@, id), 0);
        }
    }
    r
}

/// Every attached device, in enumeration order, that one of the filters
/// selects; `DeviceNotFound` when there is none.
pub fn get_device_list(device_filters: Vec<DeviceFilter>) -> (r: Result<Vec<Descriptor>, Error>)
    ensures
        r matches Ok(v) ==> v@.len() > 0 && forall|k: int|
            0 <= k < v@.len() ==> any_selects(device_filters@, (#[trigger] v@[k]).identity_spec()),
        r matches Err(e) ==> e is DeviceNotFound || e is CommunicationError,
        all_unset(device_filters@) ==> r is Err,
{
    let descriptors = attached_descriptors()?;
    let ghost ds = descriptors@;
    proof {
        if all_unset(device_filters@) {
            lemma_unset_selects_none(device_filters@, ds);
        }
    }
    let r = select_descriptors(&device_filters, descriptors);
    proof {
        if r is Ok {
            let v = r->Ok_0;
            assert forall|k: int| 0 <= k < v@.len() implies any_selects(device_filters@, (#[trigger] v@[k]).identity_spec()) by {
                assert(identities_of(v@)[k] == v@[k].identity_spec());
                identities_of(ds).lemma_filter_pred(|id: DeviceIdentity| any_selects(device_filters@, id), k);
            }
        }
    }
    r
}

/// An opened device. Interfaces are claimed through it and named by an
/// [`InterfaceClaim`]; a reset, a forget, or dropping the device releases
/// every claim.
pub struct Device {
    descriptor: Descriptor,
    device: OpenedHandle,
    life: Lifecycle,
    interfaces: Vec<Interface>,
}

/// A claimed interface of an opened device, on which transfers run.
pub struct Interface {
    interface: ClaimedHandle,
    claim: InterfaceClaim,
}

impl Interface {
    pub closed spec fn claim_spec(&self) -> InterfaceClaim {
        self.claim
    }

    /// The interface number.
    pub fn number(&self) -> (r: u8)
        ensures
            r == self.claim_spec().number_spec(),
    {
        self.claim.number()
    }

    /// The claim that names this interface on its device.
    pub fn claim(&self) -> (r: InterfaceClaim)
        ensures
            r == self.claim_spec(),
    {
        self.claim
    }
}

impl Device {
    /// The current state of the device.
    pub fn state(&self) -> (r: DeviceState)
        ensures
            r == self.lifecycle_spec().phase(),
    {
        self.life.state()
    }

    fn claim_with(&mut self, number: u8, detach: bool) -> (r: Result<InterfaceClaim, Error>)
        requires
            old(self).wf(),
        ensures
            final(self).wf(),
            final(self).identity_spec() == old(self).identity_spec(),
            claim_outcome(old(self).lifecycle_spec(), final(self).lifecycle_spec(), number, r),
    {
        self.life.check_claim(number)?;
        let claimed = if detach {
            detach_and_claim_on(&self.device, number)
        } else {
            claim_on(&self.device, number)
        };
        match claimed {
            Ok(interface) => {
                let claim = self.life.record_claim(number);
                self.interfaces.push(Interface { interface, claim });
                Ok(claim)
            },
            Err(message) => Err(Error::CommunicationError(message)),
        }
    }

    /// The interface that `claim` names, while it is live; a stale claim is
    /// refused with `Invalid`, or `Disconnected` on a forgotten device.
    pub fn interface(&self, claim: &InterfaceClaim) -> (r: Result<&Interface, Error>)
        requires
            self.wf(),
        ensures
            match r {
                Ok(i) => self.lifecycle_spec().claim_status(*claim) is Ok && i.claim_spec() == *claim,
                Err(e) => self.lifecycle_spec().claim_status(*claim) == Err::<(), Error>(e),
            },
    {
        self.life.check_claim_live(claim)?;
        match self.life.position(claim) {
            Some(k) => Ok(&self.interfaces[k]),
            None => Err(Error::Invalid),
        }
    }

    /// Releases the interface that `claim` names; a stale claim is refused
    /// as by [`Device::interface`], and nothing changes.
    pub fn release_interface(&mut self, claim: &InterfaceClaim) -> (r: Result<(), Error>)
        requires
            old(self).wf(),
        ensures
            final(self).wf(),
            final(self).identity_spec() == old(self).identity_spec(),
            final(self).lifecycle_spec().phase() == old(self).lifecycle_spec().phase(),
            !final(self).lifecycle_spec().live_claims().contains(*claim),
            match old(self).lifecycle_spec().claim_status(*claim) {
                Ok(()) => r is Ok && exists|k: int|
                    0 <= k < old(self).lifecycle_spec().live_claims().len()
                        && old(self).lifecycle_spec().live_claims()[k] == *claim
                        && final(self).lifecycle_spec().live_claims()
                        == old(self).lifecycle_spec().live_claims().remove(k),
                Err(e) => r == Err::<(), Error>(e) && final(self).lifecycle_spec().live_claims()
                    == old(self).lifecycle_spec().live_claims(),
            },
    {
        let k = self.life.release(claim)?;
        let ghost before = self.interfaces@;
        self.interfaces.remove(k);
        assert forall|j: int| 0 <= j < self.interfaces@.len() implies (#[trigger] self.interfaces@[j]).claim
            == self.life.live_claims()[j] by {
            let j0 = if j < k { j } else { j + 1 };
            assert(self.interfaces@[j] == before[j0]);
        }
        Ok(())
    }
}

impl UsbDevice for Device {
    closed spec fn identity_spec(&self) -> DeviceIdentity {
        self.descriptor.identity
    }

    closed spec fn manufacturer_spec(&self) -> Option<Seq<char>> {
        chars_of(self.descriptor.manufacturer)
    }

    closed spec fn product_spec(&self) -> Option<Seq<char>> {
        chars_of(self.descriptor.product)
    }

    closed spec fn lifecycle_spec(&self) -> Lifecycle {
        self.life
    }

    /// The lifecycle is well formed and holds one interface per live claim,
    /// in the same order.
    closed spec fn wf(&self) -> bool {
        &&& self.life.wf()
        &&& self.interfaces@.len() == self.life.live_claims().len()
        &&& forall|k: int|
            0 <= k < self.interfaces@.len() ==> (#[trigger] self.interfaces@[k]).claim == self.life.live_claims()[k]
    }

    /// No authorized set: a forget is a reset.
    open spec fn keeps_authorized_set(&self) -> bool {
        false
    }

    fn open_interface(&mut self, number: u8) -> (r: Result<InterfaceClaim, Error>) {
        self.claim_with(number, false)
    }

    fn detach_and_open_interface(&mut self, number: u8) -> (r: Result<InterfaceClaim, Error>) {
        self.claim_with(number, true)
    }

    fn reset(&mut self) -> (r: Result<(), Error>) {
        self.life.check_release_all()?;
        match reset_on(&self.device) {
            Ok(()) => {
                self.life.record_reset();
                self.interfaces = Vec::new();
                Ok(())
            },
            Err(message) => Err(Error::CommunicationError(message)),
        }
    }

    /// This transport keeps no authorized set, so a forget is a reset.
    fn forget(&mut self) -> (r: Result<(), Error>) {
        self.reset()
    }

    fn product_id(&self) -> (r: u16) {
        self.descriptor.identity.product_id
    }

    fn vendor_id(&self) -> (r: u16) {
        self.descriptor.identity.vendor_id
    }

    fn class(&self) -> (r: u8) {
        self.descriptor.identity.class
    }

    fn subclass(&self) -> (r: u8) {
        self.descriptor.identity.subclass
    }

    fn manufacturer_string(&self) -> (r: Option<String>) {
        copied(&self.descriptor.manufacturer)
    }

    fn product_string(&self) -> (r: Option<String>) {
        copied(&self.descriptor.product)
    }
}

impl Drop for Device {
    /// A device dropped while still opened is reset, so that no interface
    /// stays claimed by a handle nobody can reach.
    fn drop(&mut self)
        opens_invariants none
        no_unwind
    {
        if self.life.state() == DeviceState::Opened {
            let _ = reset_on(&self.device);
        }
    }
}

impl<'a> UsbInterface<'a> for Interface {
    fn control_in(&self, data: ControlIn) -> (r: Result<Vec<u8>, Error>) {
        let control_type = nusb_control_type(data.control_type);
        let recipient = nusb_recipient(data.recipient);
        let outcome = control_in_on(&self.interface, control_type, recipient, data);
        finish_read(data.length as usize, with_fault(outcome))
    }

    fn control_out(&self, data: ControlOut<'a>) -> (r: Result<usize, Error>) {
        let control_type = nusb_control_type(data.control_type);
        let recipient = nusb_recipient(data.recipient);
        let outcome = control_out_on(&self.interface, control_type, recipient, data);
        finish_write(data.data.len(), with_fault(outcome))
    }

    fn bulk_in(&self, endpoint: u8, length: usize) -> (r: Result<Vec<u8>, Error>) {
        if length == 0 {
            return Ok(Vec::new());
        }
        finish_read(length, with_fault(bulk_in_on(&self.interface, endpoint, length)))
    }

    fn bulk_out(&self, endpoint: u8, data: &[u8]) -> (r: Result<usize, Error>) {
        finish_write(data.len(), with_fault(bulk_out_on(&self.interface, endpoint, data)))
    }
}

} // verus!
