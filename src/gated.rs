//! Discovery on a permission-gated transport, where only devices the user
//! already authorized can be listed.
//!
//! The already-authorized devices are tried first; only when none of them
//! matches is the user asked to authorize one, and the device they grant is
//! taken as it is, since the prompt itself was given the filters: one
//! criterion set per filter, with exactly that filter's set fields.
use crate::filter::{select_all, select_first, selected, DeviceFilter, DeviceIdentity};
use crate::usb::Error;
use vstd::prelude::*;

verus! {

/// What permission-gated discovery does next.
#[derive(Debug, PartialEq, Eq)]
pub enum GatedStep {
    /// Use these already-authorized devices: their positions, in order.
    Use(Vec<usize>),
    /// No authorized device matches: ask the user to authorize one.
    Authorize,
}

/// The next step of discovery over the devices already `authorized`: the
/// first that the filters select or, when `all` is set, every one of them;
/// a prompt when there is none.
pub fn plan_discovery(filters: &Vec<DeviceFilter>, authorized: &Vec<DeviceIdentity>, all: bool) -> (r:
    GatedStep)
    ensures
        r matches GatedStep::Use(v) ==> v@.len() > 0,
        r matches GatedStep::Use(v) ==> forall|k: int|
            0 <= k < v@.len() ==> selected(filters@, authorized@).contains(#[trigger] v@[k] as int),
        r matches GatedStep::Use(v) ==> forall|a: int, b: int| 0 <= a < b < v@.len() ==> v@[a] < v@[b],
        r matches GatedStep::Use(v) ==> (!all ==> v@.len() == 1),
        r matches GatedStep::Use(v) ==> (!all ==> forall|j: int|
            #[trigger] selected(filters@, authorized@).contains(j) ==> v@[0] <= j),
        r matches GatedStep::Use(v) ==> (all ==> forall|j: int|
            #[trigger] selected(filters@, authorized@).contains(j) ==> exists|k: int|
                0 <= k < v@.len() && #[trigger] v@[k] == j),
        r is Authorize ==> selected(filters@, authorized@) == Set::<int>::empty(),
{
    if all {
        let v = select_all(filters, authorized);
        if v.len() == 0 {
            proof {
                assert(selected(filters@, authorized@) =~= Set::<int>::empty()) by {
                    assert forall|j: int| !selected(filters@, authorized@).contains(j) by {
                        if selected(filters@, authorized@).contains(j) {
                            let k = choose|k: int| 0 <= k < v@.len() && #[trigger] v@[k] == j;
                        }
                    }
                }
            }
            GatedStep::Authorize
        } else {
            GatedStep::Use(v)
        }
    } else {
        match select_first(filters, authorized) {
            Some(i) => {
                let v = vec![i];
                assert(v@[0] == i);
                assert forall|j: int| selected(filters@, authorized@).contains(j) implies i <= j by {
                    if j < i {
                        assert(!crate::filter::any_selects(filters@, authorized@[j]));
                    }
                }
                assert(selected(filters@, authorized@).contains(i as int));
                GatedStep::Use(v)
            },
            None => {
                assert(selected(filters@, authorized@) =~= Set::<int>::empty());
                GatedStep::Authorize
            },
        }
    }
}

/// The outcome of an authorization prompt: the device the user granted, or
/// `DeviceNotFound` when they granted none.
pub fn granted_device(granted: Option<DeviceIdentity>) -> (r: Result<DeviceIdentity, Error>)
    ensures
        match granted {
            Some(id) => r == Ok::<DeviceIdentity, Error>(id),
            None => r == Err::<DeviceIdentity, Error>(Error::DeviceNotFound),
        },
{
    match granted {
        Some(id) => Ok(id),
        None => Err(Error::DeviceNotFound),
    }
}

/// A field of a filter as the authorization prompt names it.
#[derive(Clone, Copy, Debug, PartialEq, Eq, Structural)]
pub enum CriterionKey {
    VendorId,
    ProductId,
    ClassCode,
    SubclassCode,
    ProtocolCode,
}

impl CriterionKey {
    pub open spec fn name_spec(self) -> Seq<char> {
        match self {
            CriterionKey::VendorId => "vendorId"@,
            CriterionKey::ProductId => "productId"@,
            CriterionKey::ClassCode => "classCode"@,
            CriterionKey::SubclassCode => "subclassCode"@,
            CriterionKey::ProtocolCode => "protocolCode"@,
        }
    }

    /// The name the prompt gives this field.
    pub fn name(&self) -> (r: String)
        ensures
            r@ == self.name_spec(),
    {
        match self {
            CriterionKey::VendorId => "vendorId".to_owned(),
            CriterionKey::ProductId => "productId".to_owned(),
            CriterionKey::ClassCode => "classCode".to_owned(),
            CriterionKey::SubclassCode => "subclassCode".to_owned(),
            CriterionKey::ProtocolCode => "protocolCode".to_owned(),
        }
    }
}

/// One criterion for a field that is set, none for one that is not.
pub open spec fn criterion(key: CriterionKey, field: Option<u16>) -> Seq<(CriterionKey, u16)> {
    match field {
        Some(v) => seq![(key, v)],
        None => Seq::empty(),
    }
}

/// A byte-wide field widened for the prompt.
pub open spec fn widened(field: Option<u8>) -> Option<u16> {
    match field {
        Some(v) => Some(v as u16),
        None => None,
    }
}

/// The prompt's criteria for one filter: exactly its set fields, in the
/// order vendor, product, class, subclass, protocol.
pub open spec fn criteria_spec(f: DeviceFilter) -> Seq<(CriterionKey, u16)> {
    criterion(CriterionKey::VendorId, f.vendor_id) + criterion(CriterionKey::ProductId, f.product_id)
        + criterion(CriterionKey::ClassCode, widened(f.class)) + criterion(
        CriterionKey::SubclassCode,
        widened(f.subclass),
    ) + criterion(CriterionKey::ProtocolCode, widened(f.protocol))
}

/// Appends the criterion for one field, when it is set.
fn push_criterion(out: &mut Vec<(CriterionKey, u16)>, key: CriterionKey, field: Option<u16>)
    ensures
        final(out)@ == old(out)@ + criterion(key, field),
{
    if let Some(v) = field {
        out.push((key, v));
    }
    assert(final(out)@ =~= old(out)@ + criterion(key, field));
}

/// A byte-wide field widened for the prompt.
fn widen(field: Option<u8>) -> (r: Option<u16>)
    ensures
        r == widened(field),
{
    match field {
        Some(v) => Some(v as u16),
        None => None,
    }
}

/// The prompt's criteria for one filter: exactly its set fields.
pub fn filter_criteria(f: &DeviceFilter) -> (r: Vec<(CriterionKey, u16)>)
    ensures
        r@ == criteria_spec(*f),
{
    let mut out: Vec<(CriterionKey, u16)> = Vec::new();
    push_criterion(&mut out, CriterionKey::VendorId, f.vendor_id);
    push_criterion(&mut out, CriterionKey::ProductId, f.product_id);
    push_criterion(&mut out, CriterionKey::ClassCode, widen(f.class));
    push_criterion(&mut out, CriterionKey::SubclassCode, widen(f.subclass));
    push_criterion(&mut out, CriterionKey::ProtocolCode, widen(f.protocol));
    assert(out@ =~= criteria_spec(*f));
    out
}

/// The criteria handed to the authorization prompt: one entry per filter,
/// in order, each with exactly that filter's set fields.
pub fn prompt_criteria(filters: &Vec<DeviceFilter>) -> (r: Vec<Vec<(CriterionKey, u16)>>)
    ensures
        r@.len() == filters@.len(),
        forall|k: int| 0 <= k < r@.len() ==> (#[trigger] r@[k])@ == criteria_spec(filters@[k]),
{
    let mut r: Vec<Vec<(CriterionKey, u16)>> = Vec::new();
    let mut i: usize = 0;
    while i < filters.len()
        invariant
            i <= filters@.len(),
            r@.len() == i,
            forall|k: int| 0 <= k < i ==> (#[trigger] r@[k])@ == criteria_spec(filters@[k]),
        decreases filters@.len() - i,
    {
        r.push(filter_criteria(&filters[i]));
        i = i + 1;
    }
    r
}

} // verus!
