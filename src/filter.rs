//! Device filters and the selection of devices that match them.
//!
//! Within one filter every field that is set must equal the candidate's; a
//! filter with no field set matches nothing. A list of filters matches a
//! candidate when any of its filters does.
use vstd::prelude::*;

verus! {

/// Selection criteria for discovery. Unset fields are wildcards.
#[derive(Clone, Copy, Debug, PartialEq, Eq, Structural)]
pub struct DeviceFilter {
    pub vendor_id: Option<u16>,
    pub product_id: Option<u16>,
    pub class: Option<u8>,
    pub subclass: Option<u8>,
    pub protocol: Option<u8>,
}

/// The identity of a candidate device, as read without claiming it.
#[derive(Clone, Copy, Debug, PartialEq, Eq, Structural)]
pub struct DeviceIdentity {
    pub vendor_id: u16,
    pub product_id: u16,
    pub class: u8,
    pub subclass: u8,
    pub protocol: u8,
}

/// `field` imposes no constraint, or it equals `actual`.
pub open spec fn agrees<T>(field: Option<T>, actual: T) -> bool {
    match field {
        Some(v) => v == actual,
        None => true,
    }
}

impl DeviceFilter {
    /// At least one field of the filter is set.
    pub open spec fn has_any_field(self) -> bool {
        self.vendor_id is Some || self.product_id is Some || self.class is Some
            || self.subclass is Some || self.protocol is Some
    }

    /// The number of fields of the filter that are set.
    pub open spec fn field_count(self) -> nat {
        (if self.vendor_id is Some { 1nat } else { 0nat })
            + (if self.product_id is Some { 1nat } else { 0nat })
            + (if self.class is Some { 1nat } else { 0nat })
            + (if self.subclass is Some { 1nat } else { 0nat })
            + (if self.protocol is Some { 1nat } else { 0nat })
    }

    /// The filter selects the device: some field is set, and every field
    /// that is set equals the device's.
    pub open spec fn selects(self, id: DeviceIdentity) -> bool {
        &&& self.has_any_field()
        &&& agrees(self.vendor_id, id.vendor_id)
        &&& agrees(self.product_id, id.product_id)
        &&& agrees(self.class, id.class)
        &&& agrees(self.subclass, id.subclass)
        &&& agrees(self.protocol, id.protocol)
    }

    /// A filter from its five fields.
    pub fn new(
        vendor_id: Option<u16>,
        product_id: Option<u16>,
        class: Option<u8>,
        subclass: Option<u8>,
        protocol: Option<u8>,
    ) -> (r: DeviceFilter)
        ensures
            r == (DeviceFilter { vendor_id, product_id, class, subclass, protocol }),
    {
        DeviceFilter { vendor_id, product_id, class, subclass, protocol }
    }

    /// Whether this filter selects the device.
    pub fn matches(&self, id: &DeviceIdentity) -> (r: bool)
        ensures
            r == self.selects(*id),
    {
        if self.vendor_id.is_none() && self.product_id.is_none() && self.class.is_none()
            && self.subclass.is_none() && self.protocol.is_none() {
            return false;
        }
        let vendor_ok = match self.vendor_id {
            Some(v) => v == id.vendor_id,
            None => true,
        };
        let product_ok = match self.product_id {
            Some(v) => v == id.product_id,
            None => true,
        };
        let class_ok = match self.class {
            Some(v) => v == id.class,
            None => true,
        };
        let subclass_ok = match self.subclass {
            Some(v) => v == id.subclass,
            None => true,
        };
        let protocol_ok = match self.protocol {
            Some(v) => v == id.protocol,
            None => true,
        };
        vendor_ok && product_ok && class_ok && subclass_ok && protocol_ok
    }
}

impl Default for DeviceFilter {
    /// The filter with no field set.
    fn default() -> (r: DeviceFilter)
        ensures
            !r.has_any_field(),
            r == (DeviceFilter {
                vendor_id: None,
                product_id: None,
                class: None,
                subclass: None,
                protocol: None,
            }),
    {
        DeviceFilter { vendor_id: None, product_id: None, class: None, subclass: None, protocol: None }
    }
}

/// Some filter of the list selects the device.
pub open spec fn any_selects(filters: Seq<DeviceFilter>, id: DeviceIdentity) -> bool {
    exists|i: int| 0 <= i < filters.len() && #[trigger] filters[i].selects(id)
}

/// The positions of the candidates that the filter list selects.
pub open spec fn selected(filters: Seq<DeviceFilter>, ids: Seq<DeviceIdentity>) -> Set<int> {
    Set::new(|j: int| 0 <= j < ids.len() && any_selects(filters, ids[j]))
}

/// The candidates that the filter list selects, in the order given, each
/// as often as it occurs.
pub open spec fn selected_identities(filters: Seq<DeviceFilter>, ids: Seq<DeviceIdentity>) -> Seq<
    DeviceIdentity,
> {
    ids.filter(|id: DeviceIdentity| any_selects(filters, id))
}

/// Whether any filter of the list selects the device.
pub fn matches_any(filters: &Vec<DeviceFilter>, id: &DeviceIdentity) -> (r: bool)
    ensures
        r == any_selects(filters@, *id),
{
    let mut i: usize = 0;
    while i < filters.len()
        invariant
            i <= filters@.len(),
            forall|k: int| 0 <= k < i ==> !(#[trigger] filters@[k].selects(*id)),
        decreases filters@.len() - i,
    {
        if filters[i].matches(id) {
            return true;
        }
        i = i + 1;
    }
    false
}

/// The first candidate, in the order given, that the filter list selects.
pub fn select_first(filters: &Vec<DeviceFilter>, ids: &Vec<DeviceIdentity>) -> (r: Option<usize>)
    ensures
        match r {
            Some(i) => {
                &&& i < ids@.len()
                &&& any_selects(filters@, ids@[i as int])
                &&& forall|k: int| 0 <= k < i ==> !any_selects(filters@, #[trigger] ids@[k])
            },
            None => forall|k: int| 0 <= k < ids@.len() ==> !any_selects(filters@, #[trigger] ids@[k]),
        },
{
    let mut i: usize = 0;
    while i < ids.len()
        invariant
            i <= ids@.len(),
            forall|k: int| 0 <= k < i ==> !any_selects(filters@, #[trigger] ids@[k]),
        decreases ids@.len() - i,
    {
        if matches_any(filters, &ids[i]) {
            return Some(i);
        }
        i = i + 1;
    }
    None
}

/// Every candidate that the filter list selects, in the order given.
pub fn select_all(filters: &Vec<DeviceFilter>, ids: &Vec<DeviceIdentity>) -> (r: Vec<usize>)
    ensures
        forall|k: int| 0 <= k < r@.len() ==> selected(filters@, ids@).contains(#[trigger] r@[k] as int),
        forall|j: int| selected(filters@, ids@).contains(j) ==> exists|k: int| 0 <= k < r@.len() && #[trigger] r@[k] == j,
        forall|a: int, b: int| 0 <= a < b < r@.len() ==> r@[a] < r@[b],
{
    let mut r: Vec<usize> = Vec::new();
    let mut i: usize = 0;
    while i < ids.len()
        invariant
            i <= ids@.len(),
            forall|k: int| 0 <= k < r@.len() ==> selected(filters@, ids@).contains(#[trigger] r@[k] as int),
            forall|k: int| 0 <= k < r@.len() ==> #[trigger] r@[k] < i,
            forall|j: int| 0 <= j < i && selected(filters@, ids@).contains(j) ==> exists|k: int| 0 <= k < r@.len() && #[trigger] r@[k] == j,
            forall|a: int, b: int| 0 <= a < b < r@.len() ==> r@[a] < r@[b],
        decreases ids@.len() - i,
    {
        let ghost prev = r@;
        if matches_any(filters, &ids[i]) {
            r.push(i);
            assert(r@[r@.len() - 1] == i);
        }
        assert forall|j: int| 0 <= j <= i && selected(filters@, ids@).contains(j) implies exists|k: int|
            0 <= k < r@.len() && #[trigger] r@[k] == j by {
            if j < i {
                let k = choose|k: int| 0 <= k < prev.len() && #[trigger] prev[k] == j;
                assert(r@[k] == prev[k]);
            } else {
                assert(r@[r@.len() - 1] == j);
            }
        }
        i = i + 1;
    }
    r
}

/// A list of filters none of which has a field set selects no candidate,
/// whatever the candidates are.
pub proof fn lemma_unset_filters_select_nothing(filters: Seq<DeviceFilter>, ids: Seq<DeviceIdentity>)
    requires
        forall|i: int| 0 <= i < filters.len() ==> !(#[trigger] filters[i]).has_any_field(),
    ensures
        selected(filters, ids) == Set::<int>::empty(),
{
    assert(selected(filters, ids) =~= Set::<int>::empty());
}

/// A filter with exactly one field set selects exactly the candidates whose
/// corresponding field has that value, whatever their other fields hold.
pub proof fn lemma_single_field_filter(f: DeviceFilter, id: DeviceIdentity)
    requires
        f.field_count() == 1,
    ensures
        any_selects(seq![f], id) <==> (f.vendor_id == Some(id.vendor_id) || f.product_id == Some(
            id.product_id,
        ) || f.class == Some(id.class) || f.subclass == Some(id.subclass) || f.protocol == Some(
            id.protocol,
        )),
{
    if f.selects(id) {
        assert(seq![f][0].selects(id));
    }
}

/// Filters combine by union: the candidates that a list selects are those
/// that one of its filters, alone, selects.
pub proof fn lemma_filters_combine_by_union(filters: Seq<DeviceFilter>, ids: Seq<DeviceIdentity>)
    ensures
        forall|j: int|
            selected(filters, ids).contains(j) <==> exists|i: int|
                0 <= i < filters.len() && #[trigger] selected(seq![filters[i]], ids).contains(j),
{
    assert forall|j: int|
        selected(filters, ids).contains(j) <==> exists|i: int|
            0 <= i < filters.len() && #[trigger] selected(seq![filters[i]], ids).contains(j) by {
        if selected(filters, ids).contains(j) {
            let i = choose|i: int| 0 <= i < filters.len() && #[trigger] filters[i].selects(ids[j]);
            assert(seq![filters[i]][0] == filters[i]);
            assert(selected(seq![filters[i]], ids).contains(j));
        }
        if exists|i: int| 0 <= i < filters.len() && #[trigger] selected(seq![filters[i]], ids).contains(j) {
            let i = choose|i: int| 0 <= i < filters.len() && #[trigger] selected(seq![filters[i]], ids).contains(j);
            let k = choose|k: int| 0 <= k < 1 && #[trigger] seq![filters[i]][k].selects(ids[j]);
            assert(seq![filters[i]][k] == filters[i]);
            assert(filters[i].selects(ids[j]));
        }
    }
}

/// Two filter lists made of the same filters, whatever their order or
/// repetitions, select the same candidates.
pub proof fn lemma_same_filters_same_selection(
    fs: Seq<DeviceFilter>,
    gs: Seq<DeviceFilter>,
    ids: Seq<DeviceIdentity>,
)
    requires
        forall|i: int| 0 <= i < fs.len() ==> gs.contains(#[trigger] fs[i]),
        forall|j: int| 0 <= j < gs.len() ==> fs.contains(#[trigger] gs[j]),
    ensures
        selected_identities(fs, ids) == selected_identities(gs, ids),
        selected(fs, ids) == selected(gs, ids),
{
    assert forall|id: DeviceIdentity| any_selects(fs, id) == any_selects(gs, id) by {
        if any_selects(fs, id) {
            let i = choose|i: int| 0 <= i < fs.len() && #[trigger] fs[i].selects(id);
            assert(gs.contains(fs[i]));
            let j = choose|j: int| 0 <= j < gs.len() && gs[j] == fs[i];
            assert(gs[j].selects(id));
        }
        if any_selects(gs, id) {
            let j = choose|j: int| 0 <= j < gs.len() && #[trigger] gs[j].selects(id);
            assert(fs.contains(gs[j]));
            let i = choose|i: int| 0 <= i < fs.len() && fs[i] == gs[j];
            assert(fs[i].selects(id));
        }
    }
    assert((|id: DeviceIdentity| any_selects(fs, id)) =~= (|id: DeviceIdentity| any_selects(gs, id)));
    assert(selected(fs, ids) =~= selected(gs, ids));
}

} // verus!
