use cross_usb::filter::{matches_any, select_all, select_first, DeviceIdentity};
use cross_usb::DeviceFilter;

fn dev(vendor_id: u16, product_id: u16, class: u8, subclass: u8, protocol: u8) -> DeviceIdentity {
    DeviceIdentity { vendor_id, product_id, class, subclass, protocol }
}

fn candidates() -> Vec<DeviceIdentity> {
    vec![
        dev(0x1234, 0x0001, 0x00, 0x00, 0x00),
        dev(0x054c, 0x0186, 0xff, 0x02, 0x15),
        dev(0x054c, 0x00c9, 0x00, 0x00, 0x00),
        dev(0x8086, 0x0186, 0x09, 0x00, 0x01),
    ]
}

#[test]
fn new_sets_each_field() {
    let f = DeviceFilter::new(Some(1), Some(2), Some(3), Some(4), Some(5));
    assert_eq!(f.vendor_id, Some(1));
    assert_eq!(f.product_id, Some(2));
    assert_eq!(f.class, Some(3));
    assert_eq!(f.subclass, Some(4));
    assert_eq!(f.protocol, Some(5));
}

#[test]
fn default_filter_has_no_field() {
    let f = DeviceFilter::default();
    assert_eq!(f, DeviceFilter::new(None, None, None, None, None));
}

#[test]
fn empty_filter_matches_nothing() {
    let f = DeviceFilter::default();
    for id in candidates() {
        assert!(!f.matches(&id));
    }
}

#[test]
fn unset_filter_list_selects_nothing() {
    let filters = vec![DeviceFilter::default(), DeviceFilter::default()];
    assert_eq!(select_first(&filters, &candidates()), None);
    assert!(select_all(&filters, &candidates()).is_empty());
}

#[test]
fn empty_filter_list_selects_nothing() {
    let filters: Vec<DeviceFilter> = Vec::new();
    assert_eq!(select_first(&filters, &candidates()), None);
    assert!(select_all(&filters, &candidates()).is_empty());
}

#[test]
fn no_candidates_selects_nothing() {
    let filters = vec![DeviceFilter::new(Some(0x054c), None, None, None, None)];
    assert_eq!(select_first(&filters, &Vec::new()), None);
    assert!(select_all(&filters, &Vec::new()).is_empty());
}

#[test]
fn single_vendor_field_selects_all_of_that_vendor() {
    let filters = vec![DeviceFilter::new(Some(0x054c), None, None, None, None)];
    assert_eq!(select_all(&filters, &candidates()), vec![1, 2]);
}

#[test]
fn single_product_field_ignores_vendor() {
    let filters = vec![DeviceFilter::new(None, Some(0x0186), None, None, None)];
    assert_eq!(select_all(&filters, &candidates()), vec![1, 3]);
}

#[test]
fn single_class_field() {
    let filters = vec![DeviceFilter::new(None, None, Some(0x00), None, None)];
    assert_eq!(select_all(&filters, &candidates()), vec![0, 2]);
}

#[test]
fn single_protocol_field() {
    let filters = vec![DeviceFilter::new(None, None, None, None, Some(0x15))];
    assert_eq!(select_all(&filters, &candidates()), vec![1]);
}

#[test]
fn every_set_field_must_agree() {
    // A later field that agrees does not excuse an earlier one that does not.
    let f = DeviceFilter::new(Some(0x1234), Some(0x0186), None, None, None);
    assert!(!f.matches(&dev(0x054c, 0x0186, 0, 0, 0)));
    assert!(!f.matches(&dev(0x1234, 0x0001, 0, 0, 0)));
    assert!(f.matches(&dev(0x1234, 0x0186, 0, 0, 0)));
}

#[test]
fn all_fields_set() {
    let f = DeviceFilter::new(Some(0x054c), Some(0x0186), Some(0xff), Some(0x02), Some(0x15));
    assert_eq!(select_all(&vec![f], &candidates()), vec![1]);
    let g = DeviceFilter::new(Some(0x054c), Some(0x0186), Some(0xff), Some(0x02), Some(0x16));
    assert!(select_all(&vec![g], &candidates()).is_empty());
}

#[test]
fn filter_list_is_union_of_its_filters() {
    let a = DeviceFilter::new(Some(0x1234), None, None, None, None);
    let b = DeviceFilter::new(None, Some(0x0186), None, None, None);
    let ids = candidates();
    assert_eq!(select_all(&vec![a], &ids), vec![0]);
    assert_eq!(select_all(&vec![b], &ids), vec![1, 3]);
    assert_eq!(select_all(&vec![a, b], &ids), vec![0, 1, 3]);
    assert_eq!(select_all(&vec![b, a], &ids), vec![0, 1, 3]);
}

#[test]
fn broader_second_filter_matches() {
    let filters = vec![
        DeviceFilter::new(Some(0x054c), Some(0x00c9), None, None, None),
        DeviceFilter::new(Some(0x054c), None, None, None, None),
    ];
    let id = dev(0x054c, 0x0186, 0xff, 0x02, 0x15);
    assert!(!filters[0].matches(&id));
    assert!(matches_any(&filters, &id));
    assert_eq!(select_first(&filters, &vec![id]), Some(0));
}

#[test]
fn select_first_takes_the_earliest() {
    let filters = vec![DeviceFilter::new(None, Some(0x0186), None, None, None)];
    assert_eq!(select_first(&filters, &candidates()), Some(1));
}
