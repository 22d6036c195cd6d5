use cross_usb::filter::DeviceIdentity;
use cross_usb::gated::{filter_criteria, granted_device, plan_discovery, prompt_criteria, CriterionKey, GatedStep};
use cross_usb::usb::Error;
use cross_usb::DeviceFilter;

fn dev(vendor_id: u16, product_id: u16) -> DeviceIdentity {
    DeviceIdentity { vendor_id, product_id, class: 0, subclass: 0, protocol: 0 }
}

#[test]
fn authorized_match_needs_no_prompt() {
    let filters = vec![DeviceFilter::new(Some(0x054c), None, None, None, None)];
    let authorized = vec![dev(0x1111, 1), dev(0x054c, 0x0186), dev(0x054c, 0x00c9)];
    assert_eq!(plan_discovery(&filters, &authorized, false), GatedStep::Use(vec![1]));
    assert_eq!(plan_discovery(&filters, &authorized, true), GatedStep::Use(vec![1, 2]));
}

#[test]
fn no_authorized_match_prompts() {
    let filters = vec![DeviceFilter::new(Some(0x054c), Some(0x00c9), None, None, None)];
    let authorized = vec![dev(0x054c, 0x0186)];
    assert_eq!(plan_discovery(&filters, &authorized, false), GatedStep::Authorize);
    assert_eq!(plan_discovery(&filters, &authorized, true), GatedStep::Authorize);
    assert_eq!(plan_discovery(&filters, &Vec::new(), true), GatedStep::Authorize);
}

#[test]
fn granted_device_is_taken_as_is() {
    assert_eq!(granted_device(Some(dev(0x054c, 0x0186))), Ok(dev(0x054c, 0x0186)));
    assert_eq!(granted_device(None), Err(Error::DeviceNotFound));
}

#[test]
fn criteria_hold_exactly_the_set_fields() {
    let f = DeviceFilter::new(Some(0x054c), None, Some(0xff), None, Some(0x15));
    assert_eq!(
        filter_criteria(&f),
        vec![(CriterionKey::VendorId, 0x054c), (CriterionKey::ClassCode, 0xff), (CriterionKey::ProtocolCode, 0x15)]
    );
    assert_eq!(filter_criteria(&DeviceFilter::default()), Vec::new());
}

#[test]
fn prompt_gets_one_criteria_set_per_filter() {
    let filters = vec![
        DeviceFilter::new(Some(0x054c), Some(0x00c9), None, None, None),
        DeviceFilter::new(Some(0x054c), None, None, None, None),
        DeviceFilter::new(None, None, None, Some(2), None),
    ];
    assert_eq!(
        prompt_criteria(&filters),
        vec![
            vec![(CriterionKey::VendorId, 0x054c), (CriterionKey::ProductId, 0x00c9)],
            vec![(CriterionKey::VendorId, 0x054c)],
            vec![(CriterionKey::SubclassCode, 2)],
        ]
    );
}

#[test]
fn criterion_names() {
    assert_eq!(CriterionKey::VendorId.name(), "vendorId");
    assert_eq!(CriterionKey::ProductId.name(), "productId");
    assert_eq!(CriterionKey::ClassCode.name(), "classCode");
    assert_eq!(CriterionKey::SubclassCode.name(), "subclassCode");
    assert_eq!(CriterionKey::ProtocolCode.name(), "protocolCode");
}
