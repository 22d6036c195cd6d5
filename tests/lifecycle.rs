use cross_usb::lifecycle::{DeviceState, Lifecycle};
use cross_usb::usb::Error;

#[test]
fn new_lifecycle_is_opened() {
    let l = Lifecycle::new();
    assert_eq!(l.state(), DeviceState::Opened);
    assert_eq!(l.check_release_all(), Ok(()));
}

#[test]
fn claim_then_use() {
    let mut l = Lifecycle::new();
    assert_eq!(l.check_claim(0), Ok(()));
    let c = l.record_claim(0);
    assert_eq!(c.number(), 0);
    assert_eq!(l.check_claim_live(&c), Ok(()));
}

#[test]
fn claiming_twice_is_a_communication_error() {
    let mut l = Lifecycle::new();
    let _c = l.record_claim(3);
    assert!(matches!(l.check_claim(3), Err(Error::CommunicationError(_))));
    assert_eq!(l.check_claim(4), Ok(()));
}

#[test]
fn dropped_interface_is_invalid() {
    let mut l = Lifecycle::new();
    assert_eq!(l.check_claim(0), Ok(()));
    let c = l.record_claim(0);
    assert_eq!(l.release(&c), Ok(0));
    assert_eq!(l.check_claim_live(&c), Err(Error::Invalid));
    assert_eq!(l.release(&c), Err(Error::Invalid));
}

#[test]
fn reclaim_after_release_gives_a_new_claim() {
    let mut l = Lifecycle::new();
    let old = l.record_claim(0);
    assert_eq!(l.release(&old), Ok(0));
    assert_eq!(l.check_claim(0), Ok(()));
    let new = l.record_claim(0);
    assert_ne!(old, new);
    assert_eq!(l.check_claim_live(&old), Err(Error::Invalid));
    assert_eq!(l.check_claim_live(&new), Ok(()));
}

#[test]
fn release_keeps_other_claims() {
    let mut l = Lifecycle::new();
    let a = l.record_claim(0);
    let b = l.record_claim(1);
    assert_eq!(l.release(&a), Ok(0));
    assert_eq!(l.check_claim_live(&b), Ok(()));
}

#[test]
fn reset_twice_is_invalid() {
    let mut l = Lifecycle::new();
    assert_eq!(l.check_release_all(), Ok(()));
    l.record_reset();
    assert_eq!(l.state(), DeviceState::Reset);
    assert_eq!(l.check_release_all(), Err(Error::Invalid));
}

#[test]
fn reset_makes_claims_stale() {
    let mut l = Lifecycle::new();
    let c = l.record_claim(0);
    l.record_reset();
    assert_eq!(l.check_claim_live(&c), Err(Error::Invalid));
    assert_eq!(l.check_claim(1), Err(Error::Invalid));
}

#[test]
fn forgotten_device_is_disconnected() {
    let mut l = Lifecycle::new();
    let c = l.record_claim(0);
    l.record_forget();
    assert_eq!(l.state(), DeviceState::Forgotten);
    assert_eq!(l.check_claim_live(&c), Err(Error::Disconnected));
    assert_eq!(l.check_release_all(), Err(Error::Disconnected));
    assert_eq!(l.check_claim(0), Err(Error::Disconnected));
}
