use cross_usb::transfer::{error_of_fault, finish_read, finish_write, TransferFault};
use cross_usb::usb::{ControlIn, ControlType, Error, Recipient};

#[test]
fn read_within_request_is_returned() {
    assert_eq!(finish_read(4, Ok(vec![1, 2, 3])), Ok(vec![1, 2, 3]));
    assert_eq!(finish_read(3, Ok(vec![1, 2, 3])), Ok(vec![1, 2, 3]));
}

#[test]
fn empty_read_is_returned() {
    assert_eq!(finish_read(0, Ok(Vec::new())), Ok(Vec::new()));
}

#[test]
fn overlong_read_is_a_transfer_error() {
    assert_eq!(finish_read(2, Ok(vec![1, 2, 3])), Err(Error::TransferError));
}

#[test]
fn write_count_is_returned() {
    assert_eq!(finish_write(5, Ok(5)), Ok(5));
    assert_eq!(finish_write(5, Ok(2)), Ok(2));
    assert_eq!(finish_write(5, Ok(6)), Err(Error::TransferError));
}

#[test]
fn faults_map_onto_the_taxonomy() {
    assert_eq!(error_of_fault(TransferFault::Disconnected), Error::Disconnected);
    assert_eq!(error_of_fault(TransferFault::Stall), Error::TransferError);
    assert_eq!(error_of_fault(TransferFault::Cancelled), Error::TransferError);
    assert_eq!(error_of_fault(TransferFault::Fault), Error::TransferError);
    assert_eq!(error_of_fault(TransferFault::Unknown), Error::TransferError);
    assert_eq!(finish_read(8, Err(TransferFault::Stall)), Err(Error::TransferError));
    assert_eq!(finish_write(8, Err(TransferFault::Disconnected)), Err(Error::Disconnected));
}

#[test]
fn echo_round_trip() {
    let written = vec![0xde, 0xad, 0xbe, 0xef];
    let accepted = finish_write(written.len(), Ok(written.len())).unwrap();
    let request = ControlIn {
        control_type: ControlType::Vendor,
        recipient: Recipient::Interface,
        request: 0x01,
        value: 0,
        index: 0,
        length: 4,
    };
    let echoed = written[..accepted].to_vec();
    assert_eq!(finish_read(request.length as usize, Ok(echoed)), Ok(written));
}

#[test]
fn error_messages() {
    assert_eq!(Error::DeviceNotFound.message(), "device not found");
    assert_eq!(Error::TransferError.message(), "device transfer failed");
    assert_eq!(Error::CommunicationError("x".to_string()).message(), "device communication failed");
    assert_eq!(Error::Disconnected.message(), "device disconnected");
    assert_eq!(Error::Invalid.message(), "device no longer valid");
}

#[test]
fn communication_errors_compare_by_text() {
    assert_eq!(Error::CommunicationError("a".to_string()), Error::CommunicationError("a".to_string()));
    assert_ne!(Error::CommunicationError("a".to_string()), Error::CommunicationError("b".to_string()));
    assert_ne!(Error::Invalid, Error::Disconnected);
}
