//! The transfer contract: what a control or bulk transfer returns, whatever
//! transport carried it.
use crate::usb::{ControlIn, ControlOut, Error};
use vstd::prelude::*;

verus! {

/// Why a transport reported a transfer as failed.
#[derive(Clone, Copy, Debug, PartialEq, Eq, Structural)]
pub enum TransferFault {
    /// The transfer was cancelled.
    Cancelled,
    /// The endpoint is in a STALL condition.
    Stall,
    /// The device was disconnected.
    Disconnected,
    /// A hardware fault or a protocol violation.
    Fault,
    /// Any other failure.
    Unknown,
}

/// The error that a transport fault becomes: a removed device is
/// `Disconnected`, anything else a `TransferError`.
pub open spec fn fault_error(f: TransferFault) -> Error {
    match f {
        TransferFault::Disconnected => Error::Disconnected,
        _ => Error::TransferError,
    }
}

/// The error that a transport fault becomes.
pub fn error_of_fault(f: TransferFault) -> (r: Error)
    ensures
        r == fault_error(f),
{
    match f {
        TransferFault::Disconnected => Error::Disconnected,
        _ => Error::TransferError,
    }
}

/// What an IN transfer of at most `requested` bytes gives the caller.
pub open spec fn read_result(requested: int, outcome: Result<Seq<u8>, TransferFault>) -> Result<
    Seq<u8>,
    Error,
> {
    match outcome {
        Ok(bytes) => if bytes.len() <= requested {
            Ok(bytes)
        } else {
            Err(Error::TransferError)
        },
        Err(f) => Err(fault_error(f)),
    }
}

/// What an OUT transfer of `offered` bytes gives the caller.
pub open spec fn write_result(offered: int, outcome: Result<usize, TransferFault>) -> Result<
    usize,
    Error,
> {
    match outcome {
        Ok(n) => if n <= offered {
            Ok(n)
        } else {
            Err(Error::TransferError)
        },
        Err(f) => Err(fault_error(f)),
    }
}

/// The result of an IN transfer of at most `requested` bytes, from the
/// transport's outcome: the bytes the device returned, a `TransferError` if
/// it returned more than was asked for, or the fault's error.
pub fn finish_read(requested: usize, outcome: Result<Vec<u8>, TransferFault>) -> (r: Result<
    Vec<u8>,
    Error,
>)
    ensures
        match (r, outcome) {
            (Ok(v), Ok(w)) => v@ == w@ && read_result(requested as int, Ok(w@)) == Ok::<Seq<u8>, Error>(v@),
            (Err(e), Ok(w)) => read_result(requested as int, Ok(w@)) == Err::<Seq<u8>, Error>(e),
            (Err(e), Err(f)) => e == fault_error(f),
            (Ok(_), Err(_)) => false,
        },
{
    match outcome {
        Ok(bytes) => if bytes.len() <= requested {
            Ok(bytes)
        } else {
            Err(Error::TransferError)
        },
        Err(f) => Err(error_of_fault(f)),
    }
}

/// The result of an OUT transfer of `offered` bytes, from the transport's
/// outcome: the count the device accepted, a `TransferError` if it claims
/// more than was offered, or the fault's error.
pub fn finish_write(offered: usize, outcome: Result<usize, TransferFault>) -> (r: Result<usize, Error>)
    ensures
        r == write_result(offered as int, outcome),
{
    match outcome {
        Ok(n) => if n <= offered {
            Ok(n)
        } else {
            Err(Error::TransferError)
        },
        Err(f) => Err(error_of_fault(f)),
    }
}

/// The four transfers on a claimed interface.
pub trait UsbInterface<'a> {
    /// A control IN transfer (device to host): at most `data.length` bytes.
    fn control_in(&self, data: ControlIn) -> (r: Result<Vec<u8>, Error>)
        ensures
            r matches Ok(v) ==> v@.len() <= data.length,
            r matches Err(e) ==> e is TransferError || e is Disconnected,
    ;

    /// A control OUT transfer (host to device): the count of bytes the
    /// device accepted, at most the length of `data.data`, which the setup
    /// packet's 16-bit length field must hold.
    fn control_out(&self, data: ControlOut<'a>) -> (r: Result<usize, Error>)
        requires
            data.data@.len() <= u16::MAX,
        ensures
            r matches Ok(n) ==> n <= data.data@.len(),
            r matches Err(e) ==> e is TransferError || e is Disconnected,
    ;

    /// A bulk IN transfer from `endpoint`, an IN endpoint address (its top
    /// bit set): at most `length` bytes, and no bytes, without an error,
    /// when `length` is zero.
    fn bulk_in(&self, endpoint: u8, length: usize) -> (r: Result<Vec<u8>, Error>)
        requires
            endpoint >= 0x80,
            length <= i32::MAX,
        ensures
            r matches Ok(v) ==> v@.len() <= length,
            length == 0 ==> (r matches Ok(v) && v@.len() == 0),
            r matches Err(e) ==> e is TransferError || e is Disconnected,
    ;

    /// A bulk OUT transfer to `endpoint`, an OUT endpoint address (its top
    /// bit clear): the count of bytes written, at most the length of `data`.
    fn bulk_out(&self, endpoint: u8, data: &[u8]) -> (r: Result<usize, Error>)
        requires
            endpoint < 0x80,
            data@.len() <= i32::MAX,
        ensures
            r matches Ok(n) ==> n <= data@.len(),
            r matches Err(e) ==> e is TransferError || e is Disconnected,
    ;
}

/// A device that echoes: when an OUT transfer of `data` was accepted in
/// `accepted` bytes, and an IN transfer of at least that many bytes then
/// returns the bytes accepted, the caller reads back exactly what it wrote.
pub proof fn lemma_echo_round_trip(data: Seq<u8>, accepted: usize, requested: int)
    requires
        accepted <= data.len(),
        accepted <= requested,
    ensures
        write_result(data.len() as int, Ok(accepted)) == Ok::<usize, Error>(accepted),
        read_result(requested, Ok(data.take(accepted as int))) == Ok::<Seq<u8>, Error>(
            data.take(accepted as int),
        ),
{
}

} // verus!
