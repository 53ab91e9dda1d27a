//! The transfers of a session: what is asked of the transport, and what is
//! made of its answers.

use vstd::prelude::*;
use crate::error::{TransportError, UsbFailure};
use crate::wire::{
    class_interface_request, feature_report_value, feature_value, Direction, GET_REPORT,
    SET_REPORT, TRANSFER_TIMEOUT_MS,
};

verus! {

/// Report identifier under which feature reports are exchanged.
pub const REPORT_ID: u8 = 0;

/// An interrupt read to issue: up to `length` bytes from `endpoint`.
#[derive(Clone, Copy, Debug, PartialEq, Eq, Structural)]
pub struct InterruptRead {
    pub endpoint: u8,
    pub length: usize,
    pub timeout_ms: u64,
}

/// A control transfer to issue. For a transfer towards the device `data` is
/// what is sent; for one towards the host it is the zeroed buffer to fill.
#[derive(Debug)]
pub struct ControlTransfer {
    pub request_type: u8,
    pub request: u8,
    pub value: u16,
    pub index: u16,
    pub data: Vec<u8>,
    pub timeout_ms: u64,
}

/// The round trip of one feature report: SET_REPORT, then GET_REPORT.
#[derive(Debug)]
pub struct FeatureExchange {
    pub set_report: ControlTransfer,
    pub get_report: ControlTransfer,
}

/// What the read loop does after one read.
#[derive(Debug)]
pub enum LoopAction {
    /// Hand these bytes to the callback, then read again.
    Deliver(Vec<u8>),
    /// Nothing to hand out; read again.
    Idle,
    /// The device is gone: leave the loop, for this reason.
    Exit(TransportError),
}

/// `request`, followed by zeros up to `capacity` bytes.
pub open spec fn padded(request: Seq<u8>, capacity: nat) -> Seq<u8> {
    Seq::new(capacity, |i: int| if i < request.len() { request[i] } else { 0u8 })
}

/// `length` zero bytes.
pub open spec fn zeros(length: nat) -> Seq<u8> {
    Seq::new(length, |i: int| 0u8)
}

/// The SET_REPORT transfer carries the request, padded to the control
/// buffer, to the given interface.
pub open spec fn is_set_report(t: ControlTransfer, request: Seq<u8>, interface: u8, capacity: nat)
    -> bool {
    &&& t.request_type == 0x21
    &&& t.request == SET_REPORT
    &&& t.value == feature_value(REPORT_ID)
    &&& t.index == interface
    &&& t.data@ == padded(request, capacity)
    &&& t.timeout_ms == TRANSFER_TIMEOUT_MS
}

/// The GET_REPORT transfer asks the given interface for a full control
/// buffer.
pub open spec fn is_get_report(t: ControlTransfer, interface: u8, capacity: nat) -> bool {
    &&& t.request_type == 0xA1
    &&& t.request == GET_REPORT
    &&& t.value == feature_value(REPORT_ID)
    &&& t.index == interface
    &&& t.data@ == zeros(capacity)
    &&& t.timeout_ms == TRANSFER_TIMEOUT_MS
}

/// What a caller gets from a finished transfer into `buffer`.
pub open spec fn transfer_result(outcome: Result<usize, UsbFailure>, buffer: Seq<u8>) -> Result<
    (usize, Seq<u8>),
    TransportError,
> {
    match outcome {
        Ok(n) => Ok((n, buffer.take(n as int))),
        Err(cause) => Err(TransportError::TransferError(cause)),
    }
}

/// Copies `request` into a buffer of `capacity` bytes, zero beyond it.
pub fn pad_request(request: &[u8], capacity: usize) -> (r: Vec<u8>)
    requires
        request@.len() <= capacity,
    ensures
        r@ == padded(request@, capacity as nat),
{
    let mut out: Vec<u8> = Vec::new();
    let mut i: usize = 0;
    while i < capacity
        invariant
            i <= capacity,
            out@.len() == i,
            forall|j: int| 0 <= j < i ==> out@[j] == padded(request@, capacity as nat)[j],
        decreases capacity - i,
    {
        let byte: u8 = if i < request.len() {
            request[i]
        } else {
            0u8
        };
        out.push(byte);
        i += 1;
    }
    assert(out@ =~= padded(request@, capacity as nat));
    out
}

/// The first `n` bytes of `buffer`.
pub fn received_bytes(buffer: &[u8], n: usize) -> (r: Vec<u8>)
    requires
        n <= buffer@.len(),
    ensures
        r@ == buffer@.take(n as int),
{
    let mut out: Vec<u8> = Vec::new();
    let mut i: usize = 0;
    while i < n
        invariant
            i <= n,
            n <= buffer@.len(),
            out@.len() == i,
            forall|j: int| 0 <= j < i ==> out@[j] == buffer@[j],
        decreases n - i,
    {
        out.push(buffer[i]);
        i += 1;
    }
    assert(out@ =~= buffer@.take(n as int));
    out
}

/// Builds the SET_REPORT transfer for a request that fits the control
/// buffer.
pub fn set_report(request: &[u8], interface: u8, capacity: usize) -> (r: ControlTransfer)
    requires
        request@.len() <= capacity,
    ensures
        is_set_report(r, request@, interface, capacity as nat),
        r.value == 0x0300 + REPORT_ID,
{
    ControlTransfer {
        request_type: class_interface_request(Direction::Out),
        request: SET_REPORT,
        value: feature_report_value(REPORT_ID),
        index: interface as u16,
        data: pad_request(request, capacity),
        timeout_ms: TRANSFER_TIMEOUT_MS,
    }
}

/// Builds the GET_REPORT transfer that answers a SET_REPORT.
pub fn get_report(interface: u8, capacity: usize) -> (r: ControlTransfer)
    ensures
        is_get_report(r, interface, capacity as nat),
        r.value == 0x0300 + REPORT_ID,
{
    let empty: [u8; 0] = [];
    let data: Vec<u8> = pad_request(empty.as_slice(), capacity);
    assert(data@ =~= zeros(capacity as nat));
    ControlTransfer {
        request_type: class_interface_request(Direction::In),
        request: GET_REPORT,
        value: feature_report_value(REPORT_ID),
        index: interface as u16,
        data,
        timeout_ms: TRANSFER_TIMEOUT_MS,
    }
}

/// Concludes a transfer towards the host: the bytes that arrived, cut to the
/// transferred length, or the failure as a `TransferError`.
pub fn transferred(outcome: Result<usize, UsbFailure>, buffer: &[u8]) -> (r: Result<
    (usize, Vec<u8>),
    TransportError,
>)
    requires
        outcome matches Ok(n) ==> n <= buffer@.len(),
    ensures
        match r {
            Ok((n, bytes)) => transfer_result(outcome, buffer@) == Ok::<
                (usize, Seq<u8>),
                TransportError,
            >((n, bytes@)),
            Err(e) => transfer_result(outcome, buffer@) == Err::<(usize, Seq<u8>), TransportError>(
                e,
            ),
        },
{
    match outcome {
        Ok(n) => Ok((n, received_bytes(buffer, n))),
        Err(cause) => Err(TransportError::from_failure(cause)),
    }
}

impl FeatureExchange {
    /// The second half of the round trip, once the first is over: GET_REPORT
    /// follows a SET_REPORT that succeeded, and a SET_REPORT that failed
    /// ends the exchange with its cause.
    pub fn proceed(self, sent: Result<usize, UsbFailure>) -> (r: Result<
        ControlTransfer,
        TransportError,
    >)
        ensures
            match sent {
                Ok(_) => r matches Ok(t) && t == self.get_report,
                Err(cause) => r matches Err(e) && e == TransportError::TransferError(cause),
            },
    {
        match sent {
            Ok(_) => Ok(self.get_report),
            Err(cause) => Err(TransportError::from_failure(cause)),
        }
    }
}

/// Tells from the probe of an interface's kernel driver whether the driver
/// has to be detached before a read and attached again after it: only where
/// the probe succeeded and found one.
pub fn kernel_driver_bound(probe: Result<bool, UsbFailure>) -> (r: bool)
    ensures
        r == (probe == Ok::<bool, UsbFailure>(true)),
{
    match probe {
        Ok(bound) => bound,
        Err(_) => false,
    }
}

} // verus!
