//! Bit layout of the HID class requests that carry feature reports.

use vstd::prelude::*;

verus! {

/// Direction of a transfer, seen from the host.
#[derive(Clone, Copy, Debug, PartialEq, Eq, Structural)]
pub enum Direction {
    In,
    Out,
}

/// Type field of a control request.
#[derive(Clone, Copy, Debug, PartialEq, Eq, Structural)]
pub enum RequestType {
    Standard,
    Class,
    Vendor,
    Reserved,
}

/// Recipient field of a control request.
#[derive(Clone, Copy, Debug, PartialEq, Eq, Structural)]
pub enum Recipient {
    Device,
    Interface,
    Endpoint,
    Other,
}

/// `bRequest` of SET_REPORT.
pub const SET_REPORT: u8 = 0x09;

/// `bRequest` of GET_REPORT.
pub const GET_REPORT: u8 = 0x01;

/// Report type "Feature", the high byte of `wValue`.
pub const FEATURE_REPORT: u8 = 0x03;

/// Class code of the HID interface class.
pub const HID_CLASS: u8 = 0x03;

/// Bound, in milliseconds, on every transfer of a session.
pub const TRANSFER_TIMEOUT_MS: u64 = 100;

/// Bit 7 of `bmRequestType`.
pub open spec fn direction_bits(direction: Direction) -> u8 {
    match direction {
        Direction::Out => 0x00u8,
        Direction::In => 0x80u8,
    }
}

/// Bits 5 and 6 of `bmRequestType`.
pub open spec fn type_bits(category: RequestType) -> u8 {
    match category {
        RequestType::Standard => 0x00u8,
        RequestType::Class => 0x20u8,
        RequestType::Vendor => 0x40u8,
        RequestType::Reserved => 0x60u8,
    }
}

/// The low bits of `bmRequestType`.
pub open spec fn recipient_bits(recipient: Recipient) -> u8 {
    match recipient {
        Recipient::Device => 0x00u8,
        Recipient::Interface => 0x01u8,
        Recipient::Endpoint => 0x02u8,
        Recipient::Other => 0x03u8,
    }
}

/// `bmRequestType`: direction in bit 7, type in bits 5 and 6, recipient in
/// the low bits.
pub open spec fn request_type_bits(
    direction: Direction,
    category: RequestType,
    recipient: Recipient,
) -> u8 {
    direction_bits(direction) | type_bits(category) | recipient_bits(recipient)
}

/// `wValue` of a feature-report request: the report type above the report
/// identifier.
pub open spec fn feature_value(report_id: u8) -> u16 {
    ((FEATURE_REPORT as u16) << 8) | (report_id as u16)
}

/// Builds `bmRequestType` by a call of `rusb::request_type`. Trusted: the result is the bitwise or of the
/// three fields' bit patterns, as that function composes them from libusb's
/// constants.
#[verifier::external_body]
fn request_type(direction: Direction, category: RequestType, recipient: Recipient) -> (r: u8)
    ensures
        r == request_type_bits(direction, category, recipient),
{
    let d = match direction {
        Direction::In => rusb::Direction::In,
        Direction::Out => rusb::Direction::Out,
    };
    let k = match category {
        RequestType::Standard => rusb::RequestType::Standard, RequestType::Class => rusb::RequestType::Class,
        RequestType::Vendor => rusb::RequestType::Vendor, RequestType::Reserved => rusb::RequestType::Reserved,
    };
    let t = match recipient {
        Recipient::Device => rusb::Recipient::Device, Recipient::Interface => rusb::Recipient::Interface,
        Recipient::Endpoint => rusb::Recipient::Endpoint, Recipient::Other => rusb::Recipient::Other,
    };
    rusb::request_type(d, k, t)
}

/// `bmRequestType` of a class request to an interface, in the given
/// direction: `0x21` towards the device, `0xA1` towards the host.
pub fn class_interface_request(direction: Direction) -> (r: u8)
    ensures
        r == request_type_bits(direction, RequestType::Class, Recipient::Interface),
        direction == Direction::Out ==> r == 0x21,
        direction == Direction::In ==> r == 0xA1,
{
    let r: u8 = request_type(direction, RequestType::Class, Recipient::Interface);
    proof {
        assert(0x00u8 | 0x20u8 | 0x01u8 == 0x21u8) by (bit_vector);
        assert(0x80u8 | 0x20u8 | 0x01u8 == 0xA1u8) by (bit_vector);
    }
    r
}

/// Computes `wValue` for a feature report with the given identifier.
pub fn feature_report_value(report_id: u8) -> (r: u16)
    ensures
        r == feature_value(report_id),
        r == 0x0300 + report_id,
        r >> 8 == FEATURE_REPORT,
        r & 0xff == report_id,
{
    let high: u16 = FEATURE_REPORT as u16;
    let low: u16 = report_id as u16;
    let r: u16 = (high << 8) | low;
    proof {
        assert(((3u16 << 8) | low) == 0x0300 + low) by (bit_vector)
            requires
                low < 256,
        ;
        assert(((3u16 << 8) | low) >> 8 == 3) by (bit_vector)
            requires
                low < 256,
        ;
        assert(((3u16 << 8) | low) & 0xff == low) by (bit_vector)
            requires
                low < 256,
        ;
    }
    r
}

} // verus!
