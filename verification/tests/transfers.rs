use windecon::descriptor::{
    AlternateSetting, AttachedDevice, ConfigInfo, DeviceIdentity, EndpointInfo, InterfaceInfo,
};
use windecon::error::{TransportError, UsbFailure};
use windecon::session::HidDevice;
use windecon::transfer::{
    get_report, kernel_driver_bound, pad_request, received_bytes, set_report, transferred,
    InterruptRead, LoopAction,
};
use windecon::wire::Direction;

fn opened(with_callback: bool) -> HidDevice {
    let mut dev = HidDevice::new(0x28DE, 0x1205);
    if with_callback {
        dev.set_on_input_received();
    }
    let bus = vec![AttachedDevice {
        identity: Some(DeviceIdentity { vendor_id: 0x28DE, product_id: 0x1205 }),
        config: Ok(ConfigInfo {
            number: 1,
            interfaces: vec![InterfaceInfo {
                settings: vec![AlternateSetting {
                    interface_number: 2,
                    setting_number: 0,
                    class_code: 0x03,
                    endpoints: vec![EndpointInfo {
                        address: 0x81,
                        direction: Direction::In,
                        max_packet_size: 64,
                    }],
                }],
            }],
        }),
    }];
    assert!(dev.open(&bus).is_ok());
    assert_eq!(dev.complete_open(Ok(())).result, Ok(()));
    dev
}

fn delivered(action: LoopAction) -> Option<Vec<u8>> {
    match action {
        LoopAction::Deliver(bytes) => Some(bytes),
        _ => None,
    }
}

#[test]
fn pad_request_fills_with_zeros() {
    assert_eq!(pad_request(&[0x85, 0x00], 4), vec![0x85, 0x00, 0x00, 0x00]);
    assert_eq!(pad_request(&[1, 2, 3], 3), vec![1, 2, 3]);
    assert_eq!(pad_request(&[], 2), vec![0, 0]);
    assert_eq!(pad_request(&[], 0), Vec::<u8>::new());
}

#[test]
fn received_bytes_cuts_to_length() {
    assert_eq!(received_bytes(&[9, 8, 7, 0, 0], 3), vec![9, 8, 7]);
    assert_eq!(received_bytes(&[9, 8, 7], 0), Vec::<u8>::new());
    assert_eq!(received_bytes(&[9, 8, 7], 3), vec![9, 8, 7]);
}

#[test]
fn direct_read_returns_received_bytes() {
    let dev = opened(false);
    let request = dev.read();
    assert_eq!(request, Ok(InterruptRead { endpoint: 0x81, length: 64, timeout_ms: 100 }));
    let mut buffer = vec![0u8; 64];
    buffer[0] = 0x01;
    buffer[1] = 0x02;
    buffer[2] = 0x03;
    assert_eq!(transferred(Ok(3), &buffer), Ok((3, vec![0x01, 0x02, 0x03])));
}

#[test]
fn direct_read_on_inactive_session_is_refused() {
    let dev = HidDevice::new(1, 2);
    assert_eq!(dev.read(), Err(TransportError::NotOpen));
    let mut dev = opened(false);
    assert!(dev.close().is_ok());
    assert_eq!(dev.read(), Err(TransportError::NotOpen));
}

#[test]
fn failed_transfer_surfaces_its_cause() {
    let buffer = vec![0u8; 64];
    assert_eq!(
        transferred(Err(UsbFailure::Timeout), &buffer),
        Err(TransportError::TransferError(UsbFailure::Timeout))
    );
    assert_eq!(
        transferred(Err(UsbFailure::Io), &buffer),
        Err(TransportError::TransferError(UsbFailure::Io))
    );
    assert_eq!(
        transferred(Err(UsbFailure::NoDevice), &buffer),
        Err(TransportError::TransferError(UsbFailure::NoDevice))
    );
    assert_eq!(TransportError::from_failure(UsbFailure::Pipe), TransportError::TransferError(UsbFailure::Pipe));
}

#[test]
fn transfer_of_whole_buffer_and_of_nothing() {
    assert_eq!(transferred(Ok(0), &[5, 6]), Ok((0, vec![])));
    assert_eq!(transferred(Ok(2), &[5, 6]), Ok((2, vec![5, 6])));
}

#[test]
fn feature_report_round_trip_is_framed() {
    let dev = opened(false);
    let exchange = dev.request_feature_report(&[0x85, 0x00]).unwrap();
    let mut expected = vec![0u8; 64];
    expected[0] = 0x85;

    assert_eq!(exchange.set_report.request_type, 0x21);
    assert_eq!(exchange.set_report.request, 0x09);
    assert_eq!(exchange.set_report.value, 0x0300);
    assert_eq!(exchange.set_report.index, 2);
    assert_eq!(exchange.set_report.data, expected);
    assert_eq!(exchange.set_report.timeout_ms, 100);

    assert_eq!(exchange.get_report.request_type, 0xA1);
    assert_eq!(exchange.get_report.request, 0x01);
    assert_eq!(exchange.get_report.value, 0x0300);
    assert_eq!(exchange.get_report.index, 2);
    assert_eq!(exchange.get_report.data, vec![0u8; 64]);
    assert_eq!(exchange.get_report.timeout_ms, 100);

    let mut response = vec![0u8; 64];
    response[0] = 0x85;
    response[1] = 0x2A;
    assert_eq!(transferred(Ok(2), &response), Ok((2, vec![0x85, 0x2A])));
}

#[test]
fn feature_report_halves_share_value_and_index() {
    let dev = opened(false);
    for request in [vec![0x85u8, 0x00], vec![0x8E, 0x00], vec![]] {
        let exchange = dev.request_feature_report(&request).unwrap();
        assert_eq!(exchange.set_report.value, exchange.get_report.value);
        assert_eq!(exchange.set_report.index, exchange.get_report.index);
        assert_eq!(exchange.set_report.data.len(), exchange.get_report.data.len());
    }
}

#[test]
fn feature_report_larger_than_buffer_is_refused() {
    let dev = opened(false);
    let request = vec![0xAAu8; 65];
    assert_eq!(dev.request_feature_report(&request).err(), Some(TransportError::RequestTooLarge));
    let request = vec![0xAAu8; 1000];
    assert_eq!(dev.request_feature_report(&request).err(), Some(TransportError::RequestTooLarge));
}

#[test]
fn feature_report_of_buffer_length_is_accepted() {
    let dev = opened(false);
    let request = vec![0xAAu8; 64];
    let exchange = dev.request_feature_report(&request).unwrap();
    assert_eq!(exchange.set_report.data, request);
}

#[test]
fn feature_report_on_inactive_session_is_refused() {
    let dev = HidDevice::new(1, 2);
    assert_eq!(dev.request_feature_report(&[0x85, 0x00]).err(), Some(TransportError::NotOpen));
    let too_long = vec![0u8; 65];
    assert_eq!(dev.request_feature_report(&too_long).err(), Some(TransportError::NotOpen));
}

#[test]
fn set_and_get_report_builders() {
    let set = set_report(&[1, 2], 7, 4);
    assert_eq!(set.request_type, 0x21);
    assert_eq!(set.request, 0x09);
    assert_eq!(set.value, 0x0300);
    assert_eq!(set.index, 7);
    assert_eq!(set.data, vec![1, 2, 0, 0]);
    let get = get_report(7, 4);
    assert_eq!(get.request_type, 0xA1);
    assert_eq!(get.request, 0x01);
    assert_eq!(get.value, 0x0300);
    assert_eq!(get.index, 7);
    assert_eq!(get.data, vec![0, 0, 0, 0]);
}

#[test]
fn read_loop_asks_for_one_packet_while_active() {
    let mut dev = opened(true);
    assert_eq!(dev.begin_read(), Some(InterruptRead { endpoint: 0x81, length: 64, timeout_ms: 100 }));
    assert!(dev.close().is_ok());
    assert_eq!(dev.begin_read(), None);
    assert_eq!(HidDevice::new(1, 2).begin_read(), None);
}

#[test]
fn every_packet_is_delivered_at_its_length() {
    let mut dev = opened(true);
    let lengths: [usize; 5] = [1, 3, 64, 17, 2];
    let mut count = 0;
    for n in lengths {
        let mut buffer = vec![0u8; 64];
        for (i, byte) in buffer.iter_mut().enumerate().take(n) {
            *byte = (i + 1) as u8;
        }
        let bytes = delivered(dev.complete_read(Ok(n), &buffer)).unwrap();
        assert_eq!(bytes.len(), n);
        assert_eq!(bytes, buffer[..n].to_vec());
        count += 1;
        assert!(dev.is_valid());
    }
    assert_eq!(count, 5);
}

#[test]
fn empty_read_and_timeout_deliver_nothing() {
    let mut dev = opened(true);
    let buffer = vec![0u8; 64];
    assert!(matches!(dev.complete_read(Ok(0), &buffer), LoopAction::Idle));
    assert!(matches!(dev.complete_read(Err(UsbFailure::Timeout), &buffer), LoopAction::Idle));
    assert!(matches!(dev.complete_read(Err(UsbFailure::Io), &buffer), LoopAction::Idle));
    assert!(dev.is_valid());
    assert!(dev.begin_read().is_some());
}

#[test]
fn packets_without_callback_are_dropped() {
    let mut dev = opened(false);
    let buffer = vec![7u8; 64];
    assert!(matches!(dev.complete_read(Ok(5), &buffer), LoopAction::Idle));
    dev.set_on_input_received();
    assert_eq!(delivered(dev.complete_read(Ok(5), &buffer)), Some(vec![7u8; 5]));
}

#[test]
fn removed_device_ends_loop_and_session() {
    let mut dev = opened(true);
    let buffer = vec![0u8; 64];
    let action = dev.complete_read(Err(UsbFailure::NoDevice), &buffer);
    assert!(matches!(action, LoopAction::Exit(TransportError::DeviceRemoved)));
    assert!(!dev.is_valid());
    assert!(dev.stop_requested());
    assert_eq!(dev.begin_read(), None);
    assert_eq!(dev.read(), Err(TransportError::NotOpen));
    assert_eq!(dev.request_feature_report(&[0x85, 0x00]).err(), Some(TransportError::NotOpen));
    assert_eq!(dev.close(), Err(TransportError::NotOpen));
}

#[test]
fn only_a_missing_device_is_fatal() {
    assert!(UsbFailure::NoDevice.device_gone());
    for cause in [
        UsbFailure::Io,
        UsbFailure::InvalidParam,
        UsbFailure::Access,
        UsbFailure::NotFound,
        UsbFailure::Busy,
        UsbFailure::Timeout,
        UsbFailure::Overflow,
        UsbFailure::Pipe,
        UsbFailure::Interrupted,
        UsbFailure::NoMem,
        UsbFailure::NotSupported,
        UsbFailure::BadDescriptor,
        UsbFailure::Other,
    ] {
        assert!(!cause.device_gone());
    }
}

#[test]
fn kernel_driver_is_detached_only_when_found() {
    assert!(kernel_driver_bound(Ok(true)));
    assert!(!kernel_driver_bound(Ok(false)));
    assert!(!kernel_driver_bound(Err(UsbFailure::NotSupported)));
    assert!(!kernel_driver_bound(Err(UsbFailure::NoDevice)));
}

#[test]
fn get_report_follows_successful_set_report() {
    let dev = opened(false);
    let exchange = dev.request_feature_report(&[0x8E, 0x00]).unwrap();
    let get = exchange.proceed(Ok(64)).unwrap();
    assert_eq!(get.request_type, 0xA1);
    assert_eq!(get.request, 0x01);
    assert_eq!(get.value, 0x0300);
    assert_eq!(get.index, 2);
    assert_eq!(get.data, vec![0u8; 64]);
}

#[test]
fn failed_set_report_ends_exchange() {
    let dev = opened(false);
    let exchange = dev.request_feature_report(&[0x8E, 0x00]).unwrap();
    assert_eq!(
        exchange.proceed(Err(UsbFailure::Io)).err(),
        Some(TransportError::TransferError(UsbFailure::Io))
    );
    let exchange = dev.request_feature_report(&[0x8E, 0x00]).unwrap();
    assert_eq!(
        exchange.proceed(Err(UsbFailure::Timeout)).err(),
        Some(TransportError::TransferError(UsbFailure::Timeout))
    );
}

#[test]
fn session_on_interface_two_reads_and_exchanges() {
    let dev = opened(true);
    let descriptor = dev.interface_descriptor().unwrap();
    assert_eq!(descriptor.interface_number, 2);
    assert_eq!(descriptor.alternate_setting, 0);
    assert_eq!(descriptor.endpoint_address, 0x81);
    assert_eq!(descriptor.max_packet_size, 64);

    let read = dev.read().unwrap();
    assert_eq!(read.endpoint, 0x81);
    assert_eq!(read.length, 64);
    let mut buffer = vec![0u8; read.length];
    buffer[..3].copy_from_slice(&[0x01, 0x02, 0x03]);
    assert_eq!(transferred(Ok(3), &buffer), Ok((3, vec![0x01, 0x02, 0x03])));

    let exchange = dev.request_feature_report(&[0x85, 0x00]).unwrap();
    assert_eq!(exchange.set_report.request, 0x09);
    assert_eq!(exchange.set_report.value, 0x0300);
    assert_eq!(exchange.set_report.index, 2);
    let get = exchange.proceed(Ok(64)).unwrap();
    assert_eq!(get.request, 0x01);
    assert_eq!(get.value, 0x0300);
    assert_eq!(get.index, 2);
    let mut response = get.data;
    response[..4].copy_from_slice(&[0x85, 0x10, 0x20, 0x30]);
    assert_eq!(transferred(Ok(4), &response), Ok((4, vec![0x85, 0x10, 0x20, 0x30])));
}
