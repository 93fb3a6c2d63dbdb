use gatt_core::errors::{
    AttError, BluetoothStatusCode, ErrorKind, NativeError, Error, check_status_code, non_null,
    non_false,
};
use gatt_core::device::{
    pair_initial_step, pair_event_step, pair_failure_error, GlobalEvent, PairStep, PairInitial,
    BOND_NONE, BOND_BONDING, BOND_BONDED,
};
use gatt_core::ids::DeviceId;

#[test]
fn att_error_round_trips_through_u8() {
    let e = AttError::from_u8(0x0e);
    assert_eq!(e.as_u8(), 0x0e);
    assert_eq!(AttError::from(0x05u8).as_u8(), 0x05);
    assert_eq!(u8::from(AttError::from_u8(0xfd)), 0xfd);
}

#[test]
fn att_error_ranges() {
    assert!(!AttError::from_u8(0x7f).is_application());
    assert!(AttError::from_u8(0x80).is_application());
    assert!(AttError::from_u8(0x9f).is_application());
    assert!(!AttError::from_u8(0xa0).is_application());
    assert!(!AttError::from_u8(0xdf).is_common_profile_or_service());
    assert!(AttError::from_u8(0xe0).is_common_profile_or_service());
    assert!(AttError::from_u8(0xff).is_common_profile_or_service());
}

#[test]
fn status_codes_classify_by_raw_value() {
    assert_eq!(BluetoothStatusCode::from_code(2), BluetoothStatusCode::NotAllowed);
    assert_eq!(BluetoothStatusCode::from_code(1), BluetoothStatusCode::NotEnabled);
    assert_eq!(BluetoothStatusCode::from_code(3), BluetoothStatusCode::NotBonded);
    assert_eq!(BluetoothStatusCode::from_code(200), BluetoothStatusCode::GattWriteNotAllowed);
    assert_eq!(BluetoothStatusCode::from_code(201), BluetoothStatusCode::GattWriteBusy);
    assert_eq!(
        BluetoothStatusCode::from_code(6),
        BluetoothStatusCode::MissingBluetoothConnectPermission
    );
    assert_eq!(BluetoothStatusCode::from_code(9), BluetoothStatusCode::ProfileServiceNotBound);
    assert_eq!(BluetoothStatusCode::from_code(2147483647), BluetoothStatusCode::Unknown);
    assert_eq!(BluetoothStatusCode::from_code(11), BluetoothStatusCode::FeatureNotSupported);
    assert_eq!(BluetoothStatusCode::from_code(777), BluetoothStatusCode::UnknownError(777));
}

#[test]
fn native_errors_map_to_general_categories() {
    let att = AttError::from_u8(0x05);
    let e = Error::from_native(NativeError::GattError(att));
    assert_eq!(e.kind(), ErrorKind::Protocol(att));
    assert_eq!(e.source(), Some(NativeError::GattError(att)));

    let cases: Vec<(BluetoothStatusCode, ErrorKind)> = vec![
        (BluetoothStatusCode::NotAllowed, ErrorKind::NotAuthorized),
        (BluetoothStatusCode::NotEnabled, ErrorKind::AdapterUnavailable),
        (BluetoothStatusCode::NotBonded, ErrorKind::NotAuthorized),
        (BluetoothStatusCode::GattWriteNotAllowed, ErrorKind::NotAuthorized),
        (BluetoothStatusCode::GattWriteBusy, ErrorKind::NotReady),
        (BluetoothStatusCode::MissingBluetoothConnectPermission, ErrorKind::NotAuthorized),
        (BluetoothStatusCode::ProfileServiceNotBound, ErrorKind::Other),
        (BluetoothStatusCode::Unknown, ErrorKind::Other),
        (BluetoothStatusCode::FeatureNotSupported, ErrorKind::NotSupported),
        (BluetoothStatusCode::UnknownError(777), ErrorKind::Other),
    ];
    for (code, kind) in cases {
        assert_eq!(Error::from_native(NativeError::BluetoothStatusCode(code)).kind(), kind);
    }

    assert_eq!(Error::from_native(NativeError::JavaError).kind(), ErrorKind::Internal);
    assert_eq!(Error::from_native(NativeError::JavaCastError).kind(), ErrorKind::Internal);
    assert_eq!(Error::from_native(NativeError::JavaNullResult).kind(), ErrorKind::Internal);
    assert_eq!(Error::from_native(NativeError::JavaCallReturnedFalse).kind(), ErrorKind::Internal);
}

#[test]
fn error_carries_kind_source_and_message() {
    let e = Error::new(ErrorKind::Timeout, None, "took too long");
    assert_eq!(e.kind(), ErrorKind::Timeout);
    assert_eq!(e.source(), None);
    assert_eq!(e.message(), "took too long");
    let c = e.clone();
    assert_eq!(c.kind(), ErrorKind::Timeout);
    assert_eq!(c.message(), "took too long");
    let k = Error::from_kind(ErrorKind::NotFound);
    assert_eq!(k.kind(), ErrorKind::NotFound);
    assert_eq!(k.message(), "");
    assert_eq!(
        Error::from_native(NativeError::JavaCastError).message(),
        "Java object cast failed"
    );
}

#[test]
fn status_code_zero_means_success() {
    assert!(check_status_code(0).is_ok());
    let e = check_status_code(1).unwrap_err();
    assert_eq!(e.kind(), ErrorKind::AdapterUnavailable);
    let e = check_status_code(200).unwrap_err();
    assert_eq!(e.kind(), ErrorKind::NotAuthorized);
}

#[test]
fn null_and_false_returns_are_internal_errors() {
    assert_eq!(non_null(Some(3)).unwrap(), 3);
    let e = non_null(None::<i32>).unwrap_err();
    assert_eq!(e.kind(), ErrorKind::Internal);
    assert_eq!(e.source(), Some(NativeError::JavaNullResult));
    assert!(non_false(true).is_ok());
    let e = non_false(false).unwrap_err();
    assert_eq!(e.source(), Some(NativeError::JavaCallReturnedFalse));
}

#[test]
fn pairing_flow_decisions() {
    assert_eq!(pair_initial_step(BOND_BONDED), PairInitial::AlreadyPaired);
    assert_eq!(pair_initial_step(BOND_BONDING), PairInitial::Bonding);
    assert_eq!(pair_initial_step(BOND_NONE), PairInitial::NeedBond);

    let me = DeviceId::from_addr(1);
    let other = DeviceId::from_addr(2);
    let ev = |dev: DeviceId, prev: i32, new: i32| GlobalEvent::BondStateChanged {
        dev,
        prev_state: prev,
        new_state: new,
    };
    assert_eq!(pair_event_step(me, &ev(other, BOND_BONDING, BOND_BONDED)), PairStep::KeepWaiting);
    assert_eq!(pair_event_step(me, &ev(me, BOND_BONDING, BOND_BONDED)), PairStep::Paired);
    assert_eq!(pair_event_step(me, &ev(me, BOND_BONDING, BOND_NONE)), PairStep::Failed);
    assert_eq!(pair_event_step(me, &ev(me, BOND_BONDED, BOND_NONE)), PairStep::Disconnected);
    assert_eq!(pair_event_step(me, &ev(me, BOND_NONE, BOND_BONDING)), PairStep::KeepWaiting);
    let e = pair_failure_error();
    assert_eq!(e.kind(), ErrorKind::NotAuthorized);
    assert_eq!(e.message(), "pairing process failed");
}
