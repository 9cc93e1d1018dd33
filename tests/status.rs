use libnspire::{err, init_result, is_cx_ii_product, Error, PID, PID_CX2};

#[test]
fn success_code_is_ok() {
    assert_eq!(err(0), Ok(()));
}

#[test]
fn protocol_codes_map_to_kinds() {
    assert_eq!(err(1), Err(Error::Timeout));
    assert_eq!(err(2), Err(Error::OutOfMemory));
    assert_eq!(err(3), Err(Error::Invalid));
    assert_eq!(err(4), Err(Error::LibUsb));
    assert_eq!(err(5), Err(Error::NoDevice));
    assert_eq!(err(6), Err(Error::InvalidPacket));
    assert_eq!(err(7), Err(Error::Nack));
    assert_eq!(err(8), Err(Error::Busy));
    assert_eq!(err(9), Err(Error::Exists));
    assert_eq!(err(10), Err(Error::DoesNotExist));
}

#[test]
fn transport_codes_map_to_kinds() {
    assert_eq!(err(-1), Err(Error::Io));
    assert_eq!(err(-2), Err(Error::Invalid));
    assert_eq!(err(-3), Err(Error::Access));
    assert_eq!(err(-4), Err(Error::NoDevice));
    assert_eq!(err(-5), Err(Error::NoDevice));
    assert_eq!(err(-6), Err(Error::Busy));
    assert_eq!(err(-7), Err(Error::Timeout));
    assert_eq!(err(-8), Err(Error::LibUsb));
    assert_eq!(err(-9), Err(Error::LibUsb));
    assert_eq!(err(-10), Err(Error::LibUsb));
    assert_eq!(err(-11), Err(Error::OutOfMemory));
    assert_eq!(err(-12), Err(Error::NotSupported));
}

#[test]
fn unrecognised_codes_are_unknown() {
    assert_eq!(err(11), Err(Error::Unknown));
    assert_eq!(err(12), Err(Error::Unknown));
    assert_eq!(err(-99), Err(Error::Unknown));
    assert_eq!(err(-13), Err(Error::Unknown));
    assert_eq!(err(i32::MAX), Err(Error::Unknown));
    assert_eq!(err(i32::MIN), Err(Error::Unknown));
}

#[test]
fn only_one_code_succeeds() {
    for code in -200..200 {
        assert_eq!(err(code).is_ok(), code == 0);
    }
}

#[test]
fn product_id_selects_cx_ii() {
    assert!(is_cx_ii_product(PID_CX2));
    assert!(!is_cx_ii_product(PID));
    assert!(!is_cx_ii_product(0));
}

#[test]
fn initialisation_outcome() {
    assert_eq!(init_result(0, true), Ok(()));
    assert_eq!(init_result(0, false), Err(Error::NoDevice));
    assert_eq!(init_result(1, true), Err(Error::Timeout));
    assert_eq!(init_result(-3, false), Err(Error::Access));
    assert_eq!(init_result(42, true), Err(Error::Unknown));
}
