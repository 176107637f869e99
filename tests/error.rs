use multi_harp_patina::{MultiHarpError, PatinaError};

#[test]
fn codes_map_to_errors_and_back() {
    assert_eq!(MultiHarpError::from_code(-17), MultiHarpError::InvalidArgument);
    assert_eq!(MultiHarpError::from(-28), MultiHarpError::FIFOResetFail);
    assert_eq!(MultiHarpError::from_code(0), MultiHarpError::NoError);
    assert_eq!(MultiHarpError::from_code(-78), MultiHarpError::EEPROMF15);
    assert_eq!(MultiHarpError::ThreadStateFail.code(), -29);
    assert_eq!(MultiHarpError::InvalidError.code(), -1000);
    for c in -100..=0 {
        let e = MultiHarpError::from_code(c);
        if e != MultiHarpError::InvalidError {
            assert_eq!(e.code(), c);
        }
    }
}

#[test]
fn unknown_codes_are_invalid_error() {
    assert_eq!(MultiHarpError::from_code(-13), MultiHarpError::InvalidError);
    assert_eq!(MultiHarpError::from_code(5), MultiHarpError::InvalidError);
    assert_eq!(MultiHarpError::from_code(-1000), MultiHarpError::InvalidError);
}

#[test]
fn descriptions() {
    assert_eq!(MultiHarpError::NoError.description(), "No error");
    assert_eq!(MultiHarpError::FIFOResetFail.description(), "Failed to FIFO buffer");
    assert_eq!(
        MultiHarpError::DeviceBusy.description(),
        "Device busy -- may be used by another instance"
    );
}

#[test]
fn library_error_wraps_device_error() {
    let e: PatinaError<i32> = PatinaError::from(MultiHarpError::DeviceLocked);
    assert_eq!(e, PatinaError::MultiHarpError(MultiHarpError::DeviceLocked));
}
