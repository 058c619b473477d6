use rs1541::channel::DEFAULT_DEVICE_NUM;
use rs1541::validate::{validate_device, DeviceValidation};

#[test]
fn test_valid_numbers() {
    // A valid number passes in every mode.
    assert!(matches!(
        validate_device(Some(8), DeviceValidation::Required),
        Ok(Some(8))
    ));
    assert!(matches!(
        validate_device(Some(15), DeviceValidation::Optional),
        Ok(Some(15))
    ));
    assert!(matches!(
        validate_device(Some(10), DeviceValidation::Default),
        Ok(Some(10))
    ));
}

#[test]
fn test_invalid_numbers() {
    // An invalid number fails in every mode.
    assert!(validate_device(Some(7), DeviceValidation::Required).is_err());
    assert!(validate_device(Some(31), DeviceValidation::Optional).is_err());
    assert!(validate_device(Some(255), DeviceValidation::Default).is_err());
}

#[test]
fn test_none_handling() {
    assert!(validate_device(None, DeviceValidation::Required).is_err());

    assert!(matches!(
        validate_device(None, DeviceValidation::Optional),
        Ok(None)
    ));

    assert!(matches!(
        validate_device(None, DeviceValidation::Default),
        Ok(Some(DEFAULT_DEVICE_NUM))
    ));
}
