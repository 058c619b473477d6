//! Checking a device number that a caller gave, or did not give.

use crate::channel::{DEFAULT_DEVICE_NUM, DEVICE_MAX_NUM, DEVICE_MIN_NUM};
use crate::error::{error_view, Rs1541Error, Rs1541ErrorView};
use crate::text::{decimal, push_decimal};
use vstd::prelude::*;
use vstd::string::StringExecFns;

verus! {

/// What to do where the caller gave no device number.
#[derive(Debug, Clone, Copy, PartialEq, Eq, Structural)]
pub enum DeviceValidation {
    /// A number must be given.
    Required,
    /// None may be given, and none is returned.
    Optional,
    /// None may be given, and the default device is returned.
    Default,
}

/// What [`validate_device`] returns.
///
/// A number that is given must lie between 8 and 30, whatever the mode. Where
/// none is given, the mode decides.
pub open spec fn validate_device_spec(
    device: Option<u8>,
    validation: DeviceValidation,
) -> Result<Option<u8>, Rs1541ErrorView> {
    match device {
        Some(number) => if DEVICE_MIN_NUM <= number <= DEVICE_MAX_NUM {
            Ok(device)
        } else {
            Err(
                Rs1541ErrorView::Validation {
                    message: "Device num must be between "@ + decimal(DEVICE_MIN_NUM as nat)
                        + " and "@ + decimal(DEVICE_MAX_NUM as nat),
                },
            )
        },
        None => match validation {
            DeviceValidation::Required => Err(
                Rs1541ErrorView::Validation { message: "No device num supplied"@ },
            ),
            DeviceValidation::Optional => Ok(None),
            DeviceValidation::Default => Ok(Some(DEFAULT_DEVICE_NUM)),
        },
    }
}

/// Checks the device number `device` under the mode `validation`.
pub fn validate_device(device: Option<u8>, validation: DeviceValidation) -> (r: Result<
    Option<u8>,
    Rs1541Error,
>)
    ensures
        error_view(r) == validate_device_spec(device, validation),
{
    match device {
        Some(number) => {
            if number < DEVICE_MIN_NUM || number > DEVICE_MAX_NUM {
                let mut message = String::new();
                message.append("Device num must be between ");
                push_decimal(&mut message, DEVICE_MIN_NUM as u64);
                message.append(" and ");
                push_decimal(&mut message, DEVICE_MAX_NUM as u64);
                Err(Rs1541Error::Validation { message })
            } else {
                Ok(device)
            }
        },
        None => match validation {
            DeviceValidation::Required => {
                let mut message = String::new();
                message.append("No device num supplied");
                Err(Rs1541Error::Validation { message })
            },
            DeviceValidation::Optional => Ok(None),
            DeviceValidation::Default => Ok(Some(DEFAULT_DEVICE_NUM)),
        },
    }
}

} // verus!
