use rs1541::cbmtype::{CbmErrorNumber, CbmErrorNumberOk, CbmStatus};
use rs1541::error::Rs1541Error;

#[test]
fn test_new_with_bad_status() {
    let result = CbmStatus::new("bibble bobble flibble flobble", 8);
    assert_eq!(
        result,
        Err(Rs1541Error::Parse {
            message: "Device 8 supplied status format: bibble bobble flibble flobble".to_string()
        })
    );
}

#[test]
fn test_status_parsing() {
    let status = CbmStatus::try_from(("21,READ ERROR,18,00", 8)).unwrap();
    assert_eq!(status.number, 21);
    assert_eq!(status.error_number, CbmErrorNumber::ReadErrorNoSyncCharacter);
    assert_eq!(status.message, "READ ERROR");
    assert_eq!(status.track, 18);
    assert_eq!(status.sector, 0);
    assert_eq!(status.device, 8);
    assert_eq!(status.is_ok(), CbmErrorNumberOk::Error);
}

#[test]
fn test_ok_status() {
    let status = CbmStatus::try_from(("00,OK,00,00", 8)).unwrap();
    assert_eq!(status.is_ok(), CbmErrorNumberOk::Okay);
    assert_eq!(status.device, 8);
    assert_eq!(status.to_string(), "00,OK,00,00");
}

#[test]
fn test_73_status() {
    let status = CbmStatus::try_from(("73,DOS MISMATCH,00,00", 8)).unwrap();
    assert_eq!(status.error_number, CbmErrorNumber::DosMismatch);
    assert_eq!(status.is_ok(), CbmErrorNumberOk::Number73);
    assert_eq!(status.to_string(), "73,DOS MISMATCH,00,00");
    assert_eq!(status.message, "DOS MISMATCH");
    assert_eq!(status.device, 8);
}

#[test]
fn test_files_scratched() {
    let status = CbmStatus::try_from(("01,FILES SCRATCHED,03,00", 8)).unwrap();
    assert_eq!(status.files_scratched(), Some(3));
    assert_eq!(status.message, "FILES SCRATCHED");
    assert_eq!(status.is_ok(), CbmErrorNumberOk::Okay);
    assert_eq!(status.track, 3);
    assert_eq!(status.sector, 0);
    assert_eq!(status.device, 8);
}

#[test]
fn test_read_error_display() {
    let status = CbmStatus::try_from(("21,READ ERROR,18,04", 8)).unwrap();
    assert_eq!(status.files_scratched(), None);
    assert_eq!(status.to_string(), "21,READ ERROR,18,04");
    assert_eq!(status.is_ok(), CbmErrorNumberOk::Error);
    assert_eq!(status.track, 18);
    assert_eq!(status.sector, 4);
    assert_eq!(status.device, 8);
}

#[test]
fn test_error_display() {
    let error = Rs1541Error::Validation {
        message: "Test error".to_string(),
    };
    assert_eq!(error.to_string(), "Validation error: Test error");

    let status = CbmStatus {
        number: 21,
        error_number: CbmErrorNumber::ReadErrorNoSyncCharacter,
        message: "READ ERROR".to_string(),
        track: 18,
        sector: 0,
        device: 8,
    };
    let error = Rs1541Error::Status { status };
    assert_eq!(
        error.to_string(),
        "Device 8: Status error: 21,READ ERROR,18,00"
    );
}
