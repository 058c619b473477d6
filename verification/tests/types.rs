use rs1541::cbmtype::{
    CbmDeviceInfo, CbmDeviceType, CbmErrorNumber, CbmErrorNumberOk, CbmStatus, DosVersion,
};
use rs1541::channel::DeviceChannel;
use rs1541::error::{DeviceError, ErrnoClass, Rs1541Error, TransportError, TransportErrorKind};

fn parse_error(message: &str) -> Result<CbmStatus, Rs1541Error> {
    Err(Rs1541Error::Parse { message: message.to_string() })
}

#[test]
fn status_with_too_few_or_too_many_fields_is_refused() {
    assert_eq!(
        CbmStatus::new("00,OK,00", 8),
        parse_error("Device 8 supplied status format: 00,OK,00")
    );
    assert_eq!(
        CbmStatus::new("00,OK,00,00,00", 9),
        parse_error("Device 9 supplied status format: 00,OK,00,00,00")
    );
    assert_eq!(
        CbmStatus::new("", 10),
        parse_error("Device 10 provided zero length status string")
    );
    assert_eq!(
        CbmStatus::new("\r00,OK,00,00", 10),
        parse_error("Device 10 provided zero length status string")
    );
}

#[test]
fn status_with_a_field_that_is_no_number_is_refused() {
    assert_eq!(
        CbmStatus::new("xx,OK,00,00", 8),
        parse_error("Device 8: Invalid error number: xx within status: xx,OK,00,00")
    );
    assert_eq!(
        CbmStatus::new("00,OK,1a,00", 8),
        parse_error("Device 8: Invalid track: 1a within status: 00,OK,1a,00")
    );
    assert_eq!(
        CbmStatus::new("00,OK,00,", 8),
        parse_error("Device 8: Invalid sector:  within status: 00,OK,00,")
    );
    assert_eq!(
        CbmStatus::new("256,OK,00,00", 8),
        parse_error("Device 8: Invalid error number: 256 within status: 256,OK,00,00")
    );
    assert_eq!(
        CbmStatus::new("-1,OK,00,00", 8),
        parse_error("Device 8: Invalid error number: -1 within status: -1,OK,00,00")
    );
}

#[test]
fn status_is_read_up_to_the_carriage_return_and_trimmed() {
    let status = CbmStatus::new(" 74 , DRIVE NOT READY ,+1, 255 \rrest,of,the,line", 11).unwrap();
    assert_eq!(status.number, 74);
    assert_eq!(status.error_number, CbmErrorNumber::DriveNotReady);
    assert_eq!(status.message, "DRIVE NOT READY");
    assert_eq!(status.track, 1);
    assert_eq!(status.sector, 255);
    assert_eq!(status.device, 11);
    assert_eq!(status.as_str(), "74,DRIVE NOT READY,01,255");
    assert_eq!(status.as_short_str(), "74,DRIVE NOT READY");
    assert_eq!(status.clone(), status);
}

#[test]
fn unknown_error_number_is_accepted() {
    let status = CbmStatus::new("99,WHATEVER,00,00", 8).unwrap();
    assert_eq!(status.number, 99);
    assert_eq!(status.error_number, CbmErrorNumber::Unknown);
    assert!(!status.is_valid_cbm());
    assert_eq!(status.is_ok(), CbmErrorNumberOk::Error);
    let status = CbmStatus::new("02,SOMETHING,00,00", 8).unwrap();
    assert_eq!(status.error_number, CbmErrorNumber::Unknown);
    assert_eq!(status.is_ok(), CbmErrorNumberOk::Okay);
    assert!(CbmStatus::new("00, OK,00,00", 8).unwrap().is_valid_cbm());
}

#[test]
fn track_and_sector_count_for_the_numbers_20_to_29() {
    let status = CbmStatus::new("20,READ ERROR,18,04", 8).unwrap();
    assert_eq!(status.track(), Some(18));
    assert_eq!(status.sector(), Some(4));
    let status = CbmStatus::new("29,DISK ID MISMATCH,01,02", 8).unwrap();
    assert_eq!(status.track(), Some(1));
    assert_eq!(status.sector(), Some(2));
    let status = CbmStatus::new("30,SYNTAX ERROR,01,02", 8).unwrap();
    assert_eq!(status.track(), None);
    assert_eq!(status.sector(), None);
    let status = CbmStatus::new("19,X,01,02", 8).unwrap();
    assert_eq!(status.track(), None);
    assert_eq!(status.sector(), None);
}

#[test]
fn status_as_a_result() {
    let ok = CbmStatus::new("00,OK,00,00", 8).unwrap();
    assert_eq!(ok.clone().into_result(), Ok(()));
    let as_result: Result<(), Rs1541Error> = ok.clone().into();
    assert_eq!(as_result, Ok(()));
    assert_eq!(ok.clone().into_73_ok(), Err(Rs1541Error::Status { status: ok.clone() }));

    let greeting = CbmStatus::new("73,CBM DOS V2.6 1541,00,00", 8).unwrap();
    assert_eq!(greeting.clone().into_73_ok(), Ok(()));
    assert_eq!(
        greeting.clone().into_result(),
        Err(Rs1541Error::Status { status: greeting.clone() })
    );
    assert_eq!(Rs1541Error::from(greeting.clone()), Rs1541Error::Status { status: greeting });

    let failed = CbmStatus::new("62,FILE NOT FOUND,00,00", 8).unwrap();
    assert!(failed.clone().into_result().is_err());
    assert!(failed.into_73_ok().is_err());
}

#[test]
fn default_status() {
    let status = CbmStatus::default();
    assert_eq!(status.number, 255);
    assert_eq!(status.error_number, CbmErrorNumber::Unknown);
    assert_eq!(status.message, "none");
    assert_eq!((status.track, status.sector, status.device), (0, 0, 0));
    assert_eq!(CbmErrorNumber::default(), CbmErrorNumber::Unknown);
}

#[test]
fn error_numbers() {
    assert_eq!(CbmErrorNumber::from(0), CbmErrorNumber::Okay);
    assert_eq!(CbmErrorNumber::from(1), CbmErrorNumber::FilesScratched);
    assert_eq!(CbmErrorNumber::from(2), CbmErrorNumber::Unknown);
    assert_eq!(CbmErrorNumber::from(39), CbmErrorNumber::SyntaxErrorInvalidCommandChannel15);
    assert_eq!(CbmErrorNumber::from(67), CbmErrorNumber::IllegalSystemTOrS);
    assert_eq!(CbmErrorNumber::from(74), CbmErrorNumber::DriveNotReady);
    assert_eq!(CbmErrorNumber::from(75), CbmErrorNumber::Unknown);
    assert_eq!(CbmErrorNumber::from(255), CbmErrorNumber::Unknown);
    assert_eq!(CbmErrorNumber::Okay.to_string(), "OK");
    assert_eq!(CbmErrorNumber::SyntaxErrorNoFileGiven.to_string(), "SYNTAX ERROR (no file given))");
    assert_eq!(CbmErrorNumber::Unknown.as_str(), "unknown");
    assert_eq!(DosVersion::Dos1.to_string(), "DOS1");
    assert_eq!(DosVersion::Dos3.to_string(), "DOS3");
}

#[test]
fn signatures_name_the_device() {
    let info = CbmDeviceInfo::from_magic(0xaaaa, None);
    assert_eq!(info.device_type, CbmDeviceType::Cbm1541);
    assert_eq!(info.description, "1541");
    let info = CbmDeviceInfo::from_magic(0xaaaa, Some(0x3156));
    assert_eq!(info.device_type, CbmDeviceType::Cbm1540);
    let info = CbmDeviceInfo::from_magic(0xaaaa, Some(0xfeb6));
    assert_eq!(info.device_type, CbmDeviceType::Cbm2031);
    let info = CbmDeviceInfo::from_magic(0xaaaa, Some(0x1234));
    assert_eq!(info.device_type, CbmDeviceType::Cbm1541);

    let info = CbmDeviceInfo::from_magic(0x01ba, Some(0x4446));
    assert_eq!(info.device_type, CbmDeviceType::FdX000);
    assert_eq!(info.description, "FD2000/FD4000");
    let info = CbmDeviceInfo::from_magic(0x01ba, Some(0x4447));
    assert_eq!(info.device_type, CbmDeviceType::Cbm1581);
    let info = CbmDeviceInfo::from_magic(0x01ba, None);
    assert_eq!(info.device_type, CbmDeviceType::Cbm1581);
    assert_eq!(info.description, "1581");

    for (magic, kind, text) in [
        (0xfeb6u16, CbmDeviceType::Cbm2031, "2031"),
        (0xf00f, CbmDeviceType::Cbm1541, "1541-II"),
        (0x8085, CbmDeviceType::Cbm1541, "JiffyDOS 1541"),
        (0xfed7, CbmDeviceType::Cbm1570, "1570"),
        (0x02ac, CbmDeviceType::Cbm1571, "1571"),
        (0x32f0, CbmDeviceType::Cbm3040, "3040"),
        (0xc320, CbmDeviceType::Cbm4040, "4040"),
        (0x20f8, CbmDeviceType::Cbm4040, "4040"),
        (0xf2e9, CbmDeviceType::Cbm8050, "8050 dos2.5"),
        (0xc866, CbmDeviceType::Cbm8250, "8250 dos2.7"),
        (0xc611, CbmDeviceType::Cbm8250, "8250 dos2.7"),
    ] {
        let info = CbmDeviceInfo::from_magic(magic, Some(7));
        assert_eq!(info.device_type, kind);
        assert_eq!(info.description, text);
    }
}

#[test]
fn unknown_signature_is_described_in_hexadecimal() {
    let info = CbmDeviceInfo::from_magic(0x00ab, None);
    assert_eq!(info.device_type, CbmDeviceType::Unknown);
    assert_eq!(info.description, "Unknown device: 00ab");
    let info = CbmDeviceInfo::from_magic(0xbeef, Some(0x0f0e));
    assert_eq!(info.description, "Unknown device: beef 0f0e");
    assert_eq!(info.to_string(), "Unknown: Unknown device: beef 0f0e");
    assert_eq!(info.clone().description, info.description);
    let info = CbmDeviceInfo::default();
    assert_eq!(info.device_type, CbmDeviceType::Unknown);
    assert_eq!(info.description, "unknown");
}

#[test]
fn device_types() {
    assert_eq!(CbmDeviceType::default(), CbmDeviceType::Unknown);
    assert_eq!(CbmDeviceType::Cbm1541.as_str(), "1541");
    assert_eq!(CbmDeviceType::Cbm1541.to_string(), "CBM 1541");
    assert_eq!(CbmDeviceType::Cbm1541.to_fs_name(), "CBM_1541");
    assert_eq!(CbmDeviceType::Sfd1001.to_fs_name(), "CBM_SFD-1001");
    assert_eq!(CbmDeviceType::FdX000.to_fs_name(), "FDX000");
    assert_eq!(CbmDeviceType::Unknown.to_fs_name(), "Unknown");
    assert_eq!(CbmDeviceType::Unknown.as_str(), "Unknown Device");
    assert_eq!(CbmDeviceType::Unknown.num_disk_drives(), 0);
    assert_eq!(CbmDeviceType::Cbm1571.num_disk_drives(), 1);
    assert_eq!(CbmDeviceType::Cbm4040.num_disk_drives(), 2);
    assert_eq!(CbmDeviceType::Cbm8250.num_disk_drives(), 2);
    assert_eq!(CbmDeviceType::Cbm2040.dos_version(), DosVersion::Dos1);
    assert_eq!(CbmDeviceType::Cbm1541.dos_version(), DosVersion::Dos2);
    assert_eq!(CbmDeviceType::Cbm1581.dos_version(), DosVersion::Dos3);
    assert_eq!(CbmDeviceType::Unknown.dos_version(), DosVersion::Dos1);
    assert_eq!(CbmDeviceType::from(0), CbmDeviceType::Cbm1541);
    assert_eq!(CbmDeviceType::from(1), CbmDeviceType::Cbm1541);
    assert_eq!(CbmDeviceType::from(13), CbmDeviceType::FdX000);
    assert_eq!(CbmDeviceType::from(14), CbmDeviceType::Unknown);
    assert_eq!(CbmDeviceType::from(-1), CbmDeviceType::Unknown);
    assert_eq!(i32::from(CbmDeviceType::Unknown), -1);
    assert_eq!(i32::from(CbmDeviceType::Cbm1540), 0);
    assert_eq!(i32::from(CbmDeviceType::FdX000), 13);
}

#[test]
fn error_texts() {
    let dc = DeviceChannel::new(9, 2).unwrap();
    assert_eq!(
        DeviceError::invalid_drive_num(8, 2).to_string(),
        "Device 8 error: Invalid drive number: 2"
    );
    assert_eq!(
        DeviceError::read_error(dc, "short".to_string()).to_string(),
        "Device 9 error: Read error: Channel: 2, Error: short"
    );
    assert_eq!(
        DeviceError::write_error(dc, "short".to_string()).to_string(),
        "Device 9 error: Write error: Channel: 2, Error: short"
    );
    assert_eq!(
        DeviceError::get_status_failure(12, "why".to_string()).to_string(),
        "Device 12 error: Failed to get status: why"
    );
    assert_eq!(
        DeviceError::no_device(30).to_string(),
        "Device 30 error: Device does not exist (or at least isn't talking on channel 15)"
    );
    assert_eq!(
        Rs1541Error::File { device: 8, message: "gone".to_string() }.to_string(),
        "Device 8: File error: gone"
    );
    assert_eq!(
        Rs1541Error::Parse { message: "bad".to_string() }.to_string(),
        "Parse error: bad"
    );
    assert_eq!(
        Rs1541Error::Timeout { dur: std::time::Duration::from_millis(1500) }.to_string(),
        "Timeout error, duration: 1.5s"
    );
    let transport = TransportError {
        kind: TransportErrorKind::Timeout,
        message: "XUM1541 operation timed out after 5s".to_string(),
        errno: 110,
    };
    assert_eq!(
        Rs1541Error::Xum1541(transport.clone()).to_string(),
        "XUM1541 operation timed out after 5s"
    );
    assert_eq!(transport.clone(), transport);
    assert_eq!(DeviceError::NoDevice.clone(), DeviceError::NoDevice);
    assert_eq!(DeviceError::NoDevice.to_string(), "Device does not exist (or at least isn't talking on channel 15)");
}

#[test]
fn errno_classes() {
    let error = Rs1541Error::Validation { message: "Test error".to_string() };
    assert_eq!(error.errno_class(), ErrnoClass::InvalidArgument);
    assert_eq!(
        Rs1541Error::Parse { message: String::new() }.errno_class(),
        ErrnoClass::InvalidArgument
    );
    assert_eq!(
        Rs1541Error::File { device: 8, message: String::new() }.errno_class(),
        ErrnoClass::InputOutput
    );
    assert_eq!(
        Rs1541Error::Status { status: CbmStatus::default() }.errno_class(),
        ErrnoClass::InputOutput
    );
    assert_eq!(
        Rs1541Error::Timeout { dur: std::time::Duration::from_secs(1) }.errno_class(),
        ErrnoClass::TimedOut
    );
    assert_eq!(DeviceError::no_device(8).errno_class(), ErrnoClass::NoDevice);
    assert_eq!(DeviceError::invalid_drive_num(8, 3).errno_class(), ErrnoClass::InvalidArgument);
    assert_eq!(DeviceError::NoDevice.errno_class(), ErrnoClass::NoDevice);
    assert_eq!(
        DeviceError::GetStatusFailure { message: String::new() }.errno_class(),
        ErrnoClass::InputOutput
    );
    let transport = TransportError {
        kind: TransportErrorKind::Usb,
        message: String::new(),
        errno: 5,
    };
    assert_eq!(Rs1541Error::Xum1541(transport).errno_class(), ErrnoClass::Transport(5));
}
