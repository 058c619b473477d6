//! The status that a drive reports, and the models of drive that there are.

use crate::error::{error_view, Rs1541Error, Rs1541ErrorView};
use crate::text::{
    chars_of, decimal, find_char, hex4, index_of, pad_left, parse_unsigned, parse_unsigned_chars,
    push_chars, push_decimal, push_decimal_padded, push_hex4, slice_of, split, split_chars,
    string_of, trim, trim_chars, trim_end_matches, trim_end_matches_chars, views,
};
use vstd::string::StringExecFns;
use vstd::prelude::*;
use vstd::std_specs::convert::{FromSpecImpl, TryFromSpecImpl};

verus! {

/// The error numbers of the drive's status line.
#[derive(Debug, Clone, Copy, PartialEq, Eq, Structural)]
pub enum CbmErrorNumber {
    Okay,
    FilesScratched,
    ReadErrorBlockHeaderNotFound,
    ReadErrorNoSyncCharacter,
    ReadErrorDataBlockNotPresent,
    ReadErrorChecksumErrorInDataBlock,
    ReadErrorByteDecodingError,
    WriteErrorWriteVerifyError,
    WriteProtectOn,
    ReadErrorChecksumErrorInHeader,
    WriteErrorLongDataBlock,
    DiskIdMismatch,
    SyntaxErrorGeneralSyntax,
    SyntaxErrorInvalidCommand,
    SyntaxErrorLongLine,
    SyntaxErrorInvalidFileName,
    SyntaxErrorNoFileGiven,
    SyntaxErrorInvalidCommandChannel15,
    RecordNotPresent,
    OverflowInRecord,
    FileTooLarge,
    WriteFileOpen,
    FileNotOpen,
    FileNotFound,
    FileExists,
    FileTypeMismatch,
    NoBlock,
    IllegalTrackAndSector,
    IllegalSystemTOrS,
    NoChannel,
    DirectoryError,
    DiskFull,
    DosMismatch,
    DriveNotReady,
    Unknown,
}

impl CbmErrorNumber {
    /// The error number that stands for the number `value` of a status line.
    /// A number that the drive's manual does not list gives `Unknown`.
    pub open spec fn of_number(value: u8) -> CbmErrorNumber {
        match value {
            0u8 => CbmErrorNumber::Okay,
            1u8 => CbmErrorNumber::FilesScratched,
            20u8 => CbmErrorNumber::ReadErrorBlockHeaderNotFound,
            21u8 => CbmErrorNumber::ReadErrorNoSyncCharacter,
            22u8 => CbmErrorNumber::ReadErrorDataBlockNotPresent,
            23u8 => CbmErrorNumber::ReadErrorChecksumErrorInDataBlock,
            24u8 => CbmErrorNumber::ReadErrorByteDecodingError,
            25u8 => CbmErrorNumber::WriteErrorWriteVerifyError,
            26u8 => CbmErrorNumber::WriteProtectOn,
            27u8 => CbmErrorNumber::ReadErrorChecksumErrorInHeader,
            28u8 => CbmErrorNumber::WriteErrorLongDataBlock,
            29u8 => CbmErrorNumber::DiskIdMismatch,
            30u8 => CbmErrorNumber::SyntaxErrorGeneralSyntax,
            31u8 => CbmErrorNumber::SyntaxErrorInvalidCommand,
            32u8 => CbmErrorNumber::SyntaxErrorLongLine,
            33u8 => CbmErrorNumber::SyntaxErrorInvalidFileName,
            34u8 => CbmErrorNumber::SyntaxErrorNoFileGiven,
            39u8 => CbmErrorNumber::SyntaxErrorInvalidCommandChannel15,
            50u8 => CbmErrorNumber::RecordNotPresent,
            51u8 => CbmErrorNumber::OverflowInRecord,
            52u8 => CbmErrorNumber::FileTooLarge,
            60u8 => CbmErrorNumber::WriteFileOpen,
            61u8 => CbmErrorNumber::FileNotOpen,
            62u8 => CbmErrorNumber::FileNotFound,
            63u8 => CbmErrorNumber::FileExists,
            64u8 => CbmErrorNumber::FileTypeMismatch,
            65u8 => CbmErrorNumber::NoBlock,
            66u8 => CbmErrorNumber::IllegalTrackAndSector,
            67u8 => CbmErrorNumber::IllegalSystemTOrS,
            70u8 => CbmErrorNumber::NoChannel,
            71u8 => CbmErrorNumber::DirectoryError,
            72u8 => CbmErrorNumber::DiskFull,
            73u8 => CbmErrorNumber::DosMismatch,
            74u8 => CbmErrorNumber::DriveNotReady,
            _ => CbmErrorNumber::Unknown,
        }
    }

    /// The drive's words for the error number.
    pub open spec fn text(self) -> Seq<char> {
        match self {
            CbmErrorNumber::Okay => "OK"@,
            CbmErrorNumber::FilesScratched => "FILES SCRATCHED"@,
            CbmErrorNumber::ReadErrorBlockHeaderNotFound => "READ ERROR (block header not found)"@,
            CbmErrorNumber::ReadErrorNoSyncCharacter => "READ ERROR (no sync character)"@,
            CbmErrorNumber::ReadErrorDataBlockNotPresent => "READ ERROR (data block not present)"@,
            CbmErrorNumber::ReadErrorChecksumErrorInDataBlock => "READ ERROR (checksum error in data block)"@,
            CbmErrorNumber::ReadErrorByteDecodingError => "READ ERROR (byte decoding error)"@,
            CbmErrorNumber::WriteErrorWriteVerifyError => "WRITE ERROR (write verify error)"@,
            CbmErrorNumber::WriteProtectOn => "WRITE PROTECT ON"@,
            CbmErrorNumber::ReadErrorChecksumErrorInHeader => "READ ERROR (checksum error in header)"@,
            CbmErrorNumber::WriteErrorLongDataBlock => "WRITE ERROR (long data block)"@,
            CbmErrorNumber::DiskIdMismatch => "DISK ID MISMATCH"@,
            CbmErrorNumber::SyntaxErrorGeneralSyntax => "SYNTAX ERROR (general syntax)"@,
            CbmErrorNumber::SyntaxErrorInvalidCommand => "SYNTAX ERROR (invalid command)"@,
            CbmErrorNumber::SyntaxErrorLongLine => "SYNTAX ERROR (long line)"@,
            CbmErrorNumber::SyntaxErrorInvalidFileName => "SYNTAX ERROR (invalid file name)"@,
            CbmErrorNumber::SyntaxErrorNoFileGiven => "SYNTAX ERROR (no file given))"@,
            CbmErrorNumber::SyntaxErrorInvalidCommandChannel15 => "SYNTAX ERROR (invalid command on channel 15)"@,
            CbmErrorNumber::RecordNotPresent => "RECORD NOT PRESENT"@,
            CbmErrorNumber::OverflowInRecord => "OVERFLOW IN RECORD"@,
            CbmErrorNumber::FileTooLarge => "FILE TOO LARGE"@,
            CbmErrorNumber::WriteFileOpen => "WRITE FILE OPEN"@,
            CbmErrorNumber::FileNotOpen => "FILE NOT OPEN"@,
            CbmErrorNumber::FileNotFound => "FILE NOT FOUND"@,
            CbmErrorNumber::FileExists => "FILE EXISTS"@,
            CbmErrorNumber::FileTypeMismatch => "FILE TYPE MISMATCH"@,
            CbmErrorNumber::NoBlock => "NO BLOCK"@,
            CbmErrorNumber::IllegalTrackAndSector => "ILLEGAL TRACK AND SECTOR"@,
            CbmErrorNumber::IllegalSystemTOrS => "ILLEGAL SYSTEM T OR S"@,
            CbmErrorNumber::NoChannel => "NO CHANNEL"@,
            CbmErrorNumber::DirectoryError => "DIRECTORY ERROR"@,
            CbmErrorNumber::DiskFull => "DISK FULL"@,
            CbmErrorNumber::DosMismatch => "DOS MISMATCH"@,
            CbmErrorNumber::DriveNotReady => "DRIVE NOT READY"@,
            CbmErrorNumber::Unknown => "unknown"@,
        }
    }

    /// The drive's words for the error number.
    pub fn as_str(&self) -> (words: &'static str)
        ensures
            words@ == self.text(),
    {
        match self {
            CbmErrorNumber::Okay => "OK",
            CbmErrorNumber::FilesScratched => "FILES SCRATCHED",
            CbmErrorNumber::ReadErrorBlockHeaderNotFound => "READ ERROR (block header not found)",
            CbmErrorNumber::ReadErrorNoSyncCharacter => "READ ERROR (no sync character)",
            CbmErrorNumber::ReadErrorDataBlockNotPresent => "READ ERROR (data block not present)",
            CbmErrorNumber::ReadErrorChecksumErrorInDataBlock => "READ ERROR (checksum error in data block)",
            CbmErrorNumber::ReadErrorByteDecodingError => "READ ERROR (byte decoding error)",
            CbmErrorNumber::WriteErrorWriteVerifyError => "WRITE ERROR (write verify error)",
            CbmErrorNumber::WriteProtectOn => "WRITE PROTECT ON",
            CbmErrorNumber::ReadErrorChecksumErrorInHeader => "READ ERROR (checksum error in header)",
            CbmErrorNumber::WriteErrorLongDataBlock => "WRITE ERROR (long data block)",
            CbmErrorNumber::DiskIdMismatch => "DISK ID MISMATCH",
            CbmErrorNumber::SyntaxErrorGeneralSyntax => "SYNTAX ERROR (general syntax)",
            CbmErrorNumber::SyntaxErrorInvalidCommand => "SYNTAX ERROR (invalid command)",
            CbmErrorNumber::SyntaxErrorLongLine => "SYNTAX ERROR (long line)",
            CbmErrorNumber::SyntaxErrorInvalidFileName => "SYNTAX ERROR (invalid file name)",
            CbmErrorNumber::SyntaxErrorNoFileGiven => "SYNTAX ERROR (no file given))",
            CbmErrorNumber::SyntaxErrorInvalidCommandChannel15 => "SYNTAX ERROR (invalid command on channel 15)",
            CbmErrorNumber::RecordNotPresent => "RECORD NOT PRESENT",
            CbmErrorNumber::OverflowInRecord => "OVERFLOW IN RECORD",
            CbmErrorNumber::FileTooLarge => "FILE TOO LARGE",
            CbmErrorNumber::WriteFileOpen => "WRITE FILE OPEN",
            CbmErrorNumber::FileNotOpen => "FILE NOT OPEN",
            CbmErrorNumber::FileNotFound => "FILE NOT FOUND",
            CbmErrorNumber::FileExists => "FILE EXISTS",
            CbmErrorNumber::FileTypeMismatch => "FILE TYPE MISMATCH",
            CbmErrorNumber::NoBlock => "NO BLOCK",
            CbmErrorNumber::IllegalTrackAndSector => "ILLEGAL TRACK AND SECTOR",
            CbmErrorNumber::IllegalSystemTOrS => "ILLEGAL SYSTEM T OR S",
            CbmErrorNumber::NoChannel => "NO CHANNEL",
            CbmErrorNumber::DirectoryError => "DIRECTORY ERROR",
            CbmErrorNumber::DiskFull => "DISK FULL",
            CbmErrorNumber::DosMismatch => "DOS MISMATCH",
            CbmErrorNumber::DriveNotReady => "DRIVE NOT READY",
            CbmErrorNumber::Unknown => "unknown",
        }
    }

    /// The drive's words for the error number, as an owned string.
    pub fn to_string(&self) -> (words: String)
        ensures
            words@ == self.text(),
    {
        self.as_str().to_owned()
    }
}

impl Default for CbmErrorNumber {
    fn default() -> (number: Self)
        ensures
            number == CbmErrorNumber::Unknown,
    {
        CbmErrorNumber::Unknown
    }
}

impl From<u8> for CbmErrorNumber {
    fn from(value: u8) -> (number: Self) {
        match value {
            0 => CbmErrorNumber::Okay,
            1 => CbmErrorNumber::FilesScratched,
            20 => CbmErrorNumber::ReadErrorBlockHeaderNotFound,
            21 => CbmErrorNumber::ReadErrorNoSyncCharacter,
            22 => CbmErrorNumber::ReadErrorDataBlockNotPresent,
            23 => CbmErrorNumber::ReadErrorChecksumErrorInDataBlock,
            24 => CbmErrorNumber::ReadErrorByteDecodingError,
            25 => CbmErrorNumber::WriteErrorWriteVerifyError,
            26 => CbmErrorNumber::WriteProtectOn,
            27 => CbmErrorNumber::ReadErrorChecksumErrorInHeader,
            28 => CbmErrorNumber::WriteErrorLongDataBlock,
            29 => CbmErrorNumber::DiskIdMismatch,
            30 => CbmErrorNumber::SyntaxErrorGeneralSyntax,
            31 => CbmErrorNumber::SyntaxErrorInvalidCommand,
            32 => CbmErrorNumber::SyntaxErrorLongLine,
            33 => CbmErrorNumber::SyntaxErrorInvalidFileName,
            34 => CbmErrorNumber::SyntaxErrorNoFileGiven,
            39 => CbmErrorNumber::SyntaxErrorInvalidCommandChannel15,
            50 => CbmErrorNumber::RecordNotPresent,
            51 => CbmErrorNumber::OverflowInRecord,
            52 => CbmErrorNumber::FileTooLarge,
            60 => CbmErrorNumber::WriteFileOpen,
            61 => CbmErrorNumber::FileNotOpen,
            62 => CbmErrorNumber::FileNotFound,
            63 => CbmErrorNumber::FileExists,
            64 => CbmErrorNumber::FileTypeMismatch,
            65 => CbmErrorNumber::NoBlock,
            66 => CbmErrorNumber::IllegalTrackAndSector,
            67 => CbmErrorNumber::IllegalSystemTOrS,
            70 => CbmErrorNumber::NoChannel,
            71 => CbmErrorNumber::DirectoryError,
            72 => CbmErrorNumber::DiskFull,
            73 => CbmErrorNumber::DosMismatch,
            74 => CbmErrorNumber::DriveNotReady,
            _ => CbmErrorNumber::Unknown,
        }
    }
}

impl FromSpecImpl<u8> for CbmErrorNumber {
    open spec fn obeys_from_spec() -> bool {
        true
    }

    open spec fn from_spec(value: u8) -> Self {
        CbmErrorNumber::of_number(value)
    }
}

/// How a status counts: as success, as failure, or as the drive's greeting,
/// which has number 73 and is no failure.
#[derive(Debug, Clone, Copy, PartialEq, Eq, Structural)]
pub enum CbmErrorNumberOk {
    Okay,
    Error,
    Number73,
}

/// The versions of the drive's operating system.
#[derive(Debug, Clone, Copy, PartialEq, Eq, Structural)]
pub enum DosVersion {
    Dos1,
    Dos2,
    Dos3,
}

impl DosVersion {
    /// The name of the version.
    pub open spec fn text(self) -> Seq<char> {
        match self {
            DosVersion::Dos1 => "DOS1"@,
            DosVersion::Dos2 => "DOS2"@,
            DosVersion::Dos3 => "DOS3"@,
        }
    }

    /// The name of the version.
    pub fn to_string(&self) -> (name: String)
        ensures
            name@ == self.text(),
    {
        match self {
            DosVersion::Dos1 => "DOS1".to_owned(),
            DosVersion::Dos2 => "DOS2".to_owned(),
            DosVersion::Dos3 => "DOS3".to_owned(),
        }
    }
}

/// The kinds of operation on a drive.
#[derive(Debug, Clone, Copy, PartialEq, Eq, Structural)]
pub enum CbmOperationType {
    Read,
    Write,
    Directory,
    Control,
}

/// A record of operations of one kind.
#[derive(Debug)]
pub struct CbmOperation {
    op_type: CbmOperationType,
    count: usize,
    has_write: bool,
}

/// The models of drive that the library knows.
#[derive(Debug, Clone, Copy, PartialEq, Eq, Structural)]
pub enum CbmDeviceType {
    Unknown,
    Cbm1540,
    Cbm1541,
    Cbm1570,
    Cbm1571,
    Cbm1581,
    Cbm2040,
    Cbm2031,
    Cbm3040,
    Cbm4040,
    Cbm4031,
    Cbm8050,
    Cbm8250,
    Sfd1001,
    FdX000,
}

impl CbmDeviceType {
    /// The name of the model for display.
    pub open spec fn display_text(self) -> Seq<char> {
        match self {
            CbmDeviceType::Unknown => "Unknown"@,
            CbmDeviceType::Cbm1540 => "CBM 1540"@,
            CbmDeviceType::Cbm1541 => "CBM 1541"@,
            CbmDeviceType::Cbm1570 => "CBM 1570"@,
            CbmDeviceType::Cbm1571 => "CBM 1571"@,
            CbmDeviceType::Cbm1581 => "CBM 1581"@,
            CbmDeviceType::Cbm2040 => "CBM 2040"@,
            CbmDeviceType::Cbm2031 => "CBM 2031"@,
            CbmDeviceType::Cbm3040 => "CBM 3040"@,
            CbmDeviceType::Cbm4040 => "CBM 4040"@,
            CbmDeviceType::Cbm4031 => "CBM 4031"@,
            CbmDeviceType::Cbm8050 => "CBM 8050"@,
            CbmDeviceType::Cbm8250 => "CBM 8250"@,
            CbmDeviceType::Sfd1001 => "SFD 1001"@,
            CbmDeviceType::FdX000 => "FD X000"@,
        }
    }

    /// The short name of the model.
    pub open spec fn short_text(self) -> Seq<char> {
        match self {
            CbmDeviceType::Unknown => "Unknown Device"@,
            CbmDeviceType::Cbm1540 => "1540"@,
            CbmDeviceType::Cbm1541 => "1541"@,
            CbmDeviceType::Cbm1570 => "1570"@,
            CbmDeviceType::Cbm1571 => "1571"@,
            CbmDeviceType::Cbm1581 => "1581"@,
            CbmDeviceType::Cbm2040 => "2040"@,
            CbmDeviceType::Cbm2031 => "2031"@,
            CbmDeviceType::Cbm3040 => "3040"@,
            CbmDeviceType::Cbm4040 => "4040"@,
            CbmDeviceType::Cbm4031 => "4031"@,
            CbmDeviceType::Cbm8050 => "8050"@,
            CbmDeviceType::Cbm8250 => "8250"@,
            CbmDeviceType::Sfd1001 => "SFD-1001"@,
            CbmDeviceType::FdX000 => "FDX000"@,
        }
    }

    /// The name of the model for use in a file system: the short name behind
    /// `CBM_`, but for the FD series, which stands alone, and for an unknown
    /// model.
    pub open spec fn fs_text(self) -> Seq<char> {
        match self {
            CbmDeviceType::Unknown => "Unknown"@,
            CbmDeviceType::FdX000 => self.short_text(),
            _ => "CBM_"@ + self.short_text(),
        }
    }

    /// The number of drives in a unit of the model: two for the dual units,
    /// none for an unknown model, one for the rest.
    pub open spec fn drives(self) -> u8 {
        match self {
            CbmDeviceType::Unknown => 0,
            CbmDeviceType::Cbm2040 | CbmDeviceType::Cbm3040 | CbmDeviceType::Cbm4040
            | CbmDeviceType::Cbm8050 | CbmDeviceType::Cbm8250 => 2,
            _ => 1,
        }
    }

    /// The version of the operating system of the model.
    pub open spec fn dos(self) -> DosVersion {
        match self {
            CbmDeviceType::Unknown | CbmDeviceType::Cbm2040 | CbmDeviceType::Cbm3040 =>
                DosVersion::Dos1,
            CbmDeviceType::Cbm1571 | CbmDeviceType::Cbm1581 | CbmDeviceType::FdX000 =>
                DosVersion::Dos3,
            _ => DosVersion::Dos2,
        }
    }

    /// The number that stands for the model where models are stored as numbers.
    pub open spec fn number(self) -> i32 {
        match self {
            CbmDeviceType::Unknown => -1i32,
            CbmDeviceType::Cbm1540 => 0i32,
            CbmDeviceType::Cbm1541 => 1i32,
            CbmDeviceType::Cbm1570 => 2i32,
            CbmDeviceType::Cbm1571 => 3i32,
            CbmDeviceType::Cbm1581 => 4i32,
            CbmDeviceType::Cbm2040 => 5i32,
            CbmDeviceType::Cbm2031 => 6i32,
            CbmDeviceType::Cbm3040 => 7i32,
            CbmDeviceType::Cbm4040 => 8i32,
            CbmDeviceType::Cbm4031 => 9i32,
            CbmDeviceType::Cbm8050 => 10i32,
            CbmDeviceType::Cbm8250 => 11i32,
            CbmDeviceType::Sfd1001 => 12i32,
            CbmDeviceType::FdX000 => 13i32,
        }
    }

    /// The model that a stored number stands for. Both 0 and 1 give the 1541;
    /// a number that stands for no model gives `Unknown`.
    pub open spec fn of_number(value: i32) -> CbmDeviceType {
        if value == 0 {
            CbmDeviceType::Cbm1541
        } else if value == 1 {
            CbmDeviceType::Cbm1541
        } else if value == 2 {
            CbmDeviceType::Cbm1570
        } else if value == 3 {
            CbmDeviceType::Cbm1571
        } else if value == 4 {
            CbmDeviceType::Cbm1581
        } else if value == 5 {
            CbmDeviceType::Cbm2040
        } else if value == 6 {
            CbmDeviceType::Cbm2031
        } else if value == 7 {
            CbmDeviceType::Cbm3040
        } else if value == 8 {
            CbmDeviceType::Cbm4040
        } else if value == 9 {
            CbmDeviceType::Cbm4031
        } else if value == 10 {
            CbmDeviceType::Cbm8050
        } else if value == 11 {
            CbmDeviceType::Cbm8250
        } else if value == 12 {
            CbmDeviceType::Sfd1001
        } else if value == 13 {
            CbmDeviceType::FdX000
        } else {
            CbmDeviceType::Unknown
        }
    }

    /// The name of the model for use in a file system.
    pub fn to_fs_name(&self) -> (name: String)
        ensures
            name@ == self.fs_text(),
    {
        match self {
            CbmDeviceType::Unknown => "Unknown".to_owned(),
            CbmDeviceType::FdX000 => self.as_str().to_owned(),
            _ => {
                let mut name = String::new();
                name.append("CBM_");
                name.append(self.as_str());
                name
            },
        }
    }

    /// The short name of the model.
    pub fn as_str(&self) -> (name: &'static str)
        ensures
            name@ == self.short_text(),
    {
        match self {
            CbmDeviceType::Unknown => "Unknown Device",
            CbmDeviceType::Cbm1540 => "1540",
            CbmDeviceType::Cbm1541 => "1541",
            CbmDeviceType::Cbm1570 => "1570",
            CbmDeviceType::Cbm1571 => "1571",
            CbmDeviceType::Cbm1581 => "1581",
            CbmDeviceType::Cbm2040 => "2040",
            CbmDeviceType::Cbm2031 => "2031",
            CbmDeviceType::Cbm3040 => "3040",
            CbmDeviceType::Cbm4040 => "4040",
            CbmDeviceType::Cbm4031 => "4031",
            CbmDeviceType::Cbm8050 => "8050",
            CbmDeviceType::Cbm8250 => "8250",
            CbmDeviceType::Sfd1001 => "SFD-1001",
            CbmDeviceType::FdX000 => "FDX000",
        }
    }

    /// The name of the model for display.
    pub fn to_string(&self) -> (name: String)
        ensures
            name@ == self.display_text(),
    {
        match self {
            CbmDeviceType::Unknown => "Unknown".to_owned(),
            CbmDeviceType::Cbm1540 => "CBM 1540".to_owned(),
            CbmDeviceType::Cbm1541 => "CBM 1541".to_owned(),
            CbmDeviceType::Cbm1570 => "CBM 1570".to_owned(),
            CbmDeviceType::Cbm1571 => "CBM 1571".to_owned(),
            CbmDeviceType::Cbm1581 => "CBM 1581".to_owned(),
            CbmDeviceType::Cbm2040 => "CBM 2040".to_owned(),
            CbmDeviceType::Cbm2031 => "CBM 2031".to_owned(),
            CbmDeviceType::Cbm3040 => "CBM 3040".to_owned(),
            CbmDeviceType::Cbm4040 => "CBM 4040".to_owned(),
            CbmDeviceType::Cbm4031 => "CBM 4031".to_owned(),
            CbmDeviceType::Cbm8050 => "CBM 8050".to_owned(),
            CbmDeviceType::Cbm8250 => "CBM 8250".to_owned(),
            CbmDeviceType::Sfd1001 => "SFD 1001".to_owned(),
            CbmDeviceType::FdX000 => "FD X000".to_owned(),
        }
    }

    /// The number of drives in a unit of the model.
    pub fn num_disk_drives(&self) -> (count: u8)
        ensures
            count == self.drives(),
            count <= 2,
    {
        match self {
            CbmDeviceType::Unknown => 0,
            CbmDeviceType::Cbm1540 => 1,
            CbmDeviceType::Cbm1541 => 1,
            CbmDeviceType::Cbm1570 => 1,
            CbmDeviceType::Cbm1571 => 1,
            CbmDeviceType::Cbm1581 => 1,
            CbmDeviceType::Cbm2040 => 2,
            CbmDeviceType::Cbm2031 => 1,
            CbmDeviceType::Cbm3040 => 2,
            CbmDeviceType::Cbm4040 => 2,
            CbmDeviceType::Cbm4031 => 1,
            CbmDeviceType::Cbm8050 => 2,
            CbmDeviceType::Cbm8250 => 2,
            CbmDeviceType::Sfd1001 => 1,
            CbmDeviceType::FdX000 => 1,
        }
    }

    /// The version of the operating system of the model.
    pub fn dos_version(&self) -> (version: DosVersion)
        ensures
            version == self.dos(),
    {
        match self {
            CbmDeviceType::Unknown => DosVersion::Dos1,
            CbmDeviceType::Cbm1540 => DosVersion::Dos2,
            CbmDeviceType::Cbm1541 => DosVersion::Dos2,
            CbmDeviceType::Cbm1570 => DosVersion::Dos2,
            CbmDeviceType::Cbm1571 => DosVersion::Dos3,
            CbmDeviceType::Cbm1581 => DosVersion::Dos3,
            CbmDeviceType::Cbm2040 => DosVersion::Dos1,
            CbmDeviceType::Cbm2031 => DosVersion::Dos2,
            CbmDeviceType::Cbm3040 => DosVersion::Dos1,
            CbmDeviceType::Cbm4040 => DosVersion::Dos2,
            CbmDeviceType::Cbm4031 => DosVersion::Dos2,
            CbmDeviceType::Cbm8050 => DosVersion::Dos2,
            CbmDeviceType::Cbm8250 => DosVersion::Dos2,
            CbmDeviceType::Sfd1001 => DosVersion::Dos2,
            CbmDeviceType::FdX000 => DosVersion::Dos3,
        }
    }
}

impl Default for CbmDeviceType {
    fn default() -> (model: Self)
        ensures
            model == CbmDeviceType::Unknown,
    {
        CbmDeviceType::Unknown
    }
}

impl From<i32> for CbmDeviceType {
    fn from(value: i32) -> (model: Self) {
        match value {
            -1 => CbmDeviceType::Unknown,
            0 => CbmDeviceType::Cbm1541,
            1 => CbmDeviceType::Cbm1541,
            2 => CbmDeviceType::Cbm1570,
            3 => CbmDeviceType::Cbm1571,
            4 => CbmDeviceType::Cbm1581,
            5 => CbmDeviceType::Cbm2040,
            6 => CbmDeviceType::Cbm2031,
            7 => CbmDeviceType::Cbm3040,
            8 => CbmDeviceType::Cbm4040,
            9 => CbmDeviceType::Cbm4031,
            10 => CbmDeviceType::Cbm8050,
            11 => CbmDeviceType::Cbm8250,
            12 => CbmDeviceType::Sfd1001,
            13 => CbmDeviceType::FdX000,
            _ => CbmDeviceType::Unknown,
        }
    }
}

impl FromSpecImpl<i32> for CbmDeviceType {
    open spec fn obeys_from_spec() -> bool {
        true
    }

    open spec fn from_spec(value: i32) -> Self {
        CbmDeviceType::of_number(value)
    }
}

impl From<CbmDeviceType> for i32 {
    fn from(value: CbmDeviceType) -> (number: Self) {
        match value {
            CbmDeviceType::Unknown => -1,
            CbmDeviceType::Cbm1540 => 0,
            CbmDeviceType::Cbm1541 => 1,
            CbmDeviceType::Cbm1570 => 2,
            CbmDeviceType::Cbm1571 => 3,
            CbmDeviceType::Cbm1581 => 4,
            CbmDeviceType::Cbm2040 => 5,
            CbmDeviceType::Cbm2031 => 6,
            CbmDeviceType::Cbm3040 => 7,
            CbmDeviceType::Cbm4040 => 8,
            CbmDeviceType::Cbm4031 => 9,
            CbmDeviceType::Cbm8050 => 10,
            CbmDeviceType::Cbm8250 => 11,
            CbmDeviceType::Sfd1001 => 12,
            CbmDeviceType::FdX000 => 13,
        }
    }
}

impl FromSpecImpl<CbmDeviceType> for i32 {
    open spec fn obeys_from_spec() -> bool {
        true
    }

    open spec fn from_spec(value: CbmDeviceType) -> Self {
        value.number()
    }
}

/// A model of drive with a description of the variant that was found.
#[derive(Debug)]
pub struct CbmDeviceInfo {
    pub device_type: CbmDeviceType,
    pub description: String,
}

/// The mathematical value of a [`CbmDeviceInfo`].
pub struct CbmDeviceInfoView {
    pub device_type: CbmDeviceType,
    pub description: Seq<char>,
}

impl View for CbmDeviceInfo {
    type V = CbmDeviceInfoView;

    open spec fn view(&self) -> CbmDeviceInfoView {
        CbmDeviceInfoView { device_type: self.device_type, description: self.description@ }
    }
}

impl Clone for CbmDeviceInfo {
    fn clone(&self) -> (copy: Self)
        ensures
            copy@ == self@,
    {
        CbmDeviceInfo { device_type: self.device_type, description: self.description.clone() }
    }
}

impl Default for CbmDeviceInfo {
    fn default() -> (info: Self)
        ensures
            info@ == (CbmDeviceInfoView {
                device_type: CbmDeviceType::Unknown,
                description: "unknown"@,
            }),
    {
        CbmDeviceInfo { device_type: CbmDeviceType::Unknown, description: "unknown".to_owned() }
    }
}

/// A model with the description of one of its variants.
pub open spec fn known(device_type: CbmDeviceType, description: Seq<char>) -> CbmDeviceInfoView {
    CbmDeviceInfoView { device_type, description }
}

/// The drive that the signature `magic` stands for. `magic2` is a second
/// signature, read where the first alone does not settle the model.
///
/// `0xaaaa` is a 1541 unless the second signature says 1540 or 2031. `0x01ba`
/// is a 1581 unless the second signature says FD series. A signature that is
/// not in the table gives an unknown device, described by the signatures in
/// hexadecimal.
pub open spec fn device_for_magic(magic: u16, magic2: Option<u16>) -> CbmDeviceInfoView {
    if magic == 0xfeb6 {
        known(CbmDeviceType::Cbm2031, "2031"@)
    } else if magic == 0xaaaa {
        if magic2 == Some(0x3156u16) {
            known(CbmDeviceType::Cbm1540, "1540"@)
        } else if magic2 == Some(0xfeb6u16) {
            known(CbmDeviceType::Cbm2031, "2031"@)
        } else {
            known(CbmDeviceType::Cbm1541, "1541"@)
        }
    } else if magic == 0xf00f {
        known(CbmDeviceType::Cbm1541, "1541-II"@)
    } else if magic == 0xcd18 {
        known(CbmDeviceType::Cbm1541, "1541C"@)
    } else if magic == 0x10ca {
        known(CbmDeviceType::Cbm1541, "DolphinDOS 1541"@)
    } else if magic == 0x6f10 {
        known(CbmDeviceType::Cbm1541, "SpeedDOS 1541"@)
    } else if magic == 0x2710 {
        known(CbmDeviceType::Cbm1541, "ProfessionalDOS 1541"@)
    } else if magic == 0x8085 {
        known(CbmDeviceType::Cbm1541, "JiffyDOS 1541"@)
    } else if magic == 0xaeea {
        known(CbmDeviceType::Cbm1541, "64'er DOS 1541"@)
    } else if magic == 0x180d {
        known(CbmDeviceType::Cbm1541, "Turbo Access / Turbo Trans"@)
    } else if magic == 0x094c {
        known(CbmDeviceType::Cbm1541, "Prologic DOS"@)
    } else if magic == 0xfed7 {
        known(CbmDeviceType::Cbm1570, "1570"@)
    } else if magic == 0x02ac {
        known(CbmDeviceType::Cbm1571, "1571"@)
    } else if magic == 0x01ba {
        if magic2 == Some(0x4446u16) {
            known(CbmDeviceType::FdX000, "FD2000/FD4000"@)
        } else {
            known(CbmDeviceType::Cbm1581, "1581"@)
        }
    } else if magic == 0x32f0 {
        known(CbmDeviceType::Cbm3040, "3040"@)
    } else if magic == 0xc320 || magic == 0x20f8 {
        known(CbmDeviceType::Cbm4040, "4040"@)
    } else if magic == 0xf2e9 {
        known(CbmDeviceType::Cbm8050, "8050 dos2.5"@)
    } else if magic == 0xc866 || magic == 0xc611 {
        known(CbmDeviceType::Cbm8250, "8250 dos2.7"@)
    } else {
        match magic2 {
            Some(second) => known(
                CbmDeviceType::Unknown,
                "Unknown device: "@ + hex4(magic) + " "@ + hex4(second),
            ),
            None => known(CbmDeviceType::Unknown, "Unknown device: "@ + hex4(magic)),
        }
    }
}

impl CbmDeviceInfo {
    /// A model with a description.
    fn described(device_type: CbmDeviceType, description: &str) -> (info: Self)
        ensures
            info@ == known(device_type, description@),
    {
        CbmDeviceInfo { device_type, description: description.to_owned() }
    }

    /// The drive that the signature `magic` stands for, with the help of the
    /// second signature `magic2` where there is one.
    pub fn from_magic(magic: u16, magic2: Option<u16>) -> (info: Self)
        ensures
            info@ == device_for_magic(magic, magic2),
    {
        match magic {
            0xfeb6 => Self::described(CbmDeviceType::Cbm2031, "2031"),
            0xaaaa => match magic2 {
                Some(0x3156) => Self::described(CbmDeviceType::Cbm1540, "1540"),
                Some(0xfeb6) => Self::described(CbmDeviceType::Cbm2031, "2031"),
                _ => Self::described(CbmDeviceType::Cbm1541, "1541"),
            },
            0xf00f => Self::described(CbmDeviceType::Cbm1541, "1541-II"),
            0xcd18 => Self::described(CbmDeviceType::Cbm1541, "1541C"),
            0x10ca => Self::described(CbmDeviceType::Cbm1541, "DolphinDOS 1541"),
            0x6f10 => Self::described(CbmDeviceType::Cbm1541, "SpeedDOS 1541"),
            0x2710 => Self::described(CbmDeviceType::Cbm1541, "ProfessionalDOS 1541"),
            0x8085 => Self::described(CbmDeviceType::Cbm1541, "JiffyDOS 1541"),
            0xaeea => Self::described(CbmDeviceType::Cbm1541, "64'er DOS 1541"),
            0x180d => Self::described(CbmDeviceType::Cbm1541, "Turbo Access / Turbo Trans"),
            0x094c => Self::described(CbmDeviceType::Cbm1541, "Prologic DOS"),
            0xfed7 => Self::described(CbmDeviceType::Cbm1570, "1570"),
            0x02ac => Self::described(CbmDeviceType::Cbm1571, "1571"),
            0x01ba => match magic2 {
                Some(0x4446) => Self::described(CbmDeviceType::FdX000, "FD2000/FD4000"),
                _ => Self::described(CbmDeviceType::Cbm1581, "1581"),
            },
            0x32f0 => Self::described(CbmDeviceType::Cbm3040, "3040"),
            0xc320 | 0x20f8 => Self::described(CbmDeviceType::Cbm4040, "4040"),
            0xf2e9 => Self::described(CbmDeviceType::Cbm8050, "8050 dos2.5"),
            0xc866 | 0xc611 => Self::described(CbmDeviceType::Cbm8250, "8250 dos2.7"),
            _ => {
                let mut description = String::new();
                description.append("Unknown device: ");
                push_hex4(&mut description, magic);
                match magic2 {
                    Some(second) => {
                        description.append(" ");
                        push_hex4(&mut description, second);
                    },
                    None => {},
                }
                CbmDeviceInfo { device_type: CbmDeviceType::Unknown, description }
            },
        }
    }

    /// The text `model: description`.
    pub fn to_string(&self) -> (out: String)
        ensures
            out@ == self.device_type.display_text() + ": "@ + self.description@,
    {
        let mut out = self.device_type.to_string();
        out.append(": ");
        out.append(self.description.as_str());
        out
    }
}

/// The signature `0xaaaa` alone stands for a 1541. The signature `0x01ba`
/// stands for the FD series where the second signature is `0x4446`, and for a
/// 1581 with any other second signature or none.
pub proof fn lemma_identification(magic2: Option<u16>)
    ensures
        device_for_magic(0xaaaa, None).device_type == CbmDeviceType::Cbm1541,
        magic2 == Some(0x4446u16) ==> device_for_magic(0x01ba, magic2).device_type
            == CbmDeviceType::FdX000,
        magic2 != Some(0x4446u16) ==> device_for_magic(0x01ba, magic2).device_type
            == CbmDeviceType::Cbm1581,
{
}

/// The status line of a drive, taken apart.
#[derive(Debug, PartialEq)]
pub struct CbmStatus {
    pub number: u8,
    pub error_number: CbmErrorNumber,
    pub message: String,
    pub track: u8,
    pub sector: u8,
    pub device: u8,
}

/// The mathematical value of a [`CbmStatus`].
pub struct CbmStatusView {
    pub number: u8,
    pub error_number: CbmErrorNumber,
    pub message: Seq<char>,
    pub track: u8,
    pub sector: u8,
    pub device: u8,
}

impl View for CbmStatus {
    type V = CbmStatusView;

    open spec fn view(&self) -> CbmStatusView {
        CbmStatusView {
            number: self.number,
            error_number: self.error_number,
            message: self.message@,
            track: self.track,
            sector: self.sector,
            device: self.device,
        }
    }
}

impl Clone for CbmStatus {
    fn clone(&self) -> (copy: Self)
        ensures
            copy@ == self@,
    {
        CbmStatus {
            number: self.number,
            error_number: self.error_number,
            message: self.message.clone(),
            track: self.track,
            sector: self.sector,
            device: self.device,
        }
    }
}

impl CbmStatusView {
    /// The status as the drive writes it: number, message, track and sector,
    /// each number with at least two digits.
    pub open spec fn text(self) -> Seq<char> {
        pad_left(decimal(self.number as nat), 2, '0') + ","@ + self.message + ","@ + pad_left(
            decimal(self.track as nat),
            2,
            '0',
        ) + ","@ + pad_left(decimal(self.sector as nat), 2, '0')
    }
}


/// The part of a status line in front of its first carriage return.
pub open spec fn clean_status(status: Seq<char>) -> Seq<char> {
    status.take(index_of(status, '\r') as int)
}

/// The text of the error for a field of a status line that is no number.
pub open spec fn field_error(
    device: u8,
    what: Seq<char>,
    field: Seq<char>,
    clean: Seq<char>,
) -> Seq<
    char,
> {
    "Device "@ + decimal(device as nat) + ": Invalid "@ + what + ": "@ + field
        + " within status: "@ + clean
}

/// A field of a status line as a number: the field without the white space
/// round it, read as an unsigned number of at most 255.
pub open spec fn status_number(field: Seq<char>) -> Option<nat> {
    parse_unsigned(trim(field), 255)
}

/// The last field of a status line as a number. Newlines that are left at its
/// end after trimming are taken off, and it is trimmed once more.
pub open spec fn sector_number(field: Seq<char>) -> Option<nat> {
    parse_unsigned(trim(trim_end_matches(trim(field), '\n')), 255)
}

/// Whether a status line can be parsed: in front of its first carriage
/// return it has exactly four fields between commas, and the first, the third
/// and the fourth are numbers.
pub open spec fn status_is_valid(status: Seq<char>) -> bool {
    let fields = split(clean_status(status), ',');
    &&& fields.len() == 4
    &&& status_number(fields[0]) is Some
    &&& status_number(fields[2]) is Some
    &&& sector_number(fields[3]) is Some
}

/// What parsing the status line `status` of device `device` gives.
///
/// The line ends at its first carriage return. It must hold four fields
/// between commas: the error number, the message, the track and the sector.
/// The message is kept without the white space round it. A number that is not
/// in the list of error numbers is accepted and classified as unknown.
pub open spec fn parse_status(status: Seq<char>, device: u8) -> Result<
    CbmStatusView,
    Rs1541ErrorView,
> {
    let clean = clean_status(status);
    let fields = split(clean, ',');
    if clean.len() == 0 {
        Err(
            Rs1541ErrorView::Parse {
                message: "Device "@ + decimal(device as nat)
                    + " provided zero length status string"@,
            },
        )
    } else if fields.len() != 4 {
        Err(
            Rs1541ErrorView::Parse {
                message: "Device "@ + decimal(device as nat) + " supplied status format: "@
                    + clean,
            },
        )
    } else if status_number(fields[0]) is None {
        Err(
            Rs1541ErrorView::Parse {
                message: field_error(device, "error number"@, fields[0], clean),
            },
        )
    } else if status_number(fields[2]) is None {
        Err(Rs1541ErrorView::Parse { message: field_error(device, "track"@, fields[2], clean) })
    } else if sector_number(fields[3]) is None {
        Err(Rs1541ErrorView::Parse { message: field_error(device, "sector"@, fields[3], clean) })
    } else {
        let number = status_number(fields[0])->0 as u8;
        Ok(
            CbmStatusView {
                number,
                error_number: CbmErrorNumber::of_number(number),
                message: trim(fields[1]),
                track: status_number(fields[2])->0 as u8,
                sector: sector_number(fields[3])->0 as u8,
                device,
            },
        )
    }
}

/// A result of parsing a status, with both sides taken by their values.
pub open spec fn status_view(r: Result<CbmStatus, Rs1541Error>) -> Result<
    CbmStatusView,
    Rs1541ErrorView,
> {
    match r {
        Ok(status) => Ok(status@),
        Err(e) => Err(e@),
    }
}

impl CbmStatusView {
    /// How the status counts: a number below 20 is success, 73 is the drive's
    /// greeting, and every other number is a failure.
    pub open spec fn class(self) -> CbmErrorNumberOk {
        if self.number < 20 {
            CbmErrorNumberOk::Okay
        } else if self.number == 73 {
            CbmErrorNumberOk::Number73
        } else {
            CbmErrorNumberOk::Error
        }
    }

    /// Whether the track and the sector of the status mean a place on the
    /// disk: they do for the numbers 20 to 29.
    pub open spec fn names_a_place(self) -> bool {
        20 <= self.number <= 29
    }

    /// The number and the message of the status.
    pub open spec fn short_text(self) -> Seq<char> {
        pad_left(decimal(self.number as nat), 2, '0') + ","@ + self.message
    }
}

/// The text of the error for a field of a status line that is no number.
fn field_parse_error(device: u8, what: &str, field: &[char], clean: &[char]) -> (e: Rs1541Error)
    ensures
        e@ == (Rs1541ErrorView::Parse { message: field_error(device, what@, field@, clean@) }),
{
    let mut message = String::new();
    message.append("Device ");
    push_decimal(&mut message, device as u64);
    message.append(": Invalid ");
    message.append(what);
    message.append(": ");
    push_chars(&mut message, field);
    message.append(" within status: ");
    push_chars(&mut message, clean);
    Rs1541Error::Parse { message }
}

/// Reads a field of a status line as a number.
fn read_status_number(field: &[char]) -> (r: Option<u8>)
    ensures
        r matches Some(v) ==> status_number(field@) == Some(v as nat),
        r is None ==> status_number(field@) is None,
{
    let trimmed = trim_chars(field);
    match parse_unsigned_chars(trimmed.as_slice(), 255) {
        Some(v) => Some(v as u8),
        None => None,
    }
}

/// Reads the last field of a status line as a number.
fn read_sector_number(field: &[char]) -> (r: Option<u8>)
    ensures
        r matches Some(v) ==> sector_number(field@) == Some(v as nat),
        r is None ==> sector_number(field@) is None,
{
    let trimmed = trim_chars(field);
    let cut = trim_end_matches_chars(trimmed.as_slice(), '\n');
    let again = trim_chars(cut.as_slice());
    match parse_unsigned_chars(again.as_slice(), 255) {
        Some(v) => Some(v as u8),
        None => None,
    }
}

impl Default for CbmStatus {
    fn default() -> (status: Self)
        ensures
            status@ == (CbmStatusView {
                number: 255,
                error_number: CbmErrorNumber::Unknown,
                message: "none"@,
                track: 0,
                sector: 0,
                device: 0,
            }),
    {
        CbmStatus {
            number: 255,
            error_number: CbmErrorNumber::Unknown,
            message: "none".to_owned(),
            track: 0,
            sector: 0,
            device: 0,
        }
    }
}

impl CbmStatus {
    /// Parses the status line `status` that device `device` sent.
    pub fn new(status: &str, device: u8) -> (r: Result<Self, Rs1541Error>)
        ensures
            status_view(r) == parse_status(status@, device),
    {
        let chars = chars_of(status);
        let end: usize = find_char(chars.as_slice(), '\r');
        let clean = slice_of(chars.as_slice(), 0, end);
        if clean.len() == 0 {
            let mut message = String::new();
            message.append("Device ");
            push_decimal(&mut message, device as u64);
            message.append(" provided zero length status string");
            return Err(Rs1541Error::Parse { message });
        }
        let fields = split_chars(clean.as_slice(), ',');
        proof {
            assert(views(fields@).len() == fields@.len());
        }
        if fields.len() != 4 {
            let mut message = String::new();
            message.append("Device ");
            push_decimal(&mut message, device as u64);
            message.append(" supplied status format: ");
            push_chars(&mut message, clean.as_slice());
            return Err(Rs1541Error::Parse { message });
        }
        proof {
            assert(views(fields@)[0] == fields@[0]@);
            assert(views(fields@)[1] == fields@[1]@);
            assert(views(fields@)[2] == fields@[2]@);
            assert(views(fields@)[3] == fields@[3]@);
        }
        let number: u8 = match read_status_number(fields[0].as_slice()) {
            Some(v) => v,
            None => {
                return Err(
                    field_parse_error(
                        device,
                        "error number",
                        fields[0].as_slice(),
                        clean.as_slice(),
                    ),
                );
            },
        };
        let error_number = CbmErrorNumber::from(number);
        let message = string_of(trim_chars(fields[1].as_slice()).as_slice());
        let track: u8 = match read_status_number(fields[2].as_slice()) {
            Some(v) => v,
            None => {
                return Err(
                    field_parse_error(device, "track", fields[2].as_slice(), clean.as_slice()),
                );
            },
        };
        let sector: u8 = match read_sector_number(fields[3].as_slice()) {
            Some(v) => v,
            None => {
                return Err(
                    field_parse_error(device, "sector", fields[3].as_slice(), clean.as_slice()),
                );
            },
        };
        Ok(CbmStatus { number, error_number, message, track, sector, device })
    }

    /// How the status counts.
    pub fn is_ok(&self) -> (class: CbmErrorNumberOk)
        ensures
            class == self@.class(),
    {
        if self.number < 20 {
            CbmErrorNumberOk::Okay
        } else if self.number == 73 {
            CbmErrorNumberOk::Number73
        } else {
            CbmErrorNumberOk::Error
        }
    }

    /// Whether the drive answered with an error number that is in the list.
    pub fn is_valid_cbm(&self) -> (valid: bool)
        ensures
            valid == (self.error_number != CbmErrorNumber::Unknown),
    {
        self.error_number != CbmErrorNumber::Unknown
    }

    /// The track of the status, where the error number is one that names a
    /// place on the disk.
    pub fn track(&self) -> (track: Option<u8>)
        ensures
            track == if self@.names_a_place() {
                Some(self.track)
            } else {
                None
            },
    {
        if 20 <= self.number && self.number <= 29 {
            Some(self.track)
        } else {
            None
        }
    }

    /// The sector of the status, where the error number is one that names a
    /// place on the disk.
    pub fn sector(&self) -> (sector: Option<u8>)
        ensures
            sector == if self@.names_a_place() {
                Some(self.sector)
            } else {
                None
            },
    {
        if 20 <= self.number && self.number <= 29 {
            Some(self.sector)
        } else {
            None
        }
    }

    /// The number of files that were scratched, which a status of that kind
    /// holds in place of the track.
    pub fn files_scratched(&self) -> (count: Option<u8>)
        ensures
            count == if self.error_number == CbmErrorNumber::FilesScratched {
                Some(self.track)
            } else {
                None
            },
    {
        if self.error_number == CbmErrorNumber::FilesScratched {
            Some(self.track)
        } else {
            None
        }
    }

    /// The number and the message of the status.
    pub fn as_short_str(&self) -> (out: String)
        ensures
            out@ == self@.short_text(),
    {
        let mut out = String::new();
        push_decimal_padded(&mut out, self.number as u64, 2, '0');
        out.append(",");
        out.append(self.message.as_str());
        out
    }

    /// The status as the drive writes it.
    pub fn as_str(&self) -> (out: String)
        ensures
            out@ == self@.text(),
    {
        let mut out = String::new();
        push_decimal_padded(&mut out, self.number as u64, 2, '0');
        out.append(",");
        out.append(self.message.as_str());
        out.append(",");
        push_decimal_padded(&mut out, self.track as u64, 2, '0');
        out.append(",");
        push_decimal_padded(&mut out, self.sector as u64, 2, '0');
        out
    }

    /// The status as the drive writes it.
    pub fn to_string(&self) -> (out: String)
        ensures
            out@ == self@.text(),
    {
        self.as_str()
    }

    /// Success where the status is the drive's greeting, number 73, and the
    /// status as an error where it is anything else.
    pub fn into_73_ok(self) -> (r: Result<(), Rs1541Error>)
        ensures
            error_view(r) == if self@.class() == CbmErrorNumberOk::Number73 {
                Ok(())
            } else {
                Err(Rs1541ErrorView::Status { status: self@ })
            },
    {
        if self.number == 73 {
            Ok(())
        } else {
            Err(Rs1541Error::Status { status: self })
        }
    }

    /// Success where the status counts as success, and the status as an error
    /// where it does not: the greeting, number 73, is an error here.
    pub fn into_result(self) -> (r: Result<(), Rs1541Error>)
        ensures
            r == if self@.class() == CbmErrorNumberOk::Okay {
                Ok(())
            } else {
                Err(Rs1541Error::Status { status: self })
            },
    {
        if self.number < 20 {
            Ok(())
        } else {
            Err(Rs1541Error::Status { status: self })
        }
    }
}

impl<'a> TryFrom<(&'a str, u8)> for CbmStatus {
    type Error = Rs1541Error;

    /// Parses a status line together with the number of the device that sent it.
    fn try_from(pair: (&'a str, u8)) -> (r: Result<Self, Self::Error>)
        ensures
            status_view(r) == parse_status(pair.0@, pair.1),
    {
        CbmStatus::new(pair.0, pair.1)
    }
}

impl<'a> TryFromSpecImpl<(&'a str, u8)> for CbmStatus {
    open spec fn obeys_try_from_spec() -> bool {
        false
    }

    open spec fn try_from_spec(pair: (&'a str, u8)) -> Result<Self, Self::Error> {
        arbitrary()
    }
}

impl From<CbmStatus> for Result<(), Rs1541Error> {
    /// Success where the status counts as success, and the status as an error
    /// where it does not.
    fn from(status: CbmStatus) -> (r: Self) {
        status.into_result()
    }
}

impl FromSpecImpl<CbmStatus> for Result<(), Rs1541Error> {
    open spec fn obeys_from_spec() -> bool {
        true
    }

    open spec fn from_spec(status: CbmStatus) -> Self {
        if status@.class() == CbmErrorNumberOk::Okay {
            Ok(())
        } else {
            Err(Rs1541Error::Status { status })
        }
    }
}

/// A status line parses exactly where it is valid, and every line that does
/// not parse gives a parse error.
pub proof fn lemma_status_parsing_is_total(status: Seq<char>, device: u8)
    ensures
        status_is_valid(status) <==> parse_status(status, device) is Ok,
        !status_is_valid(status) ==> parse_status(status, device) matches Err(
            Rs1541ErrorView::Parse { .. },
        ),
{
    let clean = clean_status(status);
    if clean.len() == 0 {
        assert(index_of(clean, ',') == 0);
        assert(split(clean, ',') == seq![clean]);
    }
}

} // verus!
