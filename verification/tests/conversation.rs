use rs1541::bus::{handle_read_result, BusReply, BusRequest, Step};
use rs1541::cbm::Cbm;
use rs1541::cbmtype::{CbmDeviceType, CbmErrorNumber};
use rs1541::channel::DeviceChannel;
use rs1541::drive::CbmDriveUnit;
use rs1541::error::{DeviceError, Rs1541Error, TransportError, TransportErrorKind};
use rs1541::string::{AsciiString, CbmString, PetsciiString};

fn dc(device: u8, channel: u8) -> DeviceChannel {
    DeviceChannel::new(device, channel).unwrap()
}

fn done() -> BusReply {
    BusReply::Completed { data: Vec::new(), written: 0, talking: None }
}

fn wrote(count: usize) -> BusReply {
    BusReply::Completed { data: Vec::new(), written: count, talking: None }
}

fn data(bytes: &[u8], talking: DeviceChannel) -> BusReply {
    BusReply::Completed { data: bytes.to_vec(), written: 0, talking: Some(talking) }
}

fn failure(kind: TransportErrorKind, message: &str) -> TransportError {
    TransportError { kind, message: message.to_string(), errno: 5 }
}

fn failed(message: &str) -> BusReply {
    BusReply::Failed(failure(TransportErrorKind::Usb, message))
}

fn transport(message: &str) -> Rs1541Error {
    Rs1541Error::Xum1541(failure(TransportErrorKind::Usb, message))
}

fn read_status() -> BusRequest {
    BusRequest::ReadUntil { limit: 64, pattern: vec![b'\r'] }
}

/// Runs an operation against a bus that answers with `answer`, and returns
/// the result together with the requests that were put on the bus.
fn converse<T>(
    mut operation: impl FnMut(&Cbm) -> Step<T>,
    mut answer: impl FnMut(usize, &BusRequest) -> BusReply,
) -> (T, Vec<BusRequest>) {
    let mut cbm = Cbm::new();
    let mut asked = Vec::new();
    loop {
        match operation(&cbm) {
            Step::Request(request) => {
                assert!(asked.len() < 10_000, "the operation does not end");
                cbm.reply(answer(asked.len(), &request));
                assert_eq!(cbm.replies().len(), asked.len() + 1);
                asked.push(request);
            }
            Step::Finished(result) => return (result, asked),
        }
    }
}

/// A drive that is there: it gives `status` when asked for its status, and
/// the bytes of `file` in blocks when read from on another channel.
fn drive(status: &'static str, file: &'static [u8]) -> impl FnMut(usize, &BusRequest) -> BusReply {
    let mut talking: Option<DeviceChannel> = None;
    let mut offset = 0usize;
    move |_, request| match request {
        BusRequest::Talk(channel) => {
            talking = Some(*channel);
            done()
        }
        BusRequest::Untalk => {
            talking = None;
            done()
        }
        BusRequest::ReadUntil { .. } => data(status.as_bytes(), talking.unwrap()),
        BusRequest::Read(limit) => {
            let end = (offset + limit).min(file.len());
            let reply = data(&file[offset..end], talking.unwrap());
            offset = end;
            reply
        }
        BusRequest::Write(bytes) => wrote(bytes.len()),
        _ => done(),
    }
}

const OK: &str = "00, OK,00,00\r";

#[test]
fn format_disk_sends_the_command_and_checks_the_status() {
    let name = AsciiString::from_ascii_str("TEST");
    let id = AsciiString::from_ascii_str("01");
    let (result, asked) = converse(|cbm| cbm.format_disk(8, &name, &id), drive("00,OK,00,00\r", b""));
    assert_eq!(result, Ok(()));
    assert_eq!(
        asked,
        vec![
            BusRequest::Listen(dc(8, 15)),
            BusRequest::Write(vec![0x4e, 0x30, 0x3a, 0xd4, 0xc5, 0xd3, 0xd4, 0x2c, 0x30, 0x31]),
            BusRequest::Unlisten,
            BusRequest::Talk(dc(8, 15)),
            read_status(),
            BusRequest::Untalk,
        ]
    );
}

#[test]
fn format_disk_refuses_an_id_that_is_not_two_characters() {
    let name = AsciiString::from_ascii_str("TEST");
    for (id, length) in [("1", "1"), ("", "0"), ("123", "3")] {
        let id = AsciiString::from_ascii_str(id);
        let (result, asked) = converse(|cbm| cbm.format_disk(8, &name, &id), drive(OK, b""));
        assert_eq!(
            result,
            Err(Rs1541Error::Validation {
                message: format!(
                    "Device 8 format error: Disk ID must be 2 characters, not {length}"
                ),
            })
        );
        assert!(asked.is_empty());
    }
}

#[test]
fn format_disk_reports_the_status_of_the_drive() {
    let name = AsciiString::from_ascii_str("TEST");
    let id = AsciiString::from_ascii_str("01");
    let (result, _) =
        converse(|cbm| cbm.format_disk(8, &name, &id), drive("26,WRITE PROTECT ON,00,00\r", b""));
    match result {
        Err(Rs1541Error::Status { status }) => {
            assert_eq!(status.number, 26);
            assert_eq!(status.error_number, CbmErrorNumber::WriteProtectOn);
            assert_eq!(status.device, 8);
        }
        other => panic!("{other:?}"),
    }
    // The greeting of the drive is no success here.
    let (result, _) =
        converse(|cbm| cbm.format_disk(8, &name, &id), drive("73,CBM DOS V2.6 1541,00,00\r", b""));
    assert!(matches!(result, Err(Rs1541Error::Status { .. })));
}

#[test]
fn operations_refuse_a_device_that_is_not_on_the_bus() {
    let refused = |result: Result<(), Rs1541Error>, asked: Vec<BusRequest>| {
        assert!(asked.is_empty());
        match result {
            Err(Rs1541Error::Xum1541(e)) => assert_eq!(e.kind, TransportErrorKind::Args),
            other => panic!("{other:?}"),
        }
    };
    let name = AsciiString::from_ascii_str("x");
    let (result, asked) = converse(|cbm| cbm.validate_disk(7), drive(OK, b""));
    refused(result, asked);
    let (result, asked) = converse(|cbm| cbm.delete_file(31, &name), drive(OK, b""));
    refused(result, asked);
    let (result, asked) = converse(|cbm| cbm.get_status(0), drive(OK, b""));
    refused(result.map(|_| ()), asked);
    let (result, asked) = converse(|cbm| cbm.drive_exists(200), drive(OK, b""));
    refused(result.map(|_| ()), asked);
    let (result, asked) = converse(|cbm| cbm.read_file(7, &name), drive(OK, b""));
    refused(result.map(|_| ()), asked);
    let (result, asked) = converse(|cbm| cbm.write_file(7, &name, b"x"), drive(OK, b""));
    refused(result, asked);
    let (result, asked) = converse(|cbm| cbm.write_drive_memory(7, 0, b"x"), drive(OK, b""));
    refused(result, asked);
    let (result, asked) = converse(|cbm| cbm.send_string_command_petscii(7, "x"), drive(OK, b""));
    refused(result, asked);

    let (result, asked) = converse(|cbm| cbm.load_file_ascii(7, &name), drive(OK, b""));
    assert!(asked.is_empty());
    assert_eq!(
        result,
        Err(Rs1541Error::Validation {
            message: "Device num must be between 8 and 30".to_string()
        })
    );
    let (result, asked) = converse(|cbm| cbm.identify(7), drive(OK, b""));
    assert!(asked.is_empty());
    assert_eq!(
        result.map(|_| ()),
        Err(DeviceError::get_status_failure(
            7,
            "Failed to get status after identify: xum1541 library called with invalid arguments: Device number 7 is less than minimum 8"
                .to_string()
        ))
    );
}

#[test]
fn status_is_read_between_talk_and_untalk() {
    let (result, asked) = converse(|cbm| cbm.get_status(9), drive("21,READ ERROR,18,04\rxx", b""));
    let status = result.unwrap();
    assert_eq!(status.to_string(), "21,READ ERROR,18,04");
    assert_eq!(status.device, 9);
    assert_eq!(asked, vec![BusRequest::Talk(dc(9, 15)), read_status(), BusRequest::Untalk]);
}

#[test]
fn status_that_is_no_text_is_read_with_replacement_characters() {
    let (result, _) = converse(
        |cbm| cbm.get_status(8),
        |_, request| match request {
            BusRequest::ReadUntil { .. } => data(&[0x30, 0x30, 0xff, 0x2c, 0x0d], dc(8, 15)),
            _ => done(),
        },
    );
    assert_eq!(
        result,
        Err(Rs1541Error::Parse {
            message: "Device 8 supplied status format: 00\u{fffd},".to_string()
        })
    );
}

#[test]
fn status_stops_the_talker_when_the_read_fails() {
    let (result, asked) = converse(
        |cbm| cbm.get_status(8),
        |index, _| if index == 1 { failed("read broke") } else { done() },
    );
    assert_eq!(result.map(|_| ()), Err(transport("read broke")));
    assert_eq!(asked, vec![BusRequest::Talk(dc(8, 15)), read_status(), BusRequest::Untalk]);

    // A failure to stop the talker does not take the place of the first failure.
    let (result, asked) = converse(
        |cbm| cbm.get_status(8),
        |index, _| match index {
            1 => failed("read broke"),
            2 => failed("untalk broke"),
            _ => done(),
        },
    );
    assert_eq!(result.map(|_| ()), Err(transport("read broke")));
    assert_eq!(asked.len(), 3);
}

#[test]
fn status_ends_at_once_when_the_talk_fails() {
    let (result, asked) = converse(|cbm| cbm.get_status(8), |_, _| failed("talk broke"));
    assert_eq!(result.map(|_| ()), Err(transport("talk broke")));
    assert_eq!(asked, vec![BusRequest::Talk(dc(8, 15))]);
    let (result, asked) = converse(
        |cbm| cbm.get_status(8),
        |index, request| match (index, request) {
            (2, _) => failed("untalk broke"),
            (_, BusRequest::ReadUntil { .. }) => data(b"00,OK,00,00\r", dc(8, 15)),
            _ => done(),
        },
    );
    assert_eq!(result.map(|_| ()), Err(transport("untalk broke")));
    assert_eq!(asked.len(), 3);
}

#[test]
fn no_byte_on_the_control_channel_means_no_device() {
    let (result, asked) = converse(
        |cbm| cbm.get_status(8),
        |_, request| match request {
            BusRequest::ReadUntil { .. } => data(b"", dc(8, 15)),
            _ => done(),
        },
    );
    assert_eq!(result.map(|_| ()), Err(DeviceError::no_device(8)));
    assert_eq!(asked, vec![BusRequest::Talk(dc(8, 15)), read_status(), BusRequest::Untalk]);

    assert_eq!(handle_read_result(&data(b"", dc(9, 15)), dc(8, 2)), Err(DeviceError::no_device(8)));
    assert_eq!(handle_read_result(&data(b"", dc(8, 2)), dc(8, 2)), Ok(vec![]));
    assert_eq!(handle_read_result(&done(), dc(8, 15)), Ok(vec![]));
    assert_eq!(handle_read_result(&data(b"x", dc(8, 15)), dc(8, 15)), Ok(vec![b'x']));
    assert_eq!(handle_read_result(&failed("no"), dc(8, 15)), Err(transport("no")));
}

#[test]
fn command_releases_the_listeners_when_the_write_fails() {
    let cmd = PetsciiString::from_petscii_bytes(b"I0");
    let (result, asked) = converse(
        |cbm| cbm.send_command_petscii(8, &cmd),
        |index, _| if index == 1 { failed("write broke") } else { done() },
    );
    assert_eq!(result, Err(transport("write broke")));
    assert_eq!(
        asked,
        vec![
            BusRequest::Listen(dc(8, 15)),
            BusRequest::Write(b"I0".to_vec()),
            BusRequest::Unlisten
        ]
    );
    let (result, asked) =
        converse(|cbm| cbm.send_command_petscii(8, &cmd), |_, _| failed("listen broke"));
    assert_eq!(result, Err(transport("listen broke")));
    assert_eq!(asked.len(), 1);
    let (result, asked) = converse(
        |cbm| cbm.send_command_petscii(8, &cmd),
        |index, _| if index == 2 { failed("unlisten broke") } else { done() },
    );
    assert_eq!(result, Err(transport("unlisten broke")));
    assert_eq!(asked.len(), 3);
}

#[test]
fn commands_are_sent_in_petscii() {
    let sent = |asked: Vec<BusRequest>| match &asked[1] {
        BusRequest::Write(bytes) => bytes.clone(),
        other => panic!("{other:?}"),
    };
    let ascii = AsciiString::from_ascii_str("s0:File");
    let (result, asked) = converse(|cbm| cbm.send_command_ascii(8, &ascii), drive(OK, b""));
    assert_eq!(result, Ok(()));
    assert_eq!(sent(asked), vec![0x53, 0x30, 0x3a, 0xc6, 0x49, 0x4c, 0x45]);
    let (_, asked) = converse(|cbm| cbm.send_string_command_ascii(8, "i0"), drive(OK, b""));
    assert_eq!(sent(asked), vec![0x49, 0x30]);
    let (_, asked) = converse(|cbm| cbm.send_string_command_petscii(8, "i0"), drive(OK, b""));
    assert_eq!(sent(asked), vec![0x69, 0x30]);
    let (_, asked) =
        converse(|cbm| cbm.send_command(8, &CbmString::from_ascii_bytes(b"v")), drive(OK, b""));
    assert_eq!(sent(asked), vec![0x56]);
    let (_, asked) =
        converse(|cbm| cbm.send_command(8, &CbmString::from_petscii_bytes(b"v")), drive(OK, b""));
    assert_eq!(sent(asked), vec![0x76]);
    let (_, asked) = converse(|cbm| cbm.validate_disk(8), drive(OK, b""));
    assert_eq!(sent(asked), vec![0x56]);
    let (_, asked) = converse(|cbm| cbm.delete_file(8, &ascii), drive(OK, b""));
    assert_eq!(sent(asked), vec![0x53, 0x30, 0x3a, 0x53, 0x30, 0x3a, 0xc6, 0x49, 0x4c, 0x45]);

    let (result, asked) = converse(|cbm| cbm.send_string_command_ascii(8, "i\u{e9}"), drive(OK, b""));
    assert!(asked.is_empty());
    assert_eq!(
        result,
        Err(Rs1541Error::Validation {
            message: "Unable to parse requested command as ASCII i\u{e9}: String contains non-ASCII characters".to_string()
        })
    );
}

#[test]
fn bus_reset_is_one_request() {
    let (result, asked) = converse(|cbm| cbm.reset_bus(), |_, _| done());
    assert_eq!(result, Ok(()));
    assert_eq!(asked, vec![BusRequest::Reset]);
    let (result, _) = converse(|cbm| cbm.reset_bus(), |_, _| failed("no"));
    assert_eq!(result, Err(transport("no")));
}

#[test]
fn drive_that_does_not_listen_is_not_there() {
    let (result, asked) = converse(|cbm| cbm.drive_exists(8), drive(OK, b""));
    assert_eq!(result, Ok(true));
    assert_eq!(asked, vec![BusRequest::Listen(dc(8, 15)), BusRequest::Unlisten]);

    let (result, asked) = converse(
        |cbm| cbm.drive_exists(8),
        |_, _| BusReply::Failed(failure(TransportErrorKind::StatusValue, "status 0x0000")),
    );
    assert_eq!(result, Ok(false));
    assert_eq!(asked, vec![BusRequest::Listen(dc(8, 15))]);

    let (result, _) = converse(|cbm| cbm.drive_exists(8), |_, _| failed("usb"));
    assert_eq!(result, Err(transport("usb")));
    let (result, _) = converse(
        |cbm| cbm.drive_exists(8),
        |index, _| if index == 1 { failed("unlisten") } else { done() },
    );
    assert_eq!(result, Err(transport("unlisten")));
}

#[test]
fn reading_from_a_channel() {
    let (result, asked) = converse(|cbm| cbm.read_from_drive(dc(8, 2), 4, true), drive(OK, b"abcd"));
    assert_eq!(result, Ok(b"abcd".to_vec()));
    assert_eq!(
        asked,
        vec![BusRequest::Talk(dc(8, 2)), BusRequest::Read(4), BusRequest::Untalk]
    );

    // Bytes that come in pieces are asked for until a read returns nothing.
    let mut pieces = vec![&b""[..], &b"c"[..], &b"ab"[..]];
    let (result, asked) = converse(
        |cbm| cbm.read_from_drive(dc(8, 2), 4, false),
        |_, request| match request {
            BusRequest::Read(_) => data(pieces.pop().unwrap(), dc(8, 2)),
            _ => done(),
        },
    );
    assert_eq!(result, Ok(b"abc".to_vec()));
    assert_eq!(
        asked,
        vec![
            BusRequest::Talk(dc(8, 2)),
            BusRequest::Read(4),
            BusRequest::Read(2),
            BusRequest::Read(1),
            BusRequest::Untalk
        ]
    );

    let (result, _) = converse(|cbm| cbm.read_from_drive(dc(8, 2), 4, true), drive(OK, b"abc"));
    assert_eq!(
        result,
        Err(DeviceError::read_error(dc(8, 2), "Failed to read 4 bytes, read 3".to_string()))
    );
    let (result, asked) = converse(|cbm| cbm.read_from_drive(dc(8, 2), 0, true), drive(OK, b"abc"));
    assert!(asked.is_empty());
    assert_eq!(
        result,
        Err(Rs1541Error::Validation {
            message: "Asked to read 0 bytes from Device: 8 Channel: 2".to_string()
        })
    );
    let (result, asked) = converse(
        |cbm| cbm.read_from_drive(dc(8, 2), 4, true),
        |index, _| if index == 1 { failed("read") } else { done() },
    );
    assert_eq!(result, Err(transport("read")));
    assert_eq!(asked.last(), Some(&BusRequest::Untalk));
    assert_eq!(asked.len(), 3);
}

#[test]
fn opening_a_file_closes_the_channel_again_on_failure() {
    let name = AsciiString::from_ascii_str("f");
    let open = || {
        vec![
            BusRequest::Open(dc(8, 2)),
            BusRequest::Write(vec![0x46]),
            BusRequest::Unlisten,
            BusRequest::Talk(dc(8, 15)),
            read_status(),
            BusRequest::Untalk,
        ]
    };
    let (result, asked) = converse(|cbm| cbm.open_file(dc(8, 2), &name), drive(OK, b""));
    assert_eq!(result, Ok(()));
    assert_eq!(asked, open());

    let (result, asked) =
        converse(|cbm| cbm.open_file(dc(8, 2), &name), drive("62,FILE NOT FOUND,00,00\r", b""));
    assert!(matches!(result, Err(Rs1541Error::Status { .. })));
    let mut expected = open();
    expected.push(BusRequest::Close(dc(8, 2)));
    assert_eq!(asked, expected);

    let (result, asked) = converse(
        |cbm| cbm.open_file(dc(8, 2), &name),
        |index, _| if index == 1 { failed("write") } else { done() },
    );
    assert_eq!(result, Err(transport("write")));
    assert_eq!(
        asked[2..],
        [BusRequest::Unlisten, BusRequest::Close(dc(8, 2))]
    );
    let (result, asked) = converse(
        |cbm| cbm.open_file(dc(8, 2), &name),
        |index, _| if index == 2 { failed("unlisten") } else { done() },
    );
    assert_eq!(result, Err(transport("unlisten")));
    assert_eq!(asked[3..], [BusRequest::Close(dc(8, 2))]);
    let (result, asked) = converse(|cbm| cbm.open_file(dc(8, 2), &name), |_, _| failed("open"));
    assert_eq!(result, Err(transport("open")));
    assert_eq!(asked.len(), 1);

    // A status that cannot be had is reported as such.
    let (result, asked) = converse(
        |cbm| cbm.open_file(dc(8, 2), &name),
        |index, _| if index == 3 { failed("talk") } else { done() },
    );
    assert_eq!(
        result,
        Err(DeviceError::get_status_failure(8, "Failed to get status: talk".to_string()))
    );
    assert_eq!(asked.last(), Some(&BusRequest::Close(dc(8, 2))));
    let (result, _) = converse(|cbm| cbm.open_file(dc(8, 2), &name), |_, _| done());
    assert_eq!(
        result,
        Err(DeviceError::get_status_failure(
            8,
            "Failed to get status: Parse error: Device 8 provided zero length status string"
                .to_string()
        ))
    );
    // A device that is not there is reported as that.
    let (result, _) = converse(
        |cbm| cbm.open_file(dc(8, 2), &name),
        |_, request| match request {
            BusRequest::ReadUntil { .. } => data(b"", dc(8, 15)),
            _ => done(),
        },
    );
    assert_eq!(result, Err(DeviceError::no_device(8)));

    let (result, asked) = converse(|cbm| cbm.close_file(dc(8, 2)), |_, _| done());
    assert_eq!(result, Ok(()));
    assert_eq!(asked, vec![BusRequest::Close(dc(8, 2))]);
    let (result, _) = converse(|cbm| cbm.close_file(dc(8, 2)), |_, _| failed("close"));
    assert_eq!(result, Err(transport("close")));
}

#[test]
fn loading_a_file_reads_to_the_end() {
    static FILE: [u8; 600] = [7u8; 600];
    let name = PetsciiString::from_petscii_bytes(b"F");
    let (result, asked) = converse(|cbm| cbm.load_file_petscii(8, &name), drive(OK, &FILE));
    assert_eq!(result, Ok(FILE.to_vec()));
    assert_eq!(
        asked[6..],
        [
            BusRequest::Talk(dc(8, 0)),
            BusRequest::Read(254),
            BusRequest::Read(254),
            BusRequest::Read(254),
            BusRequest::Read(254),
            BusRequest::Untalk,
            BusRequest::Close(dc(8, 0)),
        ]
    );
    assert_eq!(asked[0], BusRequest::Open(dc(8, 0)));

    // After a failed read the talker is stopped and the channel closed.
    let (result, asked) = converse(
        |cbm| cbm.load_file_petscii(8, &name),
        |index, request| match (index, request) {
            (8, _) => failed("read"),
            (9, _) => failed("untalk"),
            (_, BusRequest::ReadUntil { .. }) => data(b"00,OK,00,00\r", dc(8, 15)),
            (_, BusRequest::Read(_)) => data(b"xy", dc(8, 0)),
            _ => done(),
        },
    );
    assert_eq!(result, Err(transport("read")));
    assert_eq!(asked[9..], [BusRequest::Untalk, BusRequest::Close(dc(8, 0))]);

    let (result, asked) = converse(
        |cbm| cbm.load_file_petscii(8, &name),
        |index, request| match (index, request) {
            (6, _) => failed("talk"),
            (_, BusRequest::ReadUntil { .. }) => data(b"00,OK,00,00\r", dc(8, 15)),
            _ => done(),
        },
    );
    assert_eq!(result, Err(transport("talk")));
    assert_eq!(asked[7..], [BusRequest::Close(dc(8, 0))]);
}

#[test]
fn reading_and_writing_files() {
    static FILE: [u8; 300] = [9u8; 300];
    let name = AsciiString::from_ascii_str("f");
    let (result, asked) = converse(|cbm| cbm.read_file(8, &name), drive(OK, &FILE));
    assert_eq!(result, Ok(FILE.to_vec()));
    assert_eq!(
        asked,
        vec![
            BusRequest::Listen(dc(8, 15)),
            BusRequest::Write(vec![0x46]),
            BusRequest::Unlisten,
            BusRequest::Talk(dc(8, 15)),
            read_status(),
            BusRequest::Untalk,
            BusRequest::Talk(dc(8, 2)),
            BusRequest::Read(254),
            BusRequest::Read(254),
            BusRequest::Untalk,
        ]
    );
    let (result, _) = converse(|cbm| cbm.read_file(8, &name), drive("62,FILE NOT FOUND,00,00\r", b""));
    assert!(matches!(result, Err(Rs1541Error::Status { .. })));
    let (result, asked) = converse(
        |cbm| cbm.read_file(8, &name),
        |index, request| match (index, request) {
            (7, _) => failed("gone"),
            (_, BusRequest::ReadUntil { .. }) => data(b"00,OK,00,00\r", dc(8, 15)),
            _ => done(),
        },
    );
    assert_eq!(
        result,
        Err(Rs1541Error::File { device: 8, message: "Read failed: gone".to_string() })
    );
    assert_eq!(asked.last(), Some(&BusRequest::Untalk));
    let (result, _) = converse(
        |cbm| cbm.read_file(8, &name),
        |index, request| match (index, request) {
            (6, _) => failed("gone"),
            (_, BusRequest::ReadUntil { .. }) => data(b"00,OK,00,00\r", dc(8, 15)),
            _ => done(),
        },
    );
    assert_eq!(
        result,
        Err(Rs1541Error::File { device: 8, message: "Talk failed: gone".to_string() })
    );

    let (result, asked) = converse(|cbm| cbm.write_file(8, &name, &FILE), drive(OK, b""));
    assert_eq!(result, Ok(()));
    assert_eq!(asked[1], BusRequest::Write(vec![0x40, 0x3a, 0x46]));
    assert_eq!(
        asked[6..],
        [
            BusRequest::Listen(dc(8, 2)),
            BusRequest::Write(vec![9u8; 254]),
            BusRequest::Write(vec![9u8; 46]),
            BusRequest::Unlisten,
        ]
    );
    let (result, asked) = converse(|cbm| cbm.write_file(8, &name, b""), drive(OK, b""));
    assert_eq!(result, Ok(()));
    assert_eq!(asked[6..], [BusRequest::Listen(dc(8, 2)), BusRequest::Unlisten]);

    let (result, asked) = converse(
        |cbm| cbm.write_file(8, &name, &FILE),
        |index, request| match (index, request) {
            (8, _) => wrote(45),
            (_, BusRequest::ReadUntil { .. }) => data(b"00,OK,00,00\r", dc(8, 15)),
            (_, BusRequest::Write(bytes)) => wrote(bytes.len()),
            _ => done(),
        },
    );
    assert_eq!(
        result,
        Err(Rs1541Error::File {
            device: 8,
            message: "Failed to write complete chunk".to_string()
        })
    );
    assert_eq!(asked.last(), Some(&BusRequest::Unlisten));
    assert_eq!(asked.len(), 10);
    let (result, _) = converse(
        |cbm| cbm.write_file(8, &name, &FILE),
        |index, request| match (index, request) {
            (7, _) => failed("full"),
            (_, BusRequest::ReadUntil { .. }) => data(b"00,OK,00,00\r", dc(8, 15)),
            (_, BusRequest::Write(bytes)) => wrote(bytes.len()),
            _ => done(),
        },
    );
    assert_eq!(
        result,
        Err(Rs1541Error::File { device: 8, message: "Write failed: full".to_string() })
    );
}

/// A drive whose memory holds `memory`, each entry an address and a byte.
/// After a memory read its status does not parse, as it is with real drives.
fn drive_with_memory(
    memory: &'static [(u16, u8)],
) -> impl FnMut(usize, &BusRequest) -> BusReply {
    let mut address: u16 = 0;
    move |_, request| match request {
        BusRequest::Write(cmd) if cmd.starts_with(b"M-R") => {
            address = cmd[3] as u16 | (cmd[4] as u16) << 8;
            wrote(cmd.len())
        }
        BusRequest::Read(1) => {
            let byte = memory.iter().find(|(a, _)| *a == address).map_or(0, |(_, b)| *b);
            data(&[byte], dc(8, 15))
        }
        BusRequest::ReadUntil { .. } => data(b"\r", dc(8, 15)),
        _ => done(),
    }
}

#[test]
fn memory_is_read_a_byte_at_a_time_and_the_status_after() {
    static MEMORY: [(u16, u8); 3] = [(0xffff, 1), (0x0000, 2), (0x0001, 3)];
    let (result, asked) =
        converse(|cbm| cbm.read_drive_memory(8, 0xffff, 3), drive_with_memory(&MEMORY));
    assert_eq!(result, Ok(vec![1, 2, 3]));
    let commands: Vec<&BusRequest> =
        asked.iter().filter(|r| matches!(r, BusRequest::Write(_))).collect();
    assert_eq!(
        commands,
        vec![
            &BusRequest::Write(vec![b'M', b'-', b'R', 0xff, 0xff]),
            &BusRequest::Write(vec![b'M', b'-', b'R', 0x00, 0x00]),
            &BusRequest::Write(vec![b'M', b'-', b'R', 0x01, 0x00]),
        ]
    );
    assert_eq!(asked.len(), 3 * 6 + 3);
    assert_eq!(asked[18..], [BusRequest::Talk(dc(8, 15)), read_status(), BusRequest::Untalk]);

    let (result, asked) = converse(|cbm| cbm.read_drive_memory(8, 0x1234, 0), drive(OK, b""));
    assert!(asked.is_empty());
    assert_eq!(
        result,
        Err(Rs1541Error::Validation {
            message: "Asked to read 0 bytes from device 8 memory address 0x1234".to_string()
        })
    );
}

#[test]
fn memory_read_is_followed_by_the_status_even_when_it_fails() {
    // The read of the byte fails; the status is read all the same.
    let (result, asked) = converse(
        |cbm| cbm.read_drive_memory(8, 0, 1),
        |index, request| match (index, request) {
            (4, _) => failed("read"),
            (_, BusRequest::ReadUntil { .. }) => data(b"\r", dc(8, 15)),
            _ => done(),
        },
    );
    assert_eq!(result, Err(transport("read")));
    assert_eq!(
        asked[4..],
        [
            BusRequest::Read(1),
            BusRequest::Untalk,
            BusRequest::Talk(dc(8, 15)),
            read_status(),
            BusRequest::Untalk
        ]
    );
    // A status that parses is let pass.
    static MEMORY: [(u16, u8); 1] = [(0, 0x55)];
    let mut memory = drive_with_memory(&MEMORY);
    let (result, _) = converse(
        |cbm| cbm.read_drive_memory(8, 0, 1),
        |index, request| match request {
            BusRequest::ReadUntil { .. } => data(b"00,OK,00,00\r", dc(8, 15)),
            _ => memory(index, request),
        },
    );
    assert_eq!(result, Ok(vec![0x55]));
    // A status that cannot be had takes the place of the result.
    let mut memory = drive_with_memory(&MEMORY);
    let (result, _) = converse(
        |cbm| cbm.read_drive_memory(8, 0, 1),
        |index, request| match request {
            BusRequest::ReadUntil { .. } => failed("broken"),
            _ => memory(index, request),
        },
    );
    assert_eq!(
        result,
        Err(DeviceError::get_status_failure(
            8,
            "Failed to get status after identify: broken".to_string()
        ))
    );
    // A device that gives no byte is not there.
    let (result, _) = converse(|cbm| cbm.read_drive_memory(8, 0, 1), |_, request| match request {
        BusRequest::Read(_) | BusRequest::ReadUntil { .. } => data(b"", dc(8, 15)),
        _ => done(),
    });
    assert_eq!(result, Err(DeviceError::no_device(8)));
}

#[test]
fn memory_is_written_a_byte_at_a_time() {
    let (result, asked) = converse(|cbm| cbm.write_drive_memory(8, 0xffff, &[7, 8]), drive(OK, b""));
    assert_eq!(result, Ok(()));
    assert_eq!(
        asked,
        vec![
            BusRequest::Listen(dc(8, 15)),
            BusRequest::Write(vec![b'M', b'-', b'W', 0xff, 0xff, 7]),
            BusRequest::Unlisten,
            BusRequest::Talk(dc(8, 15)),
            BusRequest::Untalk,
            BusRequest::Listen(dc(8, 15)),
            BusRequest::Write(vec![b'M', b'-', b'W', 0x00, 0x00, 8]),
            BusRequest::Unlisten,
            BusRequest::Talk(dc(8, 15)),
            BusRequest::Untalk,
        ]
    );
    let (result, asked) = converse(|cbm| cbm.write_drive_memory(7, 0, &[]), drive(OK, b""));
    assert_eq!(result, Ok(()));
    assert!(asked.is_empty());
    let (result, asked) = converse(
        |cbm| cbm.write_drive_memory(8, 0, &[1, 2]),
        |index, _| if index == 3 { failed("talk") } else { done() },
    );
    assert_eq!(result, Err(transport("talk")));
    assert_eq!(asked.len(), 4);
}

#[test]
fn device_is_identified_by_its_signatures() {
    static M1541: [(u16, u8); 4] = [(0xff40, 0xaa), (0xff41, 0xaa), (0xfffe, 0x00), (0xffff, 0x00)];
    let (result, asked) = converse(|cbm| cbm.identify(8), drive_with_memory(&M1541));
    let info = result.unwrap();
    assert_eq!(info.device_type, CbmDeviceType::Cbm1541);
    assert_eq!(info.description, "1541");
    assert_eq!(asked.len(), 2 * 15);

    static M1540: [(u16, u8); 6] = [
        (0xff40, 0xaa),
        (0xff41, 0xaa),
        (0xfffe, 0x67),
        (0xffff, 0xfe),
        (0xe5c4, 0x56),
        (0xe5c5, 0x31),
    ];
    let (result, asked) = converse(|cbm| cbm.identify(8), drive_with_memory(&M1540));
    assert_eq!(result.unwrap().device_type, CbmDeviceType::Cbm1540);
    assert_eq!(asked.len(), 3 * 15);

    static MFD: [(u16, u8); 4] = [(0xff40, 0xba), (0xff41, 0x01), (0xfffe, 0x46), (0xffff, 0x44)];
    let (result, _) = converse(|cbm| cbm.identify(8), drive_with_memory(&MFD));
    assert_eq!(result.unwrap().device_type, CbmDeviceType::FdX000);
    static M1581: [(u16, u8); 2] = [(0xff40, 0xba), (0xff41, 0x01)];
    let (result, _) = converse(|cbm| cbm.identify(8), drive_with_memory(&M1581));
    assert_eq!(result.unwrap().device_type, CbmDeviceType::Cbm1581);

    static M1571: [(u16, u8); 2] = [(0xff40, 0xac), (0xff41, 0x02)];
    let (result, asked) = converse(|cbm| cbm.identify(8), drive_with_memory(&M1571));
    assert_eq!(result.unwrap().device_type, CbmDeviceType::Cbm1571);
    assert_eq!(asked.len(), 15);

    static NONE: [(u16, u8); 0] = [];
    let (result, _) = converse(|cbm| cbm.identify(8), drive_with_memory(&NONE));
    let info = result.unwrap();
    assert_eq!(info.device_type, CbmDeviceType::Unknown);
    assert_eq!(info.description, "Unknown device: 0000");
}

#[test]
fn scan_finds_the_drives_that_are_there() {
    static M1571: [(u16, u8); 2] = [(0xff40, 0xac), (0xff41, 0x02)];
    let mut memory = drive_with_memory(&M1571);
    let mut listening = 0u8;
    let answer = |index: usize, request: &BusRequest| match request {
        BusRequest::Listen(channel) => {
            listening = channel.device();
            if listening == 8 || listening == 10 || listening == 11 {
                done()
            } else {
                BusReply::Failed(failure(TransportErrorKind::StatusValue, "nobody"))
            }
        }
        // Device 10 gives no byte when read from: it is left out.
        BusRequest::Read(_) if listening == 10 => data(b"", dc(10, 15)),
        _ => memory(index, request),
    };
    let (result, asked) = converse(|cbm| cbm.scan_bus_range(8, 12), answer);
    let found = result.unwrap();
    assert_eq!(found.len(), 2);
    assert_eq!(found[&8].device_type, CbmDeviceType::Cbm1571);
    assert_eq!(found[&11].device_type, CbmDeviceType::Cbm1571);
    assert_eq!(asked[0], BusRequest::Listen(dc(8, 15)));

    let (result, asked) = converse(|cbm| cbm.scan_bus_range(9, 8), |_, _| done());
    assert_eq!(result.unwrap().len(), 0);
    assert!(asked.is_empty());

    let (result, asked) = converse(|cbm| cbm.scan_bus(), |_, _| {
        BusReply::Failed(failure(TransportErrorKind::StatusValue, "nobody"))
    });
    assert_eq!(result.unwrap().len(), 0);
    assert_eq!(asked.len(), 23);
    assert_eq!(asked[22], BusRequest::Listen(dc(30, 15)));

    let (result, asked) = converse(|cbm| cbm.scan_bus_range(8, 9), |_, _| failed("usb"));
    assert_eq!(result.map(|_| ()), Err(transport("usb")));
    assert_eq!(asked.len(), 1);
}

#[test]
fn scan_refuses_a_number_that_is_not_on_the_bus_when_it_comes_to_it() {
    let nobody = |_: usize, _: &BusRequest| {
        BusReply::Failed(failure(TransportErrorKind::StatusValue, "nobody"))
    };
    let (result, asked) = converse(|cbm| cbm.scan_bus_range(29, 40), nobody);
    assert!(matches!(result, Err(Rs1541Error::Xum1541(e)) if e.kind == TransportErrorKind::Args));
    assert_eq!(asked, vec![BusRequest::Listen(dc(29, 15)), BusRequest::Listen(dc(30, 15))]);
    let (result, asked) = converse(|cbm| cbm.scan_bus_range(7, 9), nobody);
    assert!(matches!(result, Err(Rs1541Error::Xum1541(e)) if e.kind == TransportErrorKind::Args));
    assert!(asked.is_empty());
}

fn directory_stream(lines: &[(u16, &[u8])]) -> Vec<u8> {
    let mut stream = vec![0x01, 0x04];
    for (size, name) in lines {
        stream.extend_from_slice(&[0x01, 0x01, (size & 0xff) as u8, (size >> 8) as u8]);
        stream.extend_from_slice(name);
        stream.push(0);
    }
    stream.extend_from_slice(&[0, 0]);
    stream
}

/// A drive that gives the directory `stream` when a file is loaded from it.
fn drive_with_directory(
    status: &'static str,
    stream: Vec<u8>,
) -> impl FnMut(usize, &BusRequest) -> BusReply {
    let mut talking: Option<DeviceChannel> = None;
    let mut offset = 0usize;
    move |_, request| match request {
        BusRequest::Open(_) => {
            offset = 0;
            done()
        }
        BusRequest::Talk(channel) => {
            talking = Some(*channel);
            done()
        }
        BusRequest::ReadUntil { .. } => data(status.as_bytes(), talking.unwrap()),
        BusRequest::Read(limit) => {
            let end = (offset + limit).min(stream.len());
            let reply = data(&stream[offset..end], talking.unwrap());
            offset = end;
            reply
        }
        BusRequest::Write(bytes) => wrote(bytes.len()),
        _ => done(),
    }
}

fn small_disk() -> Vec<u8> {
    directory_stream(&[
        (0, b"\x12\"GAMES\xa0\xa0\xa0\"\xa0G1\xa02A"),
        (17, b"\xa0\xa0\"ELITE\"\xa0\xa0\xd0\xd2\xc7"),
        (647, b"BLOCKS\xa0FREE."),
    ])
}

#[test]
fn directory_is_loaded_and_parsed() {
    let (result, asked) =
        converse(|cbm| cbm.dir(8, None), drive_with_directory(OK, small_disk()));
    let listing = result.unwrap();
    assert_eq!(listing.header.name, "games");
    assert_eq!(listing.header.id, "g1");
    assert_eq!(listing.blocks_free, 647);
    assert_eq!(listing.num_files(), 1);
    assert_eq!(asked[1], BusRequest::Write(vec![b'$']));

    let (_, asked) = converse(|cbm| cbm.dir(8, Some(0)), drive_with_directory(OK, small_disk()));
    assert_eq!(asked[1], BusRequest::Write(vec![b'$', b'0']));
    let (_, asked) = converse(|cbm| cbm.dir(8, Some(1)), drive_with_directory(OK, small_disk()));
    assert_eq!(asked[1], BusRequest::Write(vec![b'$', b'1']));

    let (result, asked) = converse(|cbm| cbm.dir(8, Some(2)), drive_with_directory(OK, small_disk()));
    assert!(asked.is_empty());
    assert_eq!(result.map(|_| ()), Err(DeviceError::invalid_drive_num(8, 2)));
    let (result, asked) = converse(|cbm| cbm.dir(31, Some(2)), drive_with_directory(OK, small_disk()));
    assert!(asked.is_empty());
    assert_eq!(result.map(|_| ()), Err(DeviceError::invalid_drive_num(31, 2)));
    let (result, asked) = converse(|cbm| cbm.dir(31, Some(1)), drive_with_directory(OK, small_disk()));
    assert!(asked.is_empty());
    assert_eq!(
        result.map(|_| ()),
        Err(Rs1541Error::Validation {
            message: "Device num must be between 8 and 30".to_string()
        })
    );
    let (result, _) = converse(|cbm| cbm.dir(8, None), drive_with_directory(OK, vec![1, 4]));
    assert_eq!(
        result.map(|_| ()),
        Err(Rs1541Error::Parse { message: "Missing header line".to_string() })
    );
}

fn unit(device: u8, magic: u16) -> CbmDriveUnit {
    CbmDriveUnit::new(device, rs1541::cbmtype::CbmDeviceInfo::from_magic(magic, None))
}

#[test]
fn unit_is_made_of_a_device_that_is_there() {
    static M4040: [(u16, u8); 2] = [(0xff40, 0x20), (0xff41, 0xc3)];
    let (result, _) = converse(|cbm| CbmDriveUnit::try_from_bus(cbm, 8), drive_with_memory(&M4040));
    let unit = result.unwrap();
    assert_eq!(unit.device_number, 8);
    assert_eq!(unit.device_info.device_type, CbmDeviceType::Cbm4040);
    assert_eq!(unit.num_disk_drives(), 2);
    assert_eq!(unit.num_disk_drives_iter().collect::<Vec<u8>>(), vec![0, 1]);
    assert_eq!(unit.device_type_str(), "4040");
    assert_eq!(unit.description(), "4040");
    assert_eq!(unit.device_info().description, "4040");
    assert!(unit.is_responding());
    assert!(!unit.is_busy());
    assert_eq!(unit.clone().device_number, 8);

    let (result, asked) = converse(
        |cbm| CbmDriveUnit::try_from_bus(cbm, 9),
        |_, _| BusReply::Failed(failure(TransportErrorKind::StatusValue, "nobody")),
    );
    assert_eq!(result.map(|_| ()), Err(DeviceError::no_device(9)));
    assert_eq!(asked.len(), 1);
    let (result, asked) = converse(|cbm| CbmDriveUnit::try_from_bus(cbm, 3), |_, _| done());
    assert!(matches!(result, Err(Rs1541Error::Xum1541(_))));
    assert!(asked.is_empty());
}

#[test]
fn unit_is_busy_while_its_status_is_read() {
    let mut unit = unit(8, 0xaaaa);
    let step = unit.get_status(&Cbm::new());
    assert_eq!(step, Step::Request(BusRequest::Talk(dc(8, 15))));
    assert!(unit.is_busy());
    let (result, _) = converse(|cbm| unit.get_status(cbm), drive(OK, b""));
    assert_eq!(result.unwrap().number, 0);
    assert!(!unit.is_busy());
}

#[test]
fn every_drive_of_a_unit_is_initialised() {
    let mut dual = unit(8, 0xc320);
    let (results, asked) = converse(|cbm| dual.send_init(cbm, &vec![]), drive(OK, b""));
    assert_eq!(results.len(), 2);
    assert!(results.iter().all(|r| r.is_ok()));
    assert_eq!(asked.len(), 12);
    assert_eq!(asked[1], BusRequest::Write(vec![0x49, 0x30]));
    assert_eq!(asked[7], BusRequest::Write(vec![0x49, 0x31]));
    assert!(!dual.is_busy());

    let (results, _) =
        converse(|cbm| dual.send_init(cbm, &vec![]), drive("74,DRIVE NOT READY,00,00\r", b""));
    assert!(matches!(&results[0], Err(Rs1541Error::Status { status }) if status.number == 74));
    assert!(matches!(&results[1], Err(Rs1541Error::Status { .. })));
    let ignore = vec![CbmErrorNumber::DiskFull, CbmErrorNumber::DriveNotReady];
    let (results, _) =
        converse(|cbm| dual.send_init(cbm, &ignore), drive("74,DRIVE NOT READY,00,00\r", b""));
    assert!(matches!(&results[0], Ok(status) if status.number == 74));
    assert!(matches!(&results[1], Ok(_)));

    // A failure on the first drive does not keep the second from being tried.
    let (results, asked) = converse(
        |cbm| dual.send_init(cbm, &vec![]),
        |index, request| match (index, request) {
            (0, _) => failed("listen"),
            (_, BusRequest::ReadUntil { .. }) => data(b"00,OK,00,00\r", dc(8, 15)),
            _ => done(),
        },
    );
    assert_eq!(results[0], Err(transport("listen")));
    assert!(results[1].is_ok());
    assert_eq!(asked.len(), 7);

    let mut single = unit(8, 0xaaaa);
    let (results, asked) = converse(|cbm| single.send_init(cbm, &vec![]), drive(OK, b""));
    assert_eq!(results.len(), 1);
    assert_eq!(asked[1], BusRequest::Write(vec![0x49, 0x30]));
    let mut unknown = unit(8, 0);
    let (results, asked) = converse(|cbm| unknown.send_init(cbm, &vec![]), drive(OK, b""));
    assert!(results.is_empty());
    assert!(asked.is_empty());
    let mut nowhere = unit(5, 0xc320);
    let (results, asked) = converse(|cbm| nowhere.send_init(cbm, &vec![]), drive(OK, b""));
    assert_eq!(results.len(), 2);
    assert!(results.iter().all(|r| matches!(r, Err(Rs1541Error::Xum1541(_)))));
    assert!(asked.is_empty());
}

#[test]
fn directories_of_a_unit() {
    let single = unit(8, 0xaaaa);
    let (result, asked) =
        converse(|cbm| single.dir(cbm), drive_with_directory("00,OK,00,00\r", small_disk()));
    let (listings, status) = result.unwrap();
    assert_eq!(listings.len(), 1);
    assert_eq!(status.number, 0);
    // A unit with one drive is asked without a drive number.
    assert_eq!(asked[1], BusRequest::Write(vec![b'$']));
    assert_eq!(asked[asked.len() - 3..], [BusRequest::Talk(dc(8, 15)), read_status(), BusRequest::Untalk]);

    let dual = unit(9, 0xc320);
    let (result, asked) =
        converse(|cbm| dual.dir(cbm), drive_with_directory("00,OK,00,00\r", small_disk()));
    let (listings, _) = result.unwrap();
    assert_eq!(listings.len(), 2);
    let names: Vec<&BusRequest> = asked
        .iter()
        .filter(|r| matches!(r, BusRequest::Write(bytes) if bytes[0] == b'$'))
        .collect();
    assert_eq!(
        names,
        vec![&BusRequest::Write(vec![b'$', b'0']), &BusRequest::Write(vec![b'$', b'1'])]
    );
}

#[test]
fn directories_of_a_unit_with_a_drive_that_fails() {
    let dual = unit(9, 0xc320);
    // Both drives answer with an error status: the first is remembered, and
    // the status is not read again at the end.
    let mut count = 0;
    let (result, asked) = converse(
        |cbm| dual.dir(cbm),
        |_, request| match request {
            BusRequest::ReadUntil { .. } => {
                count += 1;
                if count == 1 {
                    data(b"74,DRIVE NOT READY,00,00\r", dc(9, 15))
                } else {
                    data(b"21,READ ERROR,01,00\r", dc(9, 15))
                }
            }
            _ => done(),
        },
    );
    let (listings, status) = result.unwrap();
    assert!(listings.is_empty());
    assert_eq!(status.number, 74);
    assert_eq!(asked.last(), Some(&BusRequest::Close(dc(9, 0))));

    // A drive that is not there is passed over, and the status is read at the end.
    let mut reads = 0;
    let (result, _) = converse(
        |cbm| dual.dir(cbm),
        |_, request| match request {
            BusRequest::ReadUntil { .. } => {
                reads += 1;
                if reads < 3 {
                    data(b"", dc(9, 15))
                } else {
                    data(b"00,OK,00,00\r", dc(9, 15))
                }
            }
            _ => done(),
        },
    );
    let (listings, status) = result.unwrap();
    assert!(listings.is_empty());
    assert_eq!(status.number, 0);

    // Any other failure ends it.
    let (result, asked) = converse(|cbm| dual.dir(cbm), |_, _| failed("usb"));
    assert_eq!(result.map(|_| ()), Err(transport("usb")));
    assert_eq!(asked.len(), 1);
    let (result, asked) = converse(|cbm| unit(3, 0xc320).dir(cbm), |_, _| done());
    assert!(asked.is_empty());
    assert!(matches!(result, Err(Rs1541Error::Validation { .. })));
    let (result, asked) = converse(|cbm| unit(3, 0).dir(cbm), |_, _| done());
    assert!(asked.is_empty());
    assert!(matches!(result, Err(Rs1541Error::Xum1541(_))));
}
