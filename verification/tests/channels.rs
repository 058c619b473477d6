use rs1541::channel::{
    CbmChannelManager, CbmChannelPurpose, DeviceChannel, CBM_CHANNEL_CTRL, CBM_CHANNEL_LOAD,
    DEVICE_MAX_NUM, DEVICE_MIN_NUM,
};
use rs1541::error::{Rs1541Error, TransportErrorKind};

#[test]
fn device_channel_accepts_the_bus_range() {
    let dc = DeviceChannel::new(8, 15).unwrap();
    assert_eq!(dc.device(), 8);
    assert_eq!(dc.channel(), 15);
    let dc = DeviceChannel::new(30, 0).unwrap();
    assert_eq!(dc.device(), 30);
    assert_eq!(dc.channel(), 0);
    assert_eq!(dc.to_string(), "Device: 30 Channel: 0");
    assert_eq!(dc.control(), DeviceChannel::new(30, 15).unwrap());
    assert_eq!(DEVICE_MIN_NUM, 8);
    assert_eq!(DEVICE_MAX_NUM, 30);
    assert_eq!(CBM_CHANNEL_CTRL, 15);
    assert_eq!(CBM_CHANNEL_LOAD, 0);
}

#[test]
fn device_channel_refuses_what_is_not_on_the_bus() {
    for (device, channel) in [(7u8, 0u8), (31, 0), (0, 15), (255, 15), (8, 16), (30, 255)] {
        match DeviceChannel::new(device, channel) {
            Err(Rs1541Error::Xum1541(e)) => {
                assert_eq!(e.kind, TransportErrorKind::Args);
                assert!(!e.message.is_empty());
            }
            other => panic!("{device}/{channel} gave {other:?}"),
        }
    }
}

#[test]
fn refusal_names_the_number_that_is_out_of_range() {
    let text = |device: u8, channel: u8| match DeviceChannel::new(device, channel) {
        Err(Rs1541Error::Xum1541(e)) => e.message,
        other => panic!("{other:?}"),
    };
    assert_eq!(
        text(7, 16),
        "xum1541 library called with invalid arguments: Device number 7 is less than minimum 8"
    );
    assert_eq!(
        text(0, 0),
        "xum1541 library called with invalid arguments: Device number 0 is less than minimum 8"
    );
    assert_eq!(
        text(31, 0),
        "xum1541 library called with invalid arguments: Device number 31 is greater than maximum 30"
    );
    assert_eq!(
        text(255, 255),
        "xum1541 library called with invalid arguments: Device number 255 is greater than maximum 30"
    );
    assert_eq!(
        text(8, 16),
        "xum1541 library called with invalid arguments: Channel number 16 is greater than maximum 15"
    );
    assert_eq!(
        text(30, 255),
        "xum1541 library called with invalid arguments: Channel number 255 is greater than maximum 15"
    );
}

#[test]
fn control_channel_is_given_for_reset_only() {
    let mut manager = CbmChannelManager::new();
    assert_eq!(manager.allocate(8, 0, CbmChannelPurpose::Reset), Some(15));
    // The control channel is taken now.
    assert_eq!(manager.allocate(8, 0, CbmChannelPurpose::Reset), None);
    for purpose in [
        CbmChannelPurpose::Directory,
        CbmChannelPurpose::FileRead,
        CbmChannelPurpose::FileWrite,
        CbmChannelPurpose::Command,
    ] {
        let channel = manager.allocate(8, 0, purpose).unwrap();
        assert!(channel < 15);
    }
}

#[test]
fn channels_are_given_out_from_the_lowest_and_never_twice() {
    let mut manager = CbmChannelManager::new();
    let mut given = Vec::new();
    for expected in 0..15u8 {
        let channel = manager.allocate(8, 0, CbmChannelPurpose::FileRead);
        assert_eq!(channel, Some(expected));
        assert!(!given.contains(&expected));
        given.push(expected);
    }
    // All fifteen are in use; the control channel is not given for a file.
    assert_eq!(manager.allocate(8, 0, CbmChannelPurpose::FileRead), None);
    assert_eq!(manager.allocate(8, 0, CbmChannelPurpose::Command), None);
    assert_eq!(manager.allocate(8, 0, CbmChannelPurpose::Reset), Some(15));
}

#[test]
fn reset_sets_every_channel_free_and_twice_is_as_once() {
    let mut manager = CbmChannelManager::new();
    for _ in 0..15 {
        manager.allocate(8, 0, CbmChannelPurpose::Directory);
    }
    manager.allocate(8, 0, CbmChannelPurpose::Reset);
    manager.reset();
    manager.reset();
    assert_eq!(manager.allocate(8, 0, CbmChannelPurpose::Reset), Some(15));
    for expected in 0..15u8 {
        assert_eq!(manager.allocate(8, 0, CbmChannelPurpose::Command), Some(expected));
    }
    manager.reset();
    let copy = manager.clone();
    let mut copy = copy;
    assert_eq!(copy.allocate(8, 0, CbmChannelPurpose::Command), Some(0));
    assert_eq!(manager.allocate(8, 0, CbmChannelPurpose::Command), Some(0));
}
