use openrgb2::{
    Color, Controller, ControllerData, ControllerModeKind, DeviceType, OpenRgbError,
    ProtocolOption, ReceivedMessage, WriteMessage, ZoneType,
};

fn sample_bytes() -> Vec<u8> {
    vec![
        3, 0, 0, 0, 18, 0, 84, 104, 101, 114, 109, 97, 108, 116, 97, 107, 101, 32, 82, 105,
        105, 110, 103, 0, 12, 0, 84, 104, 101, 114, 109, 97, 108, 116, 97, 107, 101, 0, 25, 0,
        84, 104, 101, 114, 109, 97, 108, 116, 97, 107, 101, 32, 82, 105, 105, 110, 103, 32, 68, 101,
        118, 105, 99, 101, 0, 1, 0, 0, 1, 0, 0, 19, 0, 72, 73, 68, 58, 32, 47, 100,
        101, 118, 47, 104, 105, 100, 114, 97, 119, 49, 48, 0, 8, 0, 0, 0, 0, 0, 7, 0,
        68, 105, 114, 101, 99, 116, 0, 24, 0, 0, 0, 32, 0, 0, 0, 0, 0, 0, 0, 0,
        0, 0, 0, 0, 0, 0, 0, 0, 0, 0, 0, 0, 0, 0, 0, 0, 0, 0, 0, 0,
        0, 0, 0, 0, 0, 0, 0, 0, 0, 0, 0, 1, 0, 0, 0, 0, 0, 7, 0, 83,
        116, 97, 116, 105, 99, 0, 25, 0, 0, 0, 64, 0, 0, 0, 0, 0, 0, 0, 0, 0,
        0, 0, 0, 0, 0, 0, 0, 0, 0, 0, 1, 0, 0, 0, 1, 0, 0, 0, 0, 0,
        0, 0, 0, 0, 0, 0, 0, 0, 0, 0, 2, 0, 0, 0, 1, 0, 0, 0, 0, 0,
        5, 0, 70, 108, 111, 119, 0, 0, 0, 0, 0, 1, 0, 0, 0, 3, 0, 0, 0, 0,
        0, 0, 0, 0, 0, 0, 0, 0, 0, 0, 0, 0, 0, 0, 0, 0, 0, 0, 0, 2,
        0, 0, 0, 0, 0, 0, 0, 0, 0, 0, 0, 0, 0, 0, 0, 0, 0, 9, 0, 83,
        112, 101, 99, 116, 114, 117, 109, 0, 4, 0, 0, 0, 1, 0, 0, 0, 3, 0, 0, 0,
        0, 0, 0, 0, 0, 0, 0, 0, 0, 0, 0, 0, 0, 0, 0, 0, 0, 0, 0, 0,
        2, 0, 0, 0, 0, 0, 0, 0, 0, 0, 0, 0, 0, 0, 0, 0, 0, 0, 7, 0,
        82, 105, 112, 112, 108, 101, 0, 8, 0, 0, 0, 33, 0, 0, 0, 3, 0, 0, 0, 0,
        0, 0, 0, 0, 0, 0, 0, 0, 0, 0, 0, 0, 0, 0, 0, 0, 0, 0, 0, 2,
        0, 0, 0, 0, 0, 0, 0, 0, 0, 0, 0, 1, 0, 0, 0, 0, 0, 6, 0, 66,
        108, 105, 110, 107, 0, 12, 0, 0, 0, 33, 0, 0, 0, 3, 0, 0, 0, 0, 0, 0,
        0, 0, 0, 0, 0, 0, 0, 0, 0, 0, 0, 0, 0, 0, 0, 0, 0, 2, 0, 0,
        0, 0, 0, 0, 0, 0, 0, 0, 0, 1, 0, 0, 0, 0, 0, 6, 0, 80, 117, 108,
        115, 101, 0, 16, 0, 0, 0, 33, 0, 0, 0, 3, 0, 0, 0, 0, 0, 0, 0, 0,
        0, 0, 0, 0, 0, 0, 0, 0, 0, 0, 0, 0, 0, 0, 0, 2, 0, 0, 0, 0,
        0, 0, 0, 0, 0, 0, 0, 1, 0, 0, 0, 0, 0, 5, 0, 87, 97, 118, 101, 0,
        20, 0, 0, 0, 33, 0, 0, 0, 3, 0, 0, 0, 0, 0, 0, 0, 0, 0, 0, 0,
        0, 0, 0, 0, 0, 0, 0, 0, 0, 0, 0, 0, 2, 0, 0, 0, 0, 0, 0, 0,
        0, 0, 0, 0, 1, 0, 0, 0, 0, 0, 5, 0, 16, 0, 82, 105, 105, 110, 103, 32,
        67, 104, 97, 110, 110, 101, 108, 32, 49, 0, 1, 0, 0, 0, 0, 0, 0, 0, 20, 0,
        0, 0, 0, 0, 0, 0, 0, 0, 16, 0, 82, 105, 105, 110, 103, 32, 67, 104, 97, 110,
        110, 101, 108, 32, 50, 0, 1, 0, 0, 0, 0, 0, 0, 0, 20, 0, 0, 0, 0, 0,
        0, 0, 0, 0, 16, 0, 82, 105, 105, 110, 103, 32, 67, 104, 97, 110, 110, 101, 108, 32,
        51, 0, 1, 0, 0, 0, 0, 0, 0, 0, 20, 0, 0, 0, 0, 0, 0, 0, 0, 0,
        16, 0, 82, 105, 105, 110, 103, 32, 67, 104, 97, 110, 110, 101, 108, 32, 52, 0, 1, 0,
        0, 0, 0, 0, 0, 0, 20, 0, 0, 0, 0, 0, 0, 0, 0, 0, 16, 0, 82, 105,
        105, 110, 103, 32, 67, 104, 97, 110, 110, 101, 108, 32, 53, 0, 1, 0, 0, 0, 0, 0,
        0, 0, 20, 0, 0, 0, 0, 0, 0, 0, 0, 0, 0, 0, 0, 0,
    ]
}

fn sample_message() -> WriteMessage {
    // this message is protocol version 3
    let mut buf = WriteMessage::new(3);
    buf.write_u32(760);
    buf.write_slice(&sample_bytes());
    buf
}

#[test]
fn test_read_001() {
    let buf = sample_message();
    let mut msg = buf.to_received_msg();
    let c_data = msg.read_value::<ControllerData>().expect("the sample decodes");

    assert_eq!(c_data.name, "Thermaltake Riing".to_string());
    assert_eq!(c_data.vendor, "Thermaltake".to_string());
    assert_eq!(c_data.description, "Thermaltake Riing Device".to_string());
    assert_eq!(c_data.version, "".to_string());
    assert_eq!(c_data.serial, "".to_string());
    assert_eq!(c_data.location, "HID: /dev/hidraw10".to_string());
    assert_eq!(c_data.active_mode, 0);
    assert_eq!(c_data.modes.len(), 8);
    assert_eq!(c_data.zones.len(), 5);
    assert_eq!(c_data.leds.len(), 0);
    assert_eq!(c_data.colors.len(), 0);
    assert_eq!(c_data.led_alt_names, ProtocolOption::UnsupportedVersion);
    assert_eq!(c_data.flags, ProtocolOption::UnsupportedVersion);
}

#[test]
fn sample_consumes_every_byte() {
    let buf = sample_message();
    assert_eq!(buf.len(), 760);
    let mut msg = buf.to_received_msg();
    assert_eq!(msg.available(), 760);
    let c_data = msg.read_value::<ControllerData>().expect("the sample decodes");
    assert_eq!(msg.available(), 0);
    assert_eq!(c_data.device_type, DeviceType::Cooler);
    assert_eq!(c_data.id, u32::MAX);
    assert_eq!(c_data.num_leds, 0);
    assert!(c_data.is_well_formed());
}

#[test]
fn sample_modes_and_zones_are_indexed() {
    let buf = sample_message();
    let mut msg = buf.to_received_msg();
    let c_data = msg.read_value::<ControllerData>().expect("the sample decodes");
    let names: Vec<&str> = c_data.modes.iter().map(|m| m.name()).collect();
    assert_eq!(
        names,
        vec!["Direct", "Static", "Flow", "Spectrum", "Ripple", "Blink", "Pulse", "Wave"]
    );
    for (i, mode) in c_data.modes.iter().enumerate() {
        assert_eq!(mode.index() as usize, i);
    }
    for (i, zone) in c_data.zones.iter().enumerate() {
        assert_eq!(zone.id(), i);
        assert_eq!(zone.name(), format!("Riing Channel {}", i + 1));
        assert_eq!(zone.zone_type(), ZoneType::Linear);
        assert_eq!(zone.leds_min(), 0);
        assert_eq!(zone.leds_max(), 20);
        assert_eq!(zone.leds_count(), 0);
        assert!(zone.segments().is_none());
        assert!(zone.matrix().is_none());
    }
    let flow = &c_data.modes[2];
    assert_eq!(flow.value(), 0);
    assert!(flow.flags().has_speed());
    assert!(!flow.flags().has_brightness());
    assert_eq!(flow.speed_min(), Some(3));
    assert_eq!(flow.speed_max(), Some(0));
    assert_eq!(flow.speed(), Some(2));
    assert_eq!(flow.brightness(), None);
    assert_eq!(flow.direction(), None);
    let fixed = &c_data.modes[1];
    assert_eq!(fixed.value(), 25);
    assert_eq!(fixed.speed(), None);
    assert_eq!(fixed.colors(), &[Color::new(0, 0, 0)][..]);
    assert_eq!(fixed.colors_min(), 1);
    assert_eq!(fixed.colors_max(), 1);
}

#[test]
fn active_mode_of_sample_is_first_mode() {
    let buf = sample_message();
    let mut msg = buf.to_received_msg();
    let c_data = msg.read_value::<ControllerData>().expect("the sample decodes");
    assert_eq!(c_data.active_mode, 0);
    assert_eq!(c_data.modes.len(), 8);
    let first = c_data.modes[0].name().to_string();
    let active = c_data.active_mode().expect("there is an active mode");
    assert_eq!(active.name(), first);
    assert_eq!(active.name(), "Direct");

    let controller = Controller::new(7, c_data).expect("the sample is a snapshot");
    let mode = controller.active_mode();
    assert!(mode.is_active());
    assert_eq!(mode.name(), "Direct");
    assert_eq!(mode.kind(), ControllerModeKind::Direct);
    assert_eq!(controller.id(), 7);
}

#[test]
fn truncated_sample_is_malformed() {
    let bytes = sample_bytes();
    for cut in [0usize, 3, 4, 10, 100, 400, 700, 754, 755] {
        let mut buf = WriteMessage::new(3);
        buf.write_u32(760);
        buf.write_slice(&bytes[..cut]);
        let mut msg = buf.to_received_msg();
        let before = msg.available();
        let res = msg.read_value::<ControllerData>();
        assert_eq!(res.err(), Some(OpenRgbError::MalformedMessage), "cut at {}", cut);
        assert_eq!(msg.available(), before);
    }
    let mut msg = ReceivedMessage::new(&[1, 2, 3], 3);
    assert_eq!(msg.read_value::<ControllerData>().err(), Some(OpenRgbError::MalformedMessage));
}

#[test]
fn sample_round_trips() {
    let buf = sample_message();
    let mut msg = buf.to_received_msg();
    let c_data = msg.read_value::<ControllerData>().expect("the sample decodes");
    let mut out = WriteMessage::new(3);
    out.write_value(&c_data).expect("the sample can be spelled");
    assert_eq!(out.as_bytes(), buf.as_bytes());
    let mut again = out.to_received_msg();
    let decoded = again.read_value::<ControllerData>().expect("the copy decodes");
    assert_eq!(decoded, c_data);
}

#[test]
fn size_that_announces_more_than_is_there_is_malformed() {
    let bytes = sample_bytes();
    let mut buf = WriteMessage::new(3);
    buf.write_u32(761);
    buf.write_slice(&bytes);
    let mut msg = buf.to_received_msg();
    assert_eq!(msg.read_value::<ControllerData>().err(), Some(OpenRgbError::MalformedMessage));
    assert_eq!(msg.available(), 760);
    // with a byte more behind the record the same size is met
    buf.write_u8(0);
    let mut msg = buf.to_received_msg();
    assert!(msg.read_value::<ControllerData>().is_ok());
    assert_eq!(msg.available(), 1);
    // a size that announces less is not looked at further
    let mut buf = WriteMessage::new(3);
    buf.write_u32(0);
    buf.write_slice(&bytes);
    let mut msg = buf.to_received_msg();
    assert!(msg.read_value::<ControllerData>().is_ok());
}
