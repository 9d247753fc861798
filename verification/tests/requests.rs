use openrgb2::{
    Color, CommandError, Controller, ControllerData, DeviceType, LedData, ModeData, ModeFlags,
    OpenRgbError, OpenRgbPlugin, PluginData, ProtocolOption, Request, SegmentData, WriteMessage,
    ZoneData, ZoneType,
};

fn text(s: &str) -> String {
    s.to_string()
}

fn error(e: CommandError) -> OpenRgbError {
    OpenRgbError::CommandError(e)
}

const BLACK: Color = Color { r: 0, g: 0, b: 0 };
const RED: Color = Color { r: 255, g: 0, b: 0 };
const GREEN: Color = Color { r: 0, g: 255, b: 0 };

/// A controller with a zone of 3 and a zone of 6 LEDs, which can be resized
/// to between 2 and 10; the second has the segment 2..6 from version 4 on.
fn controller(protocol: u32) -> Controller {
    let segments =
        if protocol >= 4 { Some(vec![SegmentData::new(text("tail"), 2, 4)]) } else { None };
    let none = if protocol >= 4 { Some(vec![]) } else { None };
    let hand_made = ControllerData {
        device_type: DeviceType::Light,
        name: text("Lamp"),
        vendor: text(""),
        description: text(""),
        version: text(""),
        serial: text(""),
        location: text(""),
        active_mode: 0,
        modes: vec![ModeData::new(text("Direct"), 0, ModeFlags::from_bits(0x20))],
        zones: vec![
            ZoneData::new(text("a"), ZoneType::Linear, 3, 3, 3, none).unwrap(),
            ZoneData::new(text("b"), ZoneType::Linear, 2, 10, 6, segments).unwrap(),
        ],
        leds: (0..9).map(|i| LedData::new(format!("{}", i), 0)).collect(),
        colors: vec![BLACK; 9],
        led_alt_names: ProtocolOption::UnsupportedVersion,
        flags: ProtocolOption::UnsupportedVersion,
        id: 0,
        num_leds: 0,
    };
    let mut buf = WriteMessage::new(protocol.min(4));
    buf.write_value(&hand_made).unwrap();
    let mut msg = buf.to_received_msg();
    Controller::new(2, msg.read_value::<ControllerData>().unwrap()).unwrap()
}

#[test]
fn single_led_of_a_zone() {
    let c = controller(4);
    let zone = c.get_zone(1).unwrap();
    assert_eq!(
        zone.set_led(0, RED),
        Ok(Request::UpdateSingleLed { controller_id: 2, led_id: 3, color: RED })
    );
    assert_eq!(
        zone.set_led(5, RED),
        Ok(Request::UpdateSingleLed { controller_id: 2, led_id: 8, color: RED })
    );
    assert_eq!(
        zone.set_led(6, RED),
        Err(error(CommandError::IndexOutOfBounds { index: 6, len: 6 }))
    );
}

#[test]
fn single_led_of_a_segment() {
    let c = controller(4);
    let zone = c.get_zone(1).unwrap();
    let segment = zone.get_segment(0).unwrap();
    assert_eq!(
        segment.set_led(0, GREEN),
        Ok(Request::UpdateSingleLed { controller_id: 2, led_id: 5, color: GREEN })
    );
    assert_eq!(
        segment.set_led(3, GREEN),
        Ok(Request::UpdateSingleLed { controller_id: 2, led_id: 8, color: GREEN })
    );
    assert_eq!(
        segment.set_led(4, GREEN),
        Err(error(CommandError::IndexOutOfBounds { index: 4, len: 4 }))
    );
}

#[test]
fn leds_of_a_zone_are_padded_with_black() {
    let c = controller(4);
    let zone = c.get_zone(1).unwrap();
    assert_eq!(
        zone.set_leds(&[RED, GREEN]),
        Ok(Request::UpdateZoneLeds {
            controller_id: 2,
            zone_id: 1,
            colors: vec![RED, GREEN, BLACK, BLACK, BLACK, BLACK]
        })
    );
    assert_eq!(
        zone.set_leds(&[]),
        Ok(Request::UpdateZoneLeds { controller_id: 2, zone_id: 1, colors: vec![BLACK; 6] })
    );
    assert_eq!(
        zone.set_leds(&[RED; 6]),
        Ok(Request::UpdateZoneLeds { controller_id: 2, zone_id: 1, colors: vec![RED; 6] })
    );
    assert_eq!(
        zone.set_all_leds(GREEN),
        Request::UpdateZoneLeds { controller_id: 2, zone_id: 1, colors: vec![GREEN; 6] }
    );
}

#[test]
fn more_colors_than_leds_of_a_zone_are_refused() {
    let c = controller(4);
    let zone = c.get_zone(1).unwrap();
    assert_eq!(
        zone.set_leds(&[RED; 7]),
        Err(error(CommandError::RangeOutOfBounds { start: 0, count: 7, len: 6 }))
    );
    assert_eq!(
        zone.set_leds(&[RED; 100]),
        Err(error(CommandError::RangeOutOfBounds { start: 0, count: 100, len: 6 }))
    );
    let short = c.get_zone(0).unwrap();
    assert_eq!(
        short.set_leds(&[GREEN; 4]),
        Err(error(CommandError::RangeOutOfBounds { start: 0, count: 4, len: 3 }))
    );
    assert_eq!(
        short.set_leds(&[GREEN; 3]),
        Ok(Request::UpdateZoneLeds { controller_id: 2, zone_id: 0, colors: vec![GREEN; 3] })
    );
}

#[test]
fn all_leds_of_a_segment_blacken_the_rest_of_the_zone() {
    let c = controller(4);
    let zone = c.get_zone(1).unwrap();
    let segment = zone.get_segment(0).unwrap();
    assert_eq!(
        segment.set_all_leds(RED),
        Request::UpdateZoneLeds {
            controller_id: 2,
            zone_id: 1,
            colors: vec![BLACK, BLACK, RED, RED, RED, RED]
        }
    );
}

#[test]
fn add_segment_rules() {
    let c = controller(4);
    let zone = c.get_zone(1).unwrap();
    assert_eq!(
        zone.add_segment(text("new"), 1, 5),
        Ok(Request::AddSegment {
            controller_id: 2,
            zone_id: 1,
            segment: SegmentData::new(text("new"), 1, 5)
        })
    );
    assert!(zone.add_segment(text("none"), 6, 0).is_ok());
    assert_eq!(
        zone.add_segment(text("new"), 2, 5),
        Err(error(CommandError::RangeOutOfBounds { start: 2, count: 5, len: 6 }))
    );
    assert_eq!(
        zone.add_segment(text("new"), usize::MAX, 2),
        Err(error(CommandError::RangeOutOfBounds { start: usize::MAX, count: 2, len: 6 }))
    );
    assert_eq!(zone.clear_segments(), Ok(Request::ClearSegments { controller_id: 2 }));
    let old = controller(3);
    let zone = old.get_zone(1).unwrap();
    assert_eq!(
        zone.add_segment(text("new"), 0, 1),
        Err(error(CommandError::SegmentsUnsupported))
    );
    assert_eq!(zone.clear_segments(), Err(error(CommandError::SegmentsUnsupported)));
}

#[test]
fn resize_rules() {
    let c = controller(4);
    let zone = c.get_zone(1).unwrap();
    for size in [2usize, 6, 10] {
        assert_eq!(
            zone.resize(size),
            Ok(Request::ResizeZone { controller_id: 2, zone_id: 1, new_size: size as u32 })
        );
    }
    for size in [0usize, 1, 11, usize::MAX] {
        assert_eq!(
            zone.resize(size),
            Err(error(CommandError::SizeOutOfRange { min_size: 2, max_size: 10, size }))
        );
    }
    let fixed = c.get_zone(0).unwrap();
    assert!(fixed.resize(3).is_ok());
    assert!(fixed.resize(4).is_err());
}

#[test]
fn payloads() {
    let c = controller(4);
    let request = c.request_data();
    assert_eq!(request, Request::RequestControllerData { controller_id: 2 });
    assert_eq!(request.packet_id(), 1);
    assert_eq!(request.controller_id(), 2);
    assert_eq!(request.payload(0), Ok(vec![]));
    assert_eq!(request.payload(4), Ok(vec![4, 0, 0, 0]));

    let request = Request::ResizeZone { controller_id: 2, zone_id: 1, new_size: 300 };
    assert_eq!(request.packet_id(), 1000);
    assert_eq!(request.payload(4), Ok(vec![1, 0, 0, 0, 44, 1, 0, 0]));

    let request = Request::ClearSegments { controller_id: 2 };
    assert_eq!(request.packet_id(), 1001);
    assert_eq!(request.payload(4), Ok(vec![]));

    let request = Request::AddSegment {
        controller_id: 2,
        zone_id: 1,
        segment: SegmentData::new(text("s"), 2, 3),
    };
    assert_eq!(request.packet_id(), 1002);
    assert_eq!(
        request.payload(4),
        Ok(vec![20, 0, 0, 0, 1, 0, 0, 0, 2, 0, b's', 0, 2, 0, 0, 0, 3, 0, 0, 0])
    );

    let request = Request::UpdateLeds { controller_id: 2, colors: vec![RED, GREEN] };
    assert_eq!(request.packet_id(), 1050);
    assert_eq!(
        request.payload(4),
        Ok(vec![14, 0, 0, 0, 2, 0, 255, 0, 0, 0, 0, 255, 0, 0])
    );

    let request = Request::UpdateZoneLeds { controller_id: 2, zone_id: 7, colors: vec![GREEN] };
    assert_eq!(request.packet_id(), 1051);
    assert_eq!(
        request.payload(4),
        Ok(vec![14, 0, 0, 0, 7, 0, 0, 0, 1, 0, 0, 255, 0, 0])
    );

    let request = Request::UpdateSingleLed { controller_id: 2, led_id: 258, color: RED };
    assert_eq!(request.packet_id(), 1052);
    assert_eq!(request.payload(4), Ok(vec![2, 1, 0, 0, 255, 0, 0, 0]));

    let mode = ModeData::new(text("M"), 1, ModeFlags::from_bits(0));
    let mut spelled = WriteMessage::new(2);
    spelled.write_value(&mode).unwrap();
    let request = Request::UpdateMode { controller_id: 2, mode };
    assert_eq!(request.packet_id(), 1101);
    let payload = request.payload(2).unwrap();
    assert_eq!(payload.len(), 4 + 4 + spelled.len());
    assert_eq!(&payload[..8], &[payload.len() as u8, 0, 0, 0, 0, 0, 0, 0][..]);
    assert_eq!(&payload[8..], spelled.as_bytes());
}

#[test]
fn requests_that_cannot_be_spelled() {
    let not_encodable = Err(error(CommandError::NotEncodable));
    let request = Request::UpdateLeds { controller_id: 2, colors: vec![RED; 0x10000] };
    assert_eq!(request.payload(4), not_encodable);
    let request =
        Request::UpdateZoneLeds { controller_id: 2, zone_id: 0, colors: vec![RED; 0x10000] };
    assert_eq!(request.payload(4), not_encodable);
    let request = Request::UpdateLeds { controller_id: 2, colors: vec![RED; 0xFFFF] };
    assert_eq!(request.payload(4).map(|p| p.len()), Ok(4 + 2 + 4 * 0xFFFF));
    let request = Request::UpdateSingleLed { controller_id: 2, led_id: 0x8000_0000, color: RED };
    assert_eq!(request.payload(4), not_encodable);
    let request = Request::UpdateSingleLed { controller_id: 2, led_id: 0x7FFF_FFFF, color: RED };
    assert_eq!(request.payload(4), Ok(vec![255, 255, 255, 127, 255, 0, 0, 0]));
    let request = Request::AddSegment {
        controller_id: 2,
        zone_id: 1,
        segment: SegmentData::new("n".repeat(0x10000), 2, 3),
    };
    assert_eq!(request.payload(4), not_encodable);
    let mode = ModeData::new("n".repeat(0x10000), 1, ModeFlags::from_bits(0));
    assert_eq!(Request::UpdateMode { controller_id: 2, mode }.payload(4), not_encodable);
}

#[test]
fn plugins_go_by_name() {
    for (name, plugin) in [
        ("OpenRGB Effects Plugin", OpenRgbPlugin::Effects),
        ("Visual Map", OpenRgbPlugin::VisualMap),
        ("Hardware Sync", OpenRgbPlugin::HardwareSync),
        ("Fan Sync", OpenRgbPlugin::FanSync),
        ("E131 Receiver", OpenRgbPlugin::E131Receiver),
        ("Scheduler", OpenRgbPlugin::Scheduler),
        ("scheduler", OpenRgbPlugin::Unknown(text("scheduler"))),
        ("", OpenRgbPlugin::Unknown(text(""))),
        ("Some Other Plugin", OpenRgbPlugin::Unknown(text("Some Other Plugin"))),
    ] {
        assert_eq!(plugin.name(), name);
        assert_eq!(OpenRgbPlugin::from_name(name), plugin);
        let record = PluginData::new(text(name), text("d"), text("v"), 0, 1);
        let made = OpenRgbPlugin::from(record);
        assert_eq!(made, plugin);
        // no name is lost or changed
        assert_eq!(made.name(), name);
    }
}
