use openrgb2::{
    Color, ColorMode, CommandError, Controller, ControllerData, ControllerFlags,
    ControllerModeKind, DeviceType, LedData, ModeData, ModeFlags, OpenRgbError, ProtocolOption,
    ReceivedMessage, SegmentData, WriteMessage, ZoneData, ZoneType,
};

fn text(s: &str) -> String {
    s.to_string()
}

fn index_error(index: usize, len: usize) -> OpenRgbError {
    OpenRgbError::CommandError(CommandError::IndexOutOfBounds { index, len })
}

/// A controller with two zones, of 8 and of 4 LEDs; the second has two
/// segments from protocol version 4 on. `names` of the 12 LEDs have a record.
fn two_zones(protocol: u32, names: usize) -> ControllerData {
    let segments = if protocol >= 4 {
        Some(vec![SegmentData::new(text("low"), 0, 1), SegmentData::new(text("high"), 1, 3)])
    } else {
        None
    };
    let listed = if protocol >= 4 { Some(vec![]) } else { None };
    let hand_made = ControllerData {
        device_type: DeviceType::LedStrip,
        name: text("Strip"),
        vendor: text("Acme"),
        description: text("two zones"),
        version: text("1.2"),
        serial: text("0001"),
        location: text("USB"),
        active_mode: 1,
        modes: vec![
            ModeData::new(text("Direct"), 0, ModeFlags::from_bits(0x20)),
            ModeData::new(text("static"), 1, ModeFlags::from_bits(0x40)),
            ModeData::new(text("Rainbow"), 2, ModeFlags::from_bits(0x01)),
        ],
        zones: vec![
            ZoneData::new(text("front"), ZoneType::Linear, 1, 16, 8, listed).unwrap(),
            ZoneData::new(text("back"), ZoneType::Linear, 4, 4, 4, segments).unwrap(),
        ],
        leds: (0..names).map(|i| LedData::new(format!("led {}", i), i as u32)).collect(),
        colors: (0..12).map(|i| Color::new(i, 2 * i, 100)).collect(),
        led_alt_names: if protocol >= 5 {
            ProtocolOption::Supported(vec![text("alt")])
        } else {
            ProtocolOption::UnsupportedVersion
        },
        flags: if protocol >= 5 {
            ProtocolOption::Supported(ControllerFlags::from_bits(1))
        } else {
            ProtocolOption::UnsupportedVersion
        },
        id: 0,
        num_leds: 0,
    };
    let mut buf = WriteMessage::new(protocol);
    buf.write_value(&hand_made).expect("the controller can be spelled");
    let mut msg = buf.to_received_msg();
    let decoded = msg.read_value::<ControllerData>().expect("the controller decodes");
    assert_eq!(msg.available(), 0);
    decoded
}

#[test]
fn number_of_leds_is_the_sum_of_the_zones() {
    for protocol in [0u32, 3, 4, 5] {
        let data = two_zones(protocol, 12);
        let sum: usize = data.zones.iter().map(|z| z.leds_count()).sum();
        assert_eq!(sum, 12);
        assert_eq!(data.num_leds, sum);
        assert!(data.is_well_formed());
        // whatever the number of records
        let data = two_zones(protocol, 0);
        assert_eq!(data.num_leds, 12);
        assert_eq!(data.leds.len(), 0);
    }
}

#[test]
fn segments_lie_inside_their_zones() {
    let data = two_zones(4, 12);
    for zone in &data.zones {
        for segment in zone.segments().unwrap() {
            assert!(segment.offset() as usize + segment.led_count() as usize <= zone.leds_count());
        }
    }
}

#[test]
fn decoded_controller_round_trips_at_every_version() {
    for protocol in [0u32, 1, 2, 3, 4, 5, 6] {
        let data = two_zones(protocol, 5);
        let mut buf = WriteMessage::new(protocol);
        buf.write_value(&data).unwrap();
        let size = u32::from_le_bytes([
            buf.as_bytes()[0],
            buf.as_bytes()[1],
            buf.as_bytes()[2],
            buf.as_bytes()[3],
        ]);
        assert_eq!(size as usize, buf.len());
        let mut msg = buf.to_received_msg();
        let again = msg.read_value::<ControllerData>().unwrap();
        assert_eq!(again, data);
        assert_eq!(msg.available(), 0);
        assert_eq!(again.led_alt_names.is_supported(), protocol >= 5);
        assert_eq!(again.flags.is_supported(), protocol >= 5);
        assert_eq!(again.zones[1].segments().is_some(), protocol >= 4);
    }
}

#[test]
fn controller_that_is_not_a_snapshot_is_refused() {
    let mut data = two_zones(4, 12);
    data.num_leds = 11;
    assert!(!data.is_well_formed());
    assert_eq!(Controller::new(1, data).err(), Some(OpenRgbError::MalformedMessage));

    let mut data = two_zones(4, 12);
    data.colors.pop();
    assert!(data.is_well_formed());
    assert_eq!(Controller::new(1, data).err(), Some(OpenRgbError::MalformedMessage));

    let mut data = two_zones(4, 12);
    data.active_mode = 3;
    assert!(!data.is_well_formed());
    assert!(data.active_mode().is_none());
    assert_eq!(Controller::new(1, data).err(), Some(OpenRgbError::MalformedMessage));

    let mut data = two_zones(4, 12);
    data.active_mode = -1;
    assert!(data.active_mode().is_none());
    assert_eq!(Controller::new(1, data).err(), Some(OpenRgbError::MalformedMessage));

    let mut data = two_zones(4, 12);
    data.zones.swap(0, 1);
    assert!(!data.is_well_formed());

    let mut data = two_zones(4, 12);
    data.modes.swap(0, 2);
    assert!(!data.is_well_formed());
}

#[test]
fn active_mode_that_is_no_mode_is_malformed() {
    let mut data = two_zones(3, 12);
    data.active_mode = 3;
    let mut buf = WriteMessage::new(3);
    assert_eq!(
        buf.write_value(&data),
        Err(OpenRgbError::CommandError(CommandError::NotEncodable))
    );
    assert_eq!(buf.len(), 0);
    // the same record with the position changed on the wire
    data.active_mode = 2;
    buf.write_value(&data).unwrap();
    let mut bytes = buf.as_bytes().to_vec();
    let at = 4 + 4 + (2 + 6) + (2 + 5) + (2 + 10) + (2 + 4) + (2 + 5) + (2 + 4) + 2;
    assert_eq!(&bytes[at..at + 4], &[2, 0, 0, 0][..]);
    bytes[at] = 3;
    let mut msg = ReceivedMessage::new(&bytes, 3);
    assert_eq!(msg.read_value::<ControllerData>(), Err(OpenRgbError::MalformedMessage));
    bytes[at] = 0xFF;
    bytes[at + 1] = 0xFF;
    bytes[at + 2] = 0xFF;
    bytes[at + 3] = 0xFF;
    let mut msg = ReceivedMessage::new(&bytes, 3);
    assert_eq!(msg.read_value::<ControllerData>(), Err(OpenRgbError::MalformedMessage));
}

#[test]
fn zone_offsets() {
    let controller = Controller::new(3, two_zones(4, 12)).unwrap();
    assert_eq!(controller.id(), 3);
    assert_eq!(controller.data().id, 3);
    assert_eq!(controller.name(), "Strip");
    assert_eq!(controller.num_leds(), 12);
    assert_eq!(controller.get_zone_led_offset(0), Ok(0));
    assert_eq!(controller.get_zone_led_offset(1), Ok(8));
    assert_eq!(controller.get_zone_led_offset(2), Err(index_error(2, 2)));
    assert_eq!(controller.zone_range(0), Ok((0, 8)));
    assert_eq!(controller.zone_range(1), Ok((8, 4)));
    assert_eq!(controller.zone_range(7), Err(index_error(7, 2)));
    let offsets: Vec<usize> = controller.zone_iter().iter().map(|z| z.offset()).collect();
    assert_eq!(offsets, vec![0, 8]);
}

#[test]
fn segment_offsets() {
    let controller = Controller::new(3, two_zones(4, 12)).unwrap();
    assert_eq!(controller.segment_range(1, 0), Ok((8, 1)));
    assert_eq!(controller.segment_range(1, 1), Ok((9, 3)));
    assert_eq!(controller.segment_range(1, 2), Err(index_error(2, 2)));
    assert_eq!(controller.segment_range(0, 0), Err(index_error(0, 0)));
    assert_eq!(controller.segment_range(2, 0), Err(index_error(2, 2)));
    let old = Controller::new(3, two_zones(3, 12)).unwrap();
    assert_eq!(
        old.segment_range(1, 0),
        Err(OpenRgbError::CommandError(CommandError::SegmentsUnsupported))
    );
    assert_eq!(old.segment_range(2, 0), Err(index_error(2, 2)));
}

#[test]
fn zone_views() {
    let controller = Controller::new(3, two_zones(4, 12)).unwrap();
    let zones = controller.zone_iter();
    assert_eq!(zones.len(), 2);
    let back = controller.get_zone(1).unwrap();
    assert_eq!(back, zones[1]);
    assert_eq!(back.controller_id(), 3);
    assert_eq!(back.zone_id(), 1);
    assert_eq!(back.id(), 1);
    assert_eq!(back.name(), "back");
    assert_eq!(back.zone_type(), ZoneType::Linear);
    assert_eq!(back.leds_min(), 4);
    assert_eq!(back.leds_max(), 4);
    assert_eq!(back.num_leds(), 4);
    assert_eq!(back.offset(), 8);
    assert!(back.matrix_data().is_none());
    assert_eq!(back.segment_data().unwrap().len(), 2);
    assert_eq!(controller.get_zone(2).err(), Some(index_error(2, 2)));
    let ids: Vec<usize> = back.led_iter().iter().map(|l| l.id()).collect();
    assert_eq!(ids, vec![8, 9, 10, 11]);
    let front = controller.get_zone(0).unwrap();
    assert_eq!(front.led_iter().len(), 8);
    assert_eq!(front.segment_iter().len(), 0);
}

#[test]
fn zone_leds_without_record_are_left_out() {
    let controller = Controller::new(3, two_zones(4, 10)).unwrap();
    let back = controller.get_zone(1).unwrap();
    let ids: Vec<usize> = back.led_iter().iter().map(|l| l.id()).collect();
    assert_eq!(ids, vec![8, 9]);
    let controller = Controller::new(3, two_zones(4, 3)).unwrap();
    assert_eq!(controller.get_zone(1).unwrap().led_iter().len(), 0);
    assert_eq!(controller.get_zone(0).unwrap().led_iter().len(), 3);
    assert_eq!(controller.led_iter().len(), 3);
}

#[test]
fn segment_views() {
    let controller = Controller::new(3, two_zones(4, 12)).unwrap();
    let back = controller.get_zone(1).unwrap();
    let segments = back.segment_iter();
    assert_eq!(segments.len(), 2);
    let high = back.get_segment(1).unwrap();
    assert_eq!(high, segments[1]);
    assert_eq!(high.segment_id(), 1);
    assert_eq!(high.controller_id(), 3);
    assert_eq!(high.zone_id(), 1);
    assert_eq!(high.name(), "high");
    assert_eq!(high.num_leds(), 3);
    assert_eq!(high.offset(), 1);
    assert_eq!(back.get_segment(2).err(), Some(index_error(2, 2)));
    let front = controller.get_zone(0).unwrap();
    assert_eq!(front.get_segment(0).err(), Some(index_error(0, 0)));
    let old = Controller::new(3, two_zones(3, 12)).unwrap();
    let back = old.get_zone(1).unwrap();
    assert_eq!(
        back.get_segment(0).err(),
        Some(OpenRgbError::CommandError(CommandError::SegmentsUnsupported))
    );
    assert_eq!(back.segment_iter().len(), 0);
}

#[test]
fn led_views() {
    let controller = Controller::new(3, two_zones(4, 10)).unwrap();
    let leds = controller.led_iter();
    assert_eq!(leds.len(), 10);
    for (i, led) in leds.iter().enumerate() {
        assert_eq!(led.id(), i);
        assert_eq!(led.name(), format!("led {}", i));
        assert_eq!(led.color(), Color::new(i as u8, 2 * i as u8, 100));
    }
    assert_eq!(controller.get_led(9).unwrap(), leds[9]);
    assert_eq!(controller.get_led(10).err(), Some(index_error(10, 10)));
    assert_eq!(controller.colors().len(), 12);
    assert_eq!(controller.led_data().len(), 10);
    assert_eq!(controller.zone_data().len(), 2);
    assert_eq!(controller.mode_data().len(), 3);
}

#[test]
fn mode_views() {
    let controller = Controller::new(3, two_zones(4, 12)).unwrap();
    assert_eq!(controller.active_mode_index(), 1);
    let active = controller.active_mode();
    assert!(active.is_active());
    assert_eq!(active.name(), "static");
    assert_eq!(active.kind(), ControllerModeKind::Static);
    let direct = controller.get_mode(0).unwrap();
    assert!(!direct.is_active());
    assert_eq!(direct.kind(), ControllerModeKind::Direct);
    assert_eq!(direct.flags().bits(), 0x20);
    let own = controller.get_mode(2).unwrap();
    assert_eq!(own.kind(), ControllerModeKind::Custom("Rainbow"));
    // the mode has the speed capability, and 0 was transmitted for each
    assert_eq!(own.speed(), Some(0));
    assert_eq!(own.speed_min(), Some(0));
    assert_eq!(own.speed_max(), Some(0));
    assert_eq!(own.brightness(), None);
    assert_eq!(own.brightness_min(), None);
    assert_eq!(own.brightness_max(), None);
    assert_eq!(own.direction(), None);
    assert_eq!(own.into_data().index(), 2);
    assert_eq!(controller.get_mode(3).err(), Some(index_error(3, 3)));
    assert_eq!(controller.get_mode(1).unwrap().into_data().color_mode(), ColorMode::NoColors);
}

#[test]
fn kinds_of_modes_go_by_name() {
    for (name, kind) in [
        ("Direct", ControllerModeKind::Direct),
        ("direct", ControllerModeKind::Direct),
        ("Static", ControllerModeKind::Static),
        ("static", ControllerModeKind::Static),
        ("DIRECT", ControllerModeKind::Custom("DIRECT")),
        ("Direct ", ControllerModeKind::Custom("Direct ")),
        ("", ControllerModeKind::Custom("")),
        ("Statics", ControllerModeKind::Custom("Statics")),
    ] {
        let mode = ModeData::new(text(name), 0, ModeFlags::from_bits(0));
        assert_eq!(ControllerModeKind::new(&mode), kind);
    }
}

#[test]
fn controller_without_modes_has_no_active_mode_and_is_malformed() {
    let mut data = two_zones(3, 12);
    data.modes.clear();
    data.active_mode = 0;
    assert!(data.active_mode().is_none());
    assert!(!data.is_well_formed());
    let mut buf = WriteMessage::new(3);
    assert_eq!(
        buf.write_value(&data),
        Err(OpenRgbError::CommandError(CommandError::NotEncodable))
    );
    // the same on the wire: no modes, active mode 0, no zones, LEDs or colors
    let mut buf = WriteMessage::new(3);
    buf.write_u32(0);
    buf.write_u32(0);
    for _ in 0..6 {
        buf.write_value(&text("")).unwrap();
    }
    buf.write_u16(0);
    buf.write_i32(0);
    buf.write_u16(0);
    buf.write_u16(0);
    buf.write_u16(0);
    let mut msg = buf.to_received_msg();
    assert_eq!(msg.read_value::<ControllerData>(), Err(OpenRgbError::MalformedMessage));
    // with one mode the same message is a controller
    let mut buf = WriteMessage::new(3);
    buf.write_u32(0);
    buf.write_u32(0);
    for _ in 0..6 {
        buf.write_value(&text("")).unwrap();
    }
    buf.write_u16(1);
    buf.write_i32(0);
    buf.write_value(&ModeData::new(text("Direct"), 0, ModeFlags::from_bits(0))).unwrap();
    buf.write_u16(0);
    buf.write_u16(0);
    buf.write_u16(0);
    let mut msg = buf.to_received_msg();
    let data = msg.read_value::<ControllerData>().unwrap();
    assert_eq!(data.num_leds, 0);
    assert_eq!(data.device_type, DeviceType::Motherboard);
    let controller = Controller::new(0, data).unwrap();
    assert_eq!(controller.zone_iter().len(), 0);
    assert_eq!(controller.led_iter().len(), 0);
    assert_eq!(controller.cmd().colors(), vec![]);
}
