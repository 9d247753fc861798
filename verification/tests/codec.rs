use array2d::Array2D;
use openrgb2::data::flags::{MODE_HAS_BRIGHTNESS, MODE_HAS_DIRECTION_LR, MODE_HAS_SPEED};
use openrgb2::protocol::sequence::{read_n_values, write_all};
use openrgb2::{
    Color, ColorMode, CommandError, ControllerFlags, DeserFromBuf, DeviceType, Direction,
    EffectsPluginPacket, SerToBuf,
    LedData, ModeData, ModeFlags, OpenRgbError, PluginData, PluginEffect, ProtocolOption,
    ReceivedMessage, SegmentData, WriteMessage, ZoneData, ZoneType,
};

fn text(s: &str) -> String {
    s.to_string()
}

const NOT_ENCODABLE: OpenRgbError = OpenRgbError::CommandError(CommandError::NotEncodable);

#[test]
fn integers_are_little_endian() {
    let mut buf = WriteMessage::new(0);
    buf.write_u8(0xAB);
    buf.write_u16(0x1234);
    buf.write_u32(0xDEADBEEF);
    buf.write_i32(-2);
    buf.write_i32(i32::MIN);
    buf.write_i32(i32::MAX);
    assert_eq!(
        buf.as_bytes(),
        &[
            0xAB, 0x34, 0x12, 0xEF, 0xBE, 0xAD, 0xDE, 0xFE, 0xFF, 0xFF, 0xFF, 0, 0, 0, 0x80, 0xFF,
            0xFF, 0xFF, 0x7F
        ][..]
    );
    let mut msg = buf.to_received_msg();
    assert_eq!(msg.read_u8(), Ok(0xAB));
    assert_eq!(msg.read_u16(), Ok(0x1234));
    assert_eq!(msg.read_u32(), Ok(0xDEADBEEF));
    assert_eq!(msg.read_i32(), Ok(-2));
    assert_eq!(msg.read_i32(), Ok(i32::MIN));
    assert_eq!(msg.read_i32(), Ok(i32::MAX));
    assert_eq!(msg.available(), 0);
    assert_eq!(msg.read_u8(), Err(OpenRgbError::MalformedMessage));
}

#[test]
fn short_reads_fail_without_moving() {
    let bytes = [1u8, 2, 3];
    let mut msg = ReceivedMessage::new(&bytes, 4);
    assert_eq!(msg.protocol_version(), 4);
    assert_eq!(msg.read_u32(), Err(OpenRgbError::MalformedMessage));
    assert_eq!(msg.read_i32(), Err(OpenRgbError::MalformedMessage));
    assert_eq!(msg.available(), 3);
    assert_eq!(msg.read_bytes(4), Err(OpenRgbError::MalformedMessage));
    assert_eq!(msg.available(), 3);
    assert_eq!(msg.read_u16(), Ok(0x0201));
    assert_eq!(msg.read_u16(), Err(OpenRgbError::MalformedMessage));
    assert_eq!(msg.available(), 1);
    assert_eq!(msg.read_bytes(1), Ok(vec![3]));
    assert_eq!(msg.read_bytes(0), Ok(vec![]));
}

#[test]
fn string_has_count_text_and_terminator() {
    let mut buf = WriteMessage::new(0);
    buf.write_value(&text("test")).unwrap();
    assert_eq!(buf.as_bytes(), &[5, 0, b't', b'e', b's', b't', 0][..]);
    buf.write_value(&text("")).unwrap();
    assert_eq!(buf.as_bytes(), &[5, 0, b't', b'e', b's', b't', 0, 1, 0, 0][..]);
    let mut msg = buf.to_received_msg();
    assert_eq!(msg.read_value::<String>(), Ok(text("test")));
    assert_eq!(msg.read_value::<String>(), Ok(text("")));
    assert_eq!(msg.available(), 0);
}

#[test]
fn string_of_several_bytes_per_char_round_trips() {
    let s = text("Zöne → ✓ 🌈");
    let mut buf = WriteMessage::new(0);
    buf.write_value(&s).unwrap();
    assert_eq!(buf.len(), 2 + s.len() + 1);
    assert_eq!(buf.as_bytes()[0] as usize, s.len() + 1);
    let mut msg = buf.to_received_msg();
    assert_eq!(msg.read_value::<String>(), Ok(s));
}

#[test]
fn string_edge_cases() {
    // a field of no bytes holds the empty text
    let mut msg = ReceivedMessage::new(&[0, 0, 9], 0);
    assert_eq!(msg.read_value::<String>(), Ok(text("")));
    assert_eq!(msg.available(), 1);
    // the last byte of the field is dropped, whatever it is
    let mut msg = ReceivedMessage::new(&[3, 0, b'h', b'i', b'!'], 0);
    assert_eq!(msg.read_value::<String>(), Ok(text("hi")));
    // the count exceeds what is there
    let mut msg = ReceivedMessage::new(&[4, 0, b'h', b'i', 0], 0);
    assert_eq!(msg.read_value::<String>(), Err(OpenRgbError::MalformedMessage));
    assert_eq!(msg.available(), 5);
    // half a count
    let mut msg = ReceivedMessage::new(&[4], 0);
    assert_eq!(msg.read_value::<String>(), Err(OpenRgbError::MalformedMessage));
    // not UTF-8
    let mut msg = ReceivedMessage::new(&[3, 0, 0xFF, 0xFE, 0], 0);
    assert_eq!(msg.read_value::<String>(), Err(OpenRgbError::MalformedMessage));
    assert_eq!(msg.available(), 5);
    // a character cut in two
    let mut msg = ReceivedMessage::new(&[2, 0, 0xC3, 0], 0);
    assert_eq!(msg.read_value::<String>(), Err(OpenRgbError::MalformedMessage));
}

#[test]
fn string_too_long_is_not_encodable() {
    let longest = "a".repeat(0xFFFE);
    let mut buf = WriteMessage::new(0);
    assert_eq!(buf.write_value(&longest), Ok(()));
    assert_eq!(buf.len(), 2 + 0xFFFE + 1);
    assert_eq!(&buf.as_bytes()[..2], &[0xFF, 0xFF][..]);
    let mut msg = buf.to_received_msg();
    assert_eq!(msg.read_value::<String>(), Ok(longest));

    let too_long = "a".repeat(0xFFFF);
    let mut buf = WriteMessage::new(0);
    buf.write_u8(7);
    assert_eq!(buf.write_value(&too_long), Err(NOT_ENCODABLE));
    assert_eq!(buf.as_bytes(), &[7][..]);
}

#[test]
fn sequence_has_count_then_elements() {
    let colors = vec![Color::new(1, 2, 3), Color::new(4, 5, 6)];
    let mut buf = WriteMessage::new(0);
    buf.write_value(&colors).unwrap();
    assert_eq!(buf.as_bytes(), &[2, 0, 1, 2, 3, 0, 4, 5, 6, 0][..]);
    let mut msg = buf.to_received_msg();
    assert_eq!(msg.read_value::<Vec<Color>>(), Ok(colors));

    let names = vec![text("a"), text(""), text("bc")];
    let mut buf = WriteMessage::new(0);
    buf.write_value(&names).unwrap();
    assert_eq!(buf.as_bytes(), &[3, 0, 2, 0, b'a', 0, 1, 0, 0, 3, 0, b'b', b'c', 0][..]);
    let mut msg = buf.to_received_msg();
    assert_eq!(msg.read_value::<Vec<String>>(), Ok(names));

    let empty: Vec<u32> = vec![];
    let mut buf = WriteMessage::new(0);
    buf.write_value(&empty).unwrap();
    assert_eq!(buf.as_bytes(), &[0, 0][..]);
}

#[test]
fn sequence_count_that_disagrees_with_bytes_is_malformed() {
    // three colors announced, two present
    let bytes = [3u8, 0, 1, 2, 3, 0, 4, 5, 6, 0];
    let mut msg = ReceivedMessage::new(&bytes, 0);
    assert_eq!(msg.read_value::<Vec<Color>>(), Err(OpenRgbError::MalformedMessage));
    assert_eq!(msg.available(), bytes.len());
    // the padding byte of a color is not looked at
    let mut msg = ReceivedMessage::new(&[1, 0, 9, 8, 7, 0xEE], 0);
    assert_eq!(msg.read_value::<Vec<Color>>(), Ok(vec![Color::new(9, 8, 7)]));
}

#[test]
fn counted_values_without_prefix() {
    let mut buf = WriteMessage::new(0);
    write_all(&mut buf, &vec![7u16, 8, 9]).unwrap();
    assert_eq!(buf.as_bytes(), &[7, 0, 8, 0, 9, 0][..]);
    let mut msg = buf.to_received_msg();
    assert_eq!(read_n_values::<u16>(&mut msg, 2), Ok(vec![7, 8]));
    assert_eq!(msg.available(), 2);
    assert_eq!(read_n_values::<u16>(&mut msg, 2), Err(OpenRgbError::MalformedMessage));
    let mut msg = buf.to_received_msg();
    assert_eq!(read_n_values::<u16>(&mut msg, 0), Ok(vec![]));
    assert_eq!(msg.available(), 6);
}

#[test]
fn sequence_too_long_is_not_encodable() {
    let many = vec![0u8; 0x10000];
    let mut buf = WriteMessage::new(0);
    assert_eq!(buf.write_value(&many), Err(NOT_ENCODABLE));
    assert_eq!(buf.len(), 0);
    let most = vec![1u8; 0xFFFF];
    assert_eq!(buf.write_value(&most), Ok(()));
    assert_eq!(buf.len(), 2 + 0xFFFF);
}

#[test]
fn gated_field_below_its_version_takes_no_bytes() {
    let bytes = [5u8, 0, 0, 0, 9];
    for version in 0..5u32 {
        let mut msg = ReceivedMessage::new(&bytes, version);
        let field = msg.read_value::<ProtocolOption<5, u32>>().unwrap();
        assert_eq!(field, ProtocolOption::UnsupportedVersion);
        assert!(!field.is_supported());
        assert_eq!(field.value(), None);
        assert_eq!(msg.available(), 5);
        // even where no byte is left
        let mut msg = ReceivedMessage::new(&[], version);
        assert_eq!(
            msg.read_value::<ProtocolOption<5, Vec<String>>>(),
            Ok(ProtocolOption::UnsupportedVersion)
        );
    }
}

#[test]
fn gated_field_from_its_version_on_is_an_ordinary_field() {
    let bytes = [5u8, 0, 0, 0, 9];
    for version in [5u32, 6, 100, u32::MAX] {
        let mut msg = ReceivedMessage::new(&bytes, version);
        let field = msg.read_value::<ProtocolOption<5, u32>>().unwrap();
        assert_eq!(field, ProtocolOption::Supported(5));
        assert!(field.is_supported());
        assert_eq!(field.value(), Some(&5));
        assert_eq!(msg.available(), 1);
        let mut plain = ReceivedMessage::new(&bytes, version);
        assert_eq!(plain.read_value::<u32>(), Ok(5));
        assert_eq!(plain.available(), msg.available());
        // and fails as the ordinary field does
        let mut msg = ReceivedMessage::new(&bytes[..3], version);
        assert_eq!(
            msg.read_value::<ProtocolOption<5, u32>>(),
            Err(OpenRgbError::MalformedMessage)
        );
    }
}

#[test]
fn gated_field_present_but_empty_is_not_unsupported() {
    let mut msg = ReceivedMessage::new(&[0, 0], 5);
    let field = msg.read_value::<ProtocolOption<5, Vec<String>>>().unwrap();
    assert_eq!(field, ProtocolOption::Supported(vec![]));
    assert_ne!(field, ProtocolOption::UnsupportedVersion);
}

#[test]
fn gated_field_encoding() {
    let mut buf = WriteMessage::new(4);
    buf.write_value(&ProtocolOption::<5, u32>::Supported(7)).unwrap();
    buf.write_value(&ProtocolOption::<5, u32>::UnsupportedVersion).unwrap();
    assert_eq!(buf.len(), 0);
    let mut buf = WriteMessage::new(5);
    buf.write_value(&ProtocolOption::<5, u32>::Supported(7)).unwrap();
    assert_eq!(buf.as_bytes(), &[7, 0, 0, 0][..]);
    assert_eq!(
        buf.write_value(&ProtocolOption::<5, u32>::UnsupportedVersion),
        Err(NOT_ENCODABLE)
    );
    assert_eq!(buf.as_bytes(), &[7, 0, 0, 0][..]);
}

#[test]
fn led_record() {
    // the name "test" and the value 45
    let mut bytes = vec![];
    bytes.extend_from_slice(&5u16.to_le_bytes());
    bytes.extend_from_slice(b"test\0");
    bytes.extend_from_slice(&45u32.to_le_bytes());
    let mut msg = ReceivedMessage::new(&bytes, 0);
    let led = msg.read_value::<LedData>().unwrap();
    assert_eq!(led, LedData::new(text("test"), 45));
    assert_eq!(led.name(), "test");
    assert_eq!(led.value(), 45);
    let mut buf = WriteMessage::new(0);
    buf.write_value(&led).unwrap();
    assert_eq!(buf.as_bytes(), &bytes[..]);
    let mut msg = ReceivedMessage::new(&bytes[..bytes.len() - 1], 0);
    assert_eq!(msg.read_value::<LedData>(), Err(OpenRgbError::MalformedMessage));
}

#[test]
fn segment_record() {
    let segment = SegmentData::new(text("left"), 3, 4);
    assert_eq!(segment.id(), 0);
    assert_eq!(segment.name(), "left");
    assert_eq!(segment.offset(), 3);
    assert_eq!(segment.led_count(), 4);
    assert!(segment.fits(7));
    assert!(!segment.fits(6));
    assert!(!SegmentData::new(text("x"), u32::MAX, u32::MAX).fits(u32::MAX));
    let mut buf = WriteMessage::new(4);
    buf.write_value(&segment).unwrap();
    assert_eq!(
        buf.as_bytes(),
        &[5, 0, b'l', b'e', b'f', b't', 0, 3, 0, 0, 0, 4, 0, 0, 0][..]
    );
    let mut msg = buf.to_received_msg();
    assert_eq!(msg.read_value::<SegmentData>(), Ok(segment));
}

fn mode_bytes(protocol: u32, flags: u32, direction: u32) -> Vec<u8> {
    let mut buf = WriteMessage::new(protocol);
    buf.write_value(&text("Wave")).unwrap();
    buf.write_i32(-3);
    buf.write_u32(flags);
    buf.write_u32(10); // speed_min
    buf.write_u32(20); // speed_max
    if protocol >= 3 {
        buf.write_u32(1); // brightness_min
        buf.write_u32(9); // brightness_max
    }
    buf.write_u32(0); // colors_min
    buf.write_u32(2); // colors_max
    buf.write_u32(15); // speed
    if protocol >= 3 {
        buf.write_u32(5); // brightness
    }
    buf.write_u32(direction);
    buf.write_u32(2); // color mode
    buf.write_value(&vec![Color::new(255, 0, 0)]).unwrap();
    buf.into_bytes()
}

#[test]
fn mode_record_at_version_3() {
    let flags = MODE_HAS_SPEED | MODE_HAS_BRIGHTNESS | MODE_HAS_DIRECTION_LR | 0x8000_0000;
    let bytes = mode_bytes(3, flags, 1);
    assert_eq!(bytes.len(), 7 + 4 + 4 + 8 + 8 + 8 + 4 + 4 + 4 + 4 + 6);
    let mut msg = ReceivedMessage::new(&bytes, 3);
    let mode = msg.read_value::<ModeData>().unwrap();
    assert_eq!(msg.available(), 0);
    assert_eq!(mode.name(), "Wave");
    assert_eq!(mode.value(), -3);
    // a bit without a name is kept
    assert_eq!(mode.flags().bits(), flags);
    assert!(mode.flags().has_speed());
    assert!(mode.flags().has_brightness());
    assert!(mode.flags().has_direction());
    assert!(!mode.flags().has_per_led_color());
    assert_eq!(mode.speed_min(), Some(10));
    assert_eq!(mode.speed_max(), Some(20));
    assert_eq!(mode.speed(), Some(15));
    assert_eq!(mode.brightness_min(), Some(1));
    assert_eq!(mode.brightness_max(), Some(9));
    assert_eq!(mode.brightness(), Some(5));
    assert_eq!(mode.direction(), Some(Direction::Right));
    assert_eq!(mode.color_mode(), ColorMode::ModeSpecific);
    assert_eq!(mode.colors_min(), 0);
    assert_eq!(mode.colors_max(), 2);
    assert_eq!(mode.colors(), &[Color::new(255, 0, 0)][..]);
    assert_eq!(mode.index(), 0);
    let mut out = WriteMessage::new(3);
    out.write_value(&mode).unwrap();
    assert_eq!(out.as_bytes(), &bytes[..]);
}

#[test]
fn mode_record_below_version_3_has_no_brightness() {
    let flags = MODE_HAS_SPEED | MODE_HAS_BRIGHTNESS;
    let bytes = mode_bytes(2, flags, 4);
    assert_eq!(bytes.len(), mode_bytes(3, flags, 4).len() - 12);
    let mut msg = ReceivedMessage::new(&bytes, 2);
    let mode = msg.read_value::<ModeData>().unwrap();
    assert_eq!(msg.available(), 0);
    assert!(mode.flags().has_brightness());
    assert_eq!(mode.brightness_min(), None);
    assert_eq!(mode.brightness_max(), None);
    assert_eq!(mode.brightness(), None);
    assert_eq!(mode.speed(), Some(15));
    // the direction is there for a mode with the capability only
    assert_eq!(mode.direction(), None);
    let mut out = WriteMessage::new(2);
    out.write_value(&mode).unwrap();
    // the direction that the mode does not have is spelled as 0
    assert_eq!(out.as_bytes(), &mode_bytes(2, flags, 0)[..]);
    // read at version 3 the same bytes end early
    let mut msg = ReceivedMessage::new(&bytes, 3);
    assert_eq!(msg.read_value::<ModeData>(), Err(OpenRgbError::MalformedMessage));
}

#[test]
fn mode_without_capabilities_has_no_parameters() {
    let bytes = mode_bytes(3, 0, 77);
    let mut msg = ReceivedMessage::new(&bytes, 3);
    let mode = msg.read_value::<ModeData>().unwrap();
    assert_eq!(mode.speed(), None);
    assert_eq!(mode.speed_min(), None);
    assert_eq!(mode.speed_max(), None);
    assert_eq!(mode.brightness(), None);
    assert_eq!(mode.direction(), None);
    let bytes = mode_bytes(3, MODE_HAS_DIRECTION_LR, 77);
    let mut msg = ReceivedMessage::new(&bytes, 3);
    let mode = msg.read_value::<ModeData>().unwrap();
    assert_eq!(mode.direction(), Some(Direction::Unknown(77)));
    let mut out = WriteMessage::new(3);
    out.write_value(&mode).unwrap();
    let mut expected = mode_bytes(3, MODE_HAS_DIRECTION_LR, 77);
    // speed bounds, brightness bounds, speed and brightness are spelled as 0
    for at in [15usize, 19, 23, 27, 39, 43] {
        expected[at] = 0;
    }
    assert_eq!(out.as_bytes(), &expected[..]);
}

#[test]
fn built_mode_round_trips() {
    let mut mode = ModeData::new(text("Breathing"), 4, ModeFlags::from_bits(MODE_HAS_SPEED));
    mode.set_speed_range(1, 100);
    mode.set_speed(50);
    mode.set_colors(ColorMode::Random, vec![]);
    for protocol in [0u32, 2, 3, 5] {
        let mut buf = WriteMessage::new(protocol);
        buf.write_value(&mode).unwrap();
        let mut msg = buf.to_received_msg();
        assert_eq!(msg.read_value::<ModeData>().as_ref(), Ok(&mode));
        assert_eq!(msg.available(), 0);
    }
    // a parameter without its capability is not transmitted
    mode.set_brightness(3);
    let mut buf = WriteMessage::new(3);
    buf.write_value(&mode).unwrap();
    let mut msg = buf.to_received_msg();
    let decoded = msg.read_value::<ModeData>().unwrap();
    assert_ne!(decoded, mode);
    assert_eq!(decoded.brightness(), None);
}

fn zone_bytes(protocol: u32) -> Vec<u8> {
    let mut buf = WriteMessage::new(protocol);
    buf.write_value(&text("Keys")).unwrap();
    buf.write_u32(2); // matrix
    buf.write_u32(1);
    buf.write_u32(10);
    buf.write_u32(6);
    buf.write_u16(8 + 4 * 6);
    buf.write_u32(2); // rows
    buf.write_u32(3); // columns
    for cell in [0u32, 1, 2, 3, 0xFFFF_FFFF, 5] {
        buf.write_u32(cell);
    }
    if protocol >= 4 {
        buf.write_u16(2);
        buf.write_value(&SegmentData::new(text("a"), 0, 2)).unwrap();
        buf.write_value(&SegmentData::new(text("b"), 2, 4)).unwrap();
    }
    buf.into_bytes()
}

#[test]
fn zone_record_with_matrix_and_segments() {
    let bytes = zone_bytes(4);
    let mut msg = ReceivedMessage::new(&bytes, 4);
    let zone = msg.read_value::<ZoneData>().unwrap();
    assert_eq!(msg.available(), 0);
    assert_eq!(zone.id(), 0);
    assert_eq!(zone.name(), "Keys");
    assert_eq!(zone.zone_type(), ZoneType::Matrix);
    assert_eq!(zone.leds_min(), 1);
    assert_eq!(zone.leds_max(), 10);
    assert_eq!(zone.leds_count(), 6);
    let matrix = zone.matrix().expect("the zone has a matrix");
    assert_eq!(matrix.num_rows(), 2);
    assert_eq!(matrix.num_columns(), 3);
    assert_eq!(matrix.as_rows(), vec![vec![0, 1, 2], vec![3, 0xFFFF_FFFF, 5]]);
    assert_eq!(
        matrix,
        &Array2D::from_row_major(&[0, 1, 2, 3, 0xFFFF_FFFF, 5], 2, 3).unwrap()
    );
    let segments = zone.segments().expect("version 4 has segments");
    assert_eq!(segments.len(), 2);
    assert_eq!(segments[0].name(), "a");
    assert_eq!(segments[0].id(), 0);
    assert_eq!(segments[1].name(), "b");
    assert_eq!(segments[1].id(), 1);
    assert_eq!(segments[1].offset(), 2);
    assert_eq!(segments[1].led_count(), 4);
    assert!(zone.is_well_formed());
    let mut out = WriteMessage::new(4);
    out.write_value(&zone).unwrap();
    assert_eq!(out.as_bytes(), &bytes[..]);
}

#[test]
fn zone_record_below_version_4_has_no_segments() {
    let bytes = zone_bytes(3);
    let mut msg = ReceivedMessage::new(&bytes, 3);
    let zone = msg.read_value::<ZoneData>().unwrap();
    assert_eq!(msg.available(), 0);
    assert!(zone.segments().is_none());
    assert!(zone.matrix().is_some());
    let mut out = WriteMessage::new(3);
    out.write_value(&zone).unwrap();
    assert_eq!(out.as_bytes(), &bytes[..]);
    // a zone without segments cannot be spelled where segments are transmitted
    let mut out = WriteMessage::new(4);
    assert_eq!(out.write_value(&zone), Err(NOT_ENCODABLE));
    assert_eq!(out.len(), 0);
    // read at version 4 the same bytes end early
    let mut msg = ReceivedMessage::new(&bytes, 4);
    assert_eq!(msg.read_value::<ZoneData>(), Err(OpenRgbError::MalformedMessage));
}

#[test]
fn zone_whose_segment_leaves_the_zone_is_malformed() {
    let mut buf = WriteMessage::new(4);
    buf.write_value(&text("Strip")).unwrap();
    buf.write_u32(1);
    buf.write_u32(0);
    buf.write_u32(10);
    buf.write_u32(6);
    buf.write_u16(0);
    buf.write_u16(1);
    buf.write_value(&SegmentData::new(text("s"), 3, 4)).unwrap();
    let mut msg = buf.to_received_msg();
    assert_eq!(msg.read_value::<ZoneData>(), Err(OpenRgbError::MalformedMessage));
    assert_eq!(msg.available(), buf.len());
    // one LED less and it fits
    let mut bytes = buf.as_bytes().to_vec();
    let n = bytes.len();
    bytes[n - 4] = 3;
    let mut msg = ReceivedMessage::new(&bytes, 4);
    let zone = msg.read_value::<ZoneData>().unwrap();
    assert_eq!(zone.segments().unwrap()[0].led_count(), 3);
}

#[test]
fn zone_matrix_whose_length_disagrees_is_malformed() {
    for (len, rows, columns, cells) in
        [(8u16 + 4 * 5, 2u32, 3u32, 6usize), (8 + 4 * 6, 2, 3, 5), (4, 0, 0, 0), (8, 1, 1, 1)]
    {
        let mut buf = WriteMessage::new(3);
        buf.write_value(&text("Keys")).unwrap();
        buf.write_u32(2);
        buf.write_u32(0);
        buf.write_u32(0);
        buf.write_u32(0);
        buf.write_u16(len);
        buf.write_u32(rows);
        buf.write_u32(columns);
        for _ in 0..cells {
            buf.write_u32(1);
        }
        let mut msg = buf.to_received_msg();
        assert_eq!(
            msg.read_value::<ZoneData>(),
            Err(OpenRgbError::MalformedMessage),
            "{} {} {} {}",
            len,
            rows,
            columns,
            cells
        );
    }
    // dimensions whose product does not fit a block
    let mut buf = WriteMessage::new(3);
    buf.write_value(&text("Keys")).unwrap();
    for _ in 0..4 {
        buf.write_u32(0);
    }
    buf.write_u16(8);
    buf.write_u32(0x10000);
    buf.write_u32(0x10000);
    let mut msg = buf.to_received_msg();
    assert_eq!(msg.read_value::<ZoneData>(), Err(OpenRgbError::MalformedMessage));
}

#[test]
fn zone_matrix_without_cells() {
    let mut buf = WriteMessage::new(3);
    buf.write_value(&text("Keys")).unwrap();
    for _ in 0..4 {
        buf.write_u32(0);
    }
    buf.write_u16(8);
    buf.write_u32(0);
    buf.write_u32(7);
    let mut msg = buf.to_received_msg();
    let zone = msg.read_value::<ZoneData>().unwrap();
    let matrix = zone.matrix().expect("a matrix of no rows is a matrix");
    assert_eq!(matrix.num_rows(), 0);
    assert_eq!(matrix.num_columns(), 7);
    let mut out = WriteMessage::new(3);
    out.write_value(&zone).unwrap();
    assert_eq!(out.as_bytes(), buf.as_bytes());
}

#[test]
fn built_zone() {
    let segments = vec![SegmentData::new(text("a"), 0, 2), SegmentData::new(text("b"), 2, 3)];
    let zone = ZoneData::new(text("Z"), ZoneType::Linear, 0, 8, 5, Some(segments)).unwrap();
    assert_eq!(zone.segments().unwrap()[1].id(), 1);
    assert!(zone.is_well_formed());
    let mut buf = WriteMessage::new(4);
    buf.write_value(&zone).unwrap();
    let mut msg = buf.to_received_msg();
    assert_eq!(msg.read_value::<ZoneData>(), Ok(zone));

    let segments = vec![SegmentData::new(text("a"), 0, 2), SegmentData::new(text("b"), 2, 4)];
    assert_eq!(
        ZoneData::new(text("Z"), ZoneType::Linear, 0, 8, 5, Some(segments)).err(),
        Some(OpenRgbError::CommandError(CommandError::SegmentOutOfZone))
    );
    let plain = ZoneData::new(text("Z"), ZoneType::Unknown(9), 0, 8, 5, None).unwrap();
    assert!(plain.segments().is_none());
    let mut buf = WriteMessage::new(3);
    buf.write_value(&plain).unwrap();
    assert_eq!(&buf.as_bytes()[4..8], &[9, 0, 0, 0][..]);
}

#[test]
fn codes_of_kinds() {
    for code in [0u32, 1, 2, 3, 4, 5, 6, 20, 21, 22, 1000, u32::MAX] {
        assert_eq!(Direction::from_code(code).code(), code);
        assert_eq!(ColorMode::from_code(code).code(), code);
        assert_eq!(ZoneType::from_code(code).code(), code);
        assert_eq!(DeviceType::from_code(code).code(), code);
    }
    assert_eq!(Direction::from_code(0), Direction::Left);
    assert_eq!(Direction::from_code(5), Direction::Vertical);
    assert_eq!(Direction::from_code(6), Direction::Unknown(6));
    assert_eq!(ColorMode::from_code(0), ColorMode::NoColors);
    assert_eq!(ColorMode::from_code(1), ColorMode::PerLed);
    assert_eq!(ColorMode::from_code(3), ColorMode::Random);
    assert_eq!(ColorMode::from_code(4), ColorMode::Unknown(4));
    assert_eq!(ZoneType::from_code(0), ZoneType::Single);
    assert_eq!(ZoneType::from_code(2), ZoneType::Matrix);
    assert_eq!(ZoneType::from_code(3), ZoneType::Unknown(3));
    assert_eq!(DeviceType::from_code(0), DeviceType::Motherboard);
    assert_eq!(DeviceType::from_code(5), DeviceType::Keyboard);
    assert_eq!(DeviceType::from_code(20), DeviceType::Monitor);
    assert_eq!(DeviceType::from_code(21), DeviceType::Unknown(21));
    assert_eq!(EffectsPluginPacket::RequestEffectList.code(), 0);
    assert_eq!(EffectsPluginPacket::StartEffect.code(), 20);
    assert_eq!(EffectsPluginPacket::StopEffect.code(), 21);
}

#[test]
fn flags_keep_unknown_bits() {
    let flags = ControllerFlags::from_bits(0xFFFF_FEF8);
    assert!(!flags.is_local());
    assert!(!flags.is_remote());
    assert!(!flags.is_virtual());
    assert!(!flags.reset_before_update());
    let mut buf = WriteMessage::new(5);
    buf.write_value(&flags).unwrap();
    let mut msg = buf.to_received_msg();
    assert_eq!(msg.read_value::<ControllerFlags>().unwrap().bits(), 0xFFFF_FEF8);
    let flags = ControllerFlags::from_bits(0x105);
    assert!(flags.is_local());
    assert!(!flags.is_remote());
    assert!(flags.is_virtual());
    assert!(flags.reset_before_update());
    let mode_flags = ModeFlags::from_bits(0x4C);
    assert!(mode_flags.has_direction());
    assert!(mode_flags.has_mode_specific_color());
    assert!(!mode_flags.has_random_color());
    assert!(mode_flags.contains(0x0C));
    assert!(!mode_flags.contains(0x0E));
    assert!(mode_flags.intersects(0x0E));
    assert!(!mode_flags.intersects(0x03));
}

#[test]
fn effect_record() {
    let mut bytes = vec![];
    bytes.extend_from_slice(&[5, 0]);
    bytes.extend_from_slice(b"Rain\0");
    bytes.extend_from_slice(&[6, 0]);
    bytes.extend_from_slice(b"Drops\0");
    bytes.push(2);
    let mut msg = ReceivedMessage::new(&bytes, 0);
    let effect = msg.read_value::<PluginEffect>().unwrap();
    assert_eq!(effect.name(), "Rain");
    assert_eq!(effect.description(), "Drops");
    assert!(effect.enabled());
    assert_eq!(effect, PluginEffect::new(text("Rain"), text("Drops"), true));
    let mut out = WriteMessage::new(0);
    out.write_value(&effect).unwrap();
    let n = bytes.len();
    bytes[n - 1] = 1;
    assert_eq!(out.as_bytes(), &bytes[..]);
    bytes[n - 1] = 0;
    let mut msg = ReceivedMessage::new(&bytes, 0);
    assert!(!msg.read_value::<PluginEffect>().unwrap().enabled());
    let mut msg = ReceivedMessage::new(&bytes[..n - 1], 0);
    assert_eq!(msg.read_value::<PluginEffect>(), Err(OpenRgbError::MalformedMessage));
}

#[test]
fn plugin_record() {
    let plugin = PluginData::new(text("Visual Map"), text("maps"), text("1.0"), 2, 3);
    let mut buf = WriteMessage::new(4);
    buf.write_value(&plugin).unwrap();
    assert_eq!(buf.len(), 13 + 7 + 6 + 8);
    let mut msg = buf.to_received_msg();
    let decoded = msg.read_value::<PluginData>().unwrap();
    assert_eq!(decoded, plugin);
    assert_eq!(decoded.name(), "Visual Map");
    assert_eq!(decoded.description(), "maps");
    assert_eq!(decoded.version(), "1.0");
    assert_eq!(decoded.index(), 2);
    assert_eq!(decoded.sdk_version(), 3);
    let long = PluginData::new(text("x"), "d".repeat(70000), text("1.0"), 2, 3);
    let mut buf = WriteMessage::new(4);
    assert_eq!(buf.write_value(&long), Err(NOT_ENCODABLE));
    assert_eq!(buf.len(), 0);
}

#[test]
fn colors() {
    assert_eq!(Color::default(), Color::new(0, 0, 0));
    assert_eq!(Color::black(), Color { r: 0, g: 0, b: 0 });
    let color = Color::new(1, 2, 3);
    assert_eq!((color.r, color.g, color.b), (1, 2, 3));
    let mut buf = WriteMessage::new(0);
    buf.write_value(&color).unwrap();
    assert_eq!(buf.as_bytes(), &[1, 2, 3, 0][..]);
    let mut msg = ReceivedMessage::new(&[1, 2, 3], 0);
    assert_eq!(msg.read_value::<Color>(), Err(OpenRgbError::MalformedMessage));
}

#[test]
fn mode_setters() {
    let mut mode = ModeData::new(text("M"), 9, ModeFlags::from_bits(0));
    assert_eq!(mode.color_mode(), ColorMode::NoColors);
    mode.set_colors_range(2, 4);
    mode.set_colors(ColorMode::PerLed, vec![Color::new(1, 1, 1), Color::new(2, 2, 2)]);
    mode.set_direction(Direction::Horizontal);
    assert_eq!(mode.colors_min(), 2);
    assert_eq!(mode.colors_max(), 4);
    assert_eq!(mode.color_mode(), ColorMode::PerLed);
    assert_eq!(mode.colors().len(), 2);
    assert_eq!(mode.direction(), Some(Direction::Horizontal));
    let copy = mode.clone();
    assert_eq!(copy, mode);
    let mut buf = WriteMessage::new(3);
    buf.write_value(&mode).unwrap();
    let mut msg = buf.to_received_msg();
    let decoded = msg.read_value::<ModeData>().unwrap();
    // the direction is not transmitted for a mode without the capability
    assert_eq!(decoded.direction(), None);
    assert_eq!(decoded.colors(), mode.colors());
    assert_eq!(decoded.colors_min(), 2);
    assert_eq!(decoded.colors_max(), 4);
}

#[test]
fn counted_values_through_the_cursor() {
    let bytes = [1u8, 0, 2, 0, 3];
    let mut msg = ReceivedMessage::new(&bytes, 0);
    assert_eq!(msg.read_n_values::<u16>(3), Err(OpenRgbError::MalformedMessage));
    assert_eq!(msg.available(), 5);
    assert_eq!(msg.read_n_values::<u16>(2), Ok(vec![1, 2]));
    assert_eq!(msg.available(), 1);
}

#[test]
fn failed_decoding_leaves_the_cursor_where_it_was() {
    // a zone whose name is there and whose numbers end early
    let bytes = [2u8, 0, b'z', 0, 1, 0, 0, 0, 9];
    let mut msg = ReceivedMessage::new(&bytes, 3);
    assert_eq!(ZoneData::deserialize(&mut msg), Err(OpenRgbError::MalformedMessage));
    assert_eq!(msg.available(), bytes.len());
    assert_eq!(<Vec<String>>::deserialize(&mut msg), Err(OpenRgbError::MalformedMessage));
    assert_eq!(msg.available(), bytes.len());
    assert_eq!(String::deserialize(&mut msg), Ok(text("z")));
    assert_eq!(msg.available(), 5);
    assert_eq!(msg.read_n_values::<u32>(2), Err(OpenRgbError::MalformedMessage));
    assert_eq!(msg.available(), 5);
}

#[test]
fn failed_encoding_appends_nothing() {
    let names = vec![text("fine"), "x".repeat(0x10000)];
    let mut buf = WriteMessage::new(5);
    buf.write_u8(1);
    assert_eq!(names.serialize(&mut buf), Err(NOT_ENCODABLE));
    assert_eq!(buf.as_bytes(), &[1][..]);
    assert_eq!(write_all(&mut buf, &names), Err(NOT_ENCODABLE));
    assert_eq!(buf.as_bytes(), &[1][..]);
    let led = LedData::new("x".repeat(0x10000), 1);
    assert_eq!(led.serialize(&mut buf), Err(NOT_ENCODABLE));
    let segment = SegmentData::new("x".repeat(0x10000), 1, 1);
    assert_eq!(segment.serialize(&mut buf), Err(NOT_ENCODABLE));
    let segments = Some(vec![SegmentData::new("x".repeat(0x10000), 0, 1)]);
    let zone = ZoneData::new(text("z"), ZoneType::Single, 0, 1, 1, segments).unwrap();
    assert_eq!(zone.serialize(&mut buf), Err(NOT_ENCODABLE));
    assert_eq!(buf.as_bytes(), &[1][..]);
}
