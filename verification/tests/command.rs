use openrgb2::{
    Color, Command, CommandError, Controller, ControllerData, DeviceType, Led, LedData, ModeData,
    ModeFlags, OpenRgbError, ProtocolOption, Request, SegmentData, WriteMessage, ZoneData,
    ZoneType,
};

fn text(s: &str) -> String {
    s.to_string()
}

fn index_error(index: usize, len: usize) -> OpenRgbError {
    OpenRgbError::CommandError(CommandError::IndexOutOfBounds { index, len })
}

fn range_error(start: usize, count: usize, len: usize) -> OpenRgbError {
    OpenRgbError::CommandError(CommandError::RangeOutOfBounds { start, count, len })
}

const BLACK: Color = Color { r: 0, g: 0, b: 0 };
const RED: Color = Color { r: 255, g: 0, b: 0 };
const GREEN: Color = Color { r: 0, g: 255, b: 0 };
const BLUE: Color = Color { r: 0, g: 0, b: 255 };

/// A controller whose zones have the given numbers of LEDs. The last zone
/// has a segment of its second half where it has two LEDs or more.
fn controller(zones: &[u32]) -> Controller {
    let total: u32 = zones.iter().sum();
    let mut list = vec![];
    for (i, &n) in zones.iter().enumerate() {
        let segments = if i + 1 == zones.len() && n >= 2 {
            vec![SegmentData::new(text("half"), n / 2, n - n / 2)]
        } else {
            vec![]
        };
        list.push(
            ZoneData::new(format!("zone {}", i), ZoneType::Linear, 0, n, n, Some(segments))
                .unwrap(),
        );
    }
    let hand_made = ControllerData {
        device_type: DeviceType::Light,
        name: text("Lamp"),
        vendor: text(""),
        description: text(""),
        version: text(""),
        serial: text(""),
        location: text(""),
        active_mode: 0,
        modes: vec![ModeData::new(text("Direct"), 0, ModeFlags::from_bits(0x20))],
        zones: list,
        leds: (0..total).map(|i| LedData::new(format!("{}", i), 0)).collect(),
        colors: vec![Color::new(9, 9, 9); total as usize],
        led_alt_names: ProtocolOption::UnsupportedVersion,
        flags: ProtocolOption::UnsupportedVersion,
        id: 0,
        num_leds: 0,
    };
    let mut buf = WriteMessage::new(4);
    buf.write_value(&hand_made).unwrap();
    let mut msg = buf.to_received_msg();
    Controller::new(5, msg.read_value::<ControllerData>().unwrap()).unwrap()
}

#[test]
fn empty_command_is_all_black() {
    let c = controller(&[8, 4]);
    let cmd = c.cmd();
    assert_eq!(cmd.colors(), vec![BLACK; 12]);
    let cmd = Command::new(&c);
    assert_eq!(cmd.colors(), vec![BLACK; 12]);
    assert_eq!(cmd.execute(), Request::UpdateLeds { controller_id: 5, colors: vec![BLACK; 12] });
    assert_eq!(controller(&[]).cmd().colors(), vec![]);
}

#[test]
fn last_write_to_an_index_wins() {
    let c = controller(&[8, 4]);
    let mut cmd = c.cmd();
    assert_eq!(cmd.set_led(3, RED), Ok(()));
    assert_eq!(cmd.set_led(3, GREEN), Ok(()));
    let colors = cmd.colors();
    assert_eq!(colors.len(), 12);
    for (i, color) in colors.iter().enumerate() {
        assert_eq!(*color, if i == 3 { GREEN } else { BLACK });
    }
    // through another way of addressing too
    cmd.set_zone_led(0, 3, BLUE).unwrap();
    assert_eq!(cmd.colors()[3], BLUE);
}

#[test]
fn index_out_of_bounds_leaves_the_batch_as_it_is() {
    let c = controller(&[8, 4]);
    let mut cmd = c.cmd();
    cmd.set_led(0, RED).unwrap();
    let before = cmd.colors();
    assert_eq!(cmd.set_led(12, GREEN), Err(index_error(12, 12)));
    assert_eq!(cmd.set_led(usize::MAX, GREEN), Err(index_error(usize::MAX, 12)));
    assert_eq!(cmd.colors(), before);
    // entries made afterwards are all there when the command is carried out
    cmd.set_led(11, BLUE).unwrap();
    cmd.set_led(5, GREEN).unwrap();
    let colors = match cmd.execute() {
        Request::UpdateLeds { controller_id, colors } => {
            assert_eq!(controller_id, 5);
            colors
        },
        other => panic!("not an update of all LEDs: {:?}", other),
    };
    let mut expected = vec![BLACK; 12];
    expected[0] = RED;
    expected[11] = BLUE;
    expected[5] = GREEN;
    assert_eq!(colors, expected);
}

#[test]
fn local_index_in_second_zone_resolves_to_its_offset_plus_index() {
    let c = controller(&[8, 4]);
    let offsets: Vec<usize> = c.zone_iter().iter().map(|z| z.offset()).collect();
    assert_eq!(offsets, vec![0, 8]);
    let mut cmd = c.cmd();
    cmd.set_zone_led(1, 2, RED).unwrap();
    let colors = cmd.colors();
    for (i, color) in colors.iter().enumerate() {
        assert_eq!(*color, if i == 10 { RED } else { BLACK }, "at {}", i);
    }
}

#[test]
fn zone_led_out_of_bounds() {
    let c = controller(&[8, 4]);
    let mut cmd = c.cmd();
    cmd.set_zone_led(0, 7, RED).unwrap();
    let before = cmd.colors();
    assert_eq!(cmd.set_zone_led(0, 8, GREEN), Err(index_error(8, 8)));
    assert_eq!(cmd.set_zone_led(1, 4, GREEN), Err(index_error(4, 4)));
    assert_eq!(cmd.set_zone_led(2, 0, GREEN), Err(index_error(2, 2)));
    assert_eq!(cmd.colors(), before);
    assert_eq!(before[7], RED);
}

#[test]
fn three_colors_for_a_zone_of_five_leave_two_black() {
    let c = controller(&[5]);
    let mut cmd = c.cmd();
    assert_eq!(cmd.set_zone_leds(0, &[RED, GREEN, BLUE]), Ok(()));
    assert_eq!(cmd.colors(), vec![RED, GREEN, BLUE, BLACK, BLACK]);
    assert_eq!(
        cmd.execute(),
        Request::UpdateLeds { controller_id: 5, colors: vec![RED, GREEN, BLUE, BLACK, BLACK] }
    );
    // in a later zone the colors stand at the zone's offset
    let c = controller(&[2, 5, 1]);
    let zone = c.get_zone(1).unwrap();
    let cmd = zone.cmd_with_set_leds(&[RED, GREEN, BLUE]).unwrap();
    assert_eq!(cmd.colors(), vec![BLACK, BLACK, RED, GREEN, BLUE, BLACK, BLACK, BLACK]);
}

#[test]
fn zone_leds_keep_what_they_do_not_name() {
    let c = controller(&[2, 5, 1]);
    let mut cmd = c.cmd();
    for i in 0..8 {
        cmd.set_led(i, BLUE).unwrap();
    }
    cmd.set_zone_leds(1, &[RED, GREEN]).unwrap();
    assert_eq!(cmd.colors(), vec![BLUE, BLUE, RED, GREEN, BLUE, BLUE, BLUE, BLUE]);
    cmd.set_zone_leds(1, &[]).unwrap();
    assert_eq!(cmd.colors(), vec![BLUE, BLUE, RED, GREEN, BLUE, BLUE, BLUE, BLUE]);
}

#[test]
fn too_many_colors_for_a_zone() {
    let c = controller(&[2, 5, 1]);
    let mut cmd = c.cmd();
    cmd.set_led(0, RED).unwrap();
    assert_eq!(cmd.set_zone_leds(1, &[GREEN; 6]), Err(range_error(0, 6, 5)));
    assert_eq!(cmd.set_zone_leds(3, &[GREEN; 1]), Err(index_error(3, 3)));
    assert_eq!(cmd.colors()[..3], [RED, BLACK, BLACK]);
    assert_eq!(cmd.set_zone_leds(1, &[GREEN; 5]), Ok(()));
    let zone = c.get_zone(2).unwrap();
    assert_eq!(zone.cmd_with_set_leds(&[RED, RED]).err(), Some(range_error(0, 2, 1)));
}

#[test]
fn full_array_replaces_the_batch() {
    let c = controller(&[2, 2]);
    let mut cmd = c.cmd();
    cmd.set_led(3, BLUE).unwrap();
    assert_eq!(cmd.set_leds(&[RED, GREEN]), Ok(()));
    assert_eq!(cmd.colors(), vec![RED, GREEN, BLACK, BLACK]);
    assert_eq!(cmd.set_leds(&[RED; 5]), Err(range_error(0, 5, 4)));
    assert_eq!(cmd.colors(), vec![RED, GREEN, BLACK, BLACK]);
    assert_eq!(cmd.set_leds(&[BLUE; 4]), Ok(()));
    assert_eq!(cmd.colors(), vec![BLUE; 4]);
    assert_eq!(cmd.set_leds(&[]), Ok(()));
    assert_eq!(cmd.colors(), vec![BLACK; 4]);
}

#[test]
fn segment_addressing() {
    // the last zone has 6 LEDs at offset 3, its segment the LEDs 3..6 of it
    let c = controller(&[3, 6]);
    assert_eq!(c.segment_range(1, 0), Ok((6, 3)));
    let mut cmd = c.cmd();
    cmd.set_segment_led(1, 0, 2, RED).unwrap();
    assert_eq!(cmd.colors()[8], RED);
    assert_eq!(cmd.set_segment_led(1, 0, 3, RED), Err(index_error(3, 3)));
    assert_eq!(cmd.set_segment_led(1, 1, 0, RED), Err(index_error(1, 1)));
    assert_eq!(cmd.set_segment_led(0, 0, 0, RED), Err(index_error(0, 0)));
    assert_eq!(cmd.set_segment_led(2, 0, 0, RED), Err(index_error(2, 2)));
    cmd.set_segment_leds(1, 0, &[GREEN, BLUE]).unwrap();
    assert_eq!(
        cmd.colors(),
        vec![BLACK, BLACK, BLACK, BLACK, BLACK, BLACK, GREEN, BLUE, RED]
    );
    assert_eq!(cmd.set_segment_leds(1, 0, &[GREEN; 4]), Err(range_error(0, 4, 3)));
    assert_eq!(cmd.set_segment_leds(1, 5, &[GREEN; 1]), Err(index_error(5, 1)));
    assert_eq!(
        cmd.colors(),
        vec![BLACK, BLACK, BLACK, BLACK, BLACK, BLACK, GREEN, BLUE, RED]
    );
    let zone = c.get_zone(1).unwrap();
    let segment = zone.get_segment(0).unwrap();
    assert_eq!(segment.cmd().colors(), vec![BLACK; 9]);
    let cmd = segment.cmd_with_set_leds(&[RED]).unwrap();
    assert_eq!(cmd.colors()[6], RED);
    assert_eq!(cmd.colors()[7], BLACK);
    assert_eq!(segment.cmd_with_set_leds(&[RED; 4]).err(), Some(range_error(0, 4, 3)));
}

#[test]
fn command_from_a_function_of_the_led() {
    let c = controller(&[3, 4]);
    let zone = c.get_zone(1).unwrap();
    let cmd = zone.cmd_with_leds(|led| Color::new(255, (led.id() as u8).wrapping_mul(10), 0));
    assert_eq!(
        cmd.colors(),
        vec![
            BLACK,
            BLACK,
            BLACK,
            Color::new(255, 30, 0),
            Color::new(255, 40, 0),
            Color::new(255, 50, 0),
            Color::new(255, 60, 0),
        ]
    );
    let cmd = zone.cmd_with_leds(|led| led.color());
    assert_eq!(cmd.colors()[2], BLACK);
    assert_eq!(cmd.colors()[3], Color::new(9, 9, 9));
    assert_eq!(zone.cmd().colors(), vec![BLACK; 7]);
}

#[test]
fn command_for_one_led() {
    let c = controller(&[3, 4]);
    let led = c.get_led(4).unwrap();
    let cmd = led.cmd_with_color(GREEN);
    let mut expected = vec![BLACK; 7];
    expected[4] = GREEN;
    assert_eq!(cmd.colors(), expected);
    assert_eq!(
        led.set_led(RED),
        Request::UpdateSingleLed { controller_id: 5, led_id: 4, color: RED }
    );
}

fn get_color_for_led(led: Led) -> Color {
    let g = (led.id() as u8).wrapping_mul(10);
    Color::new(255, g, 0)
}

#[test]
fn command_for_all_leds_from_a_function() {
    let c = controller(&[2, 3]);
    let cmd = c.cmd_with_leds(get_color_for_led);
    let expected: Vec<Color> = (0..5u8).map(|i| Color::new(255, 10 * i, 0)).collect();
    assert_eq!(cmd.colors(), expected);
    // the same, one LED after another
    let mut by_hand = c.cmd();
    for led in c.led_iter() {
        by_hand.set_led(led.id(), get_color_for_led(led)).unwrap();
    }
    assert_eq!(by_hand.colors(), expected);
    assert_eq!(by_hand.execute(), cmd.execute());
}
