//! Key codes, encoders, analog matrices and small device descriptions.

use rumcake::bluetooth::nrf_ble::{advertising_data, scan_data, PnPID, VidSource};
use rumcake::display::Orientation;
use rumcake::drivers::is31fl3731::{matrix_payload, Position};
use rumcake::drivers::nrf_ble::setup_driver;
use rumcake::drivers::ws2812_bitbang::{
    matrix_colors, off_colors, simple_backlight_colors, wire_bits, wire_bytes,
    WS2812BitbangBacklightMatrixDriver, RGB8,
};
use rumcake::hw::HardwareCommand;
use rumcake::key_code::KeyCode;
use rumcake::keyboard::{
    ec11_event, encoder_events, keycode_action, report_keys, sample_analog_matrix, AnalogMatrixSampler,
    EC11Encoder, Ec11Edge, EncoderEvent, Keycode, KeycodeAction, MatrixSampler, SampleError,
};
use rumcake::layout::{CustomEvent, Event};
use rumcake::matrix::{normalize, AnalogMatrix};

#[test]
fn key_code_round_trip() {
    assert_eq!(KeyCode::A.code(), 0x04);
    assert_eq!(KeyCode::LCtrl.code(), 0xE0);
    assert_eq!(KeyCode::from_u8(0x04), Some(KeyCode::A));
    assert_eq!(KeyCode::from_u8(KeyCode::Space.code()), Some(KeyCode::Space));
    for v in 0..=255u8 {
        if let Some(k) = KeyCode::from_u8(v) {
            assert_eq!(k.code(), v);
        }
    }
}

#[test]
fn ascii_key_codes() {
    assert_eq!(KeyCode::from_ascii(b'a'), KeyCode::A);
    assert_eq!(KeyCode::from_ascii(b'A'), KeyCode::A);
    assert_eq!(KeyCode::from_ascii(b'1'), KeyCode::Kb1);
    assert_eq!(KeyCode::get_mods(b'A').0, Some(KeyCode::LShift));
    assert_eq!(KeyCode::get_mods(b'a').0, None);
}

#[test]
fn shifted_symbols_need_shift() {
    assert_eq!(KeyCode::get_mods(b'('), (Some(KeyCode::LShift), None, None));
    assert_eq!(KeyCode::get_mods(b'8'), (None, None, None));
    for c in b"!\"#$%&()*+:<>?@^_{|}~".iter() {
        assert_eq!(KeyCode::get_mods(*c).0, Some(KeyCode::LShift));
    }
    for c in b"'`,-./;=[]\\ 0123456789az".iter() {
        assert_eq!(KeyCode::get_mods(*c).0, None);
    }
}

#[test]
fn custom_keycodes() {
    assert_eq!(
        keycode_action(CustomEvent::Press(Keycode::Custom(3))),
        KeycodeAction::Custom(3, true)
    );
    assert_eq!(
        keycode_action(CustomEvent::Release(Keycode::Custom(3))),
        KeycodeAction::Custom(3, false)
    );
    assert_eq!(
        keycode_action(CustomEvent::Press(Keycode::Hardware(HardwareCommand::ToggleOutput))),
        KeycodeAction::Hardware(HardwareCommand::ToggleOutput)
    );
    assert_eq!(
        keycode_action(CustomEvent::Release(Keycode::Hardware(HardwareCommand::OutputUSB))),
        KeycodeAction::Nothing
    );
    assert_eq!(keycode_action(CustomEvent::NoEvent), KeycodeAction::Nothing);
}

#[test]
fn encoder_decisions() {
    let _enc = EC11Encoder::new(1u8, 2u8, 3u8);
    assert_eq!(ec11_event(Ec11Edge::Rotation, Some(true)), EncoderEvent::CounterClockwiseRotation);
    assert_eq!(ec11_event(Ec11Edge::Rotation, Some(false)), EncoderEvent::ClockwiseRotation);
    assert_eq!(ec11_event(Ec11Edge::Rotation, None), EncoderEvent::ClockwiseRotation);
    assert_eq!(ec11_event(Ec11Edge::Switch, Some(true)), EncoderEvent::Press);
    assert_eq!(ec11_event(Ec11Edge::Switch, None), EncoderEvent::Release);
}

#[test]
fn encoder_key_events() {
    let mapping = [(0, 1), (2, 3), (4, 5)];
    assert_eq!(
        encoder_events(EncoderEvent::ClockwiseRotation, mapping),
        vec![Event::Press(2, 3), Event::Release(2, 3)]
    );
    assert_eq!(
        encoder_events(EncoderEvent::CounterClockwiseRotation, mapping),
        vec![Event::Press(4, 5), Event::Release(4, 5)]
    );
    assert_eq!(encoder_events(EncoderEvent::Press, mapping), vec![Event::Press(0, 1)]);
    assert_eq!(encoder_events(EncoderEvent::Release, mapping), vec![Event::Release(0, 1)]);
}

#[test]
fn normalization() {
    assert_eq!(normalize(100, 100, 200), 0);
    assert_eq!(normalize(50, 100, 200), 0);
    assert_eq!(normalize(200, 100, 200), 255);
    assert_eq!(normalize(4000, 100, 200), 255);
    assert_eq!(normalize(150, 100, 200), 127);
    assert_eq!(normalize(101, 100, 102), 127);
}

#[test]
fn analog_matrix_scan() {
    let mut m = AnalogMatrix::new([[100..200, 0..10], [0..1000, 5..6]]);
    let keys = m.get(|row, col| -> Result<u16, ()> { Ok([[150, 10], [250, 0]][row][col]) });
    assert_eq!(keys, Ok([[127, 255], [63, 0]]));
    let failed = m.get(|row, col| if row == 1 && col == 0 { Err(7u8) } else { Ok(0) });
    assert_eq!(failed, Err(7));
}

struct Adc {
    samples: [u16; 4],
}

impl MatrixSampler for Adc {
    type SampleType = u16;

    fn get_sample(&self, ch: usize, sub_ch: usize) -> Option<u16> {
        if ch == 0 {
            self.samples.get(sub_ch).copied()
        } else {
            None
        }
    }
}

#[test]
fn analog_sampler() {
    let adc = Adc { samples: [0, 50, 100, 25] };
    let sampler = AnalogMatrixSampler::new([[(0, 1), (0, 2)], [(0, 3), (1, 0)]], &adc);
    assert_eq!(sampler.channel_of(1, 0), Some((0, 3)));
    assert_eq!(sampler.channel_of(2, 0), None);
    assert_eq!(sampler.get_key_state(0, 1), Some(100));
    assert_eq!(sampler.get_key_state(1, 1), None);
    assert_eq!(sampler.get_key_state(0, 5), None);
    let mut matrix = AnalogMatrix::new([[0..100, 0..100], [0..100, 0..100]]);
    assert_eq!(
        sample_analog_matrix(&sampler, &mut matrix),
        Err(SampleError::NoSampleForKeyPosition(1, 1))
    );
    let sampler = AnalogMatrixSampler::new([[(0, 1), (0, 2)], [(0, 3), (0, 0)]], &adc);
    assert_eq!(
        sample_analog_matrix(&sampler, &mut matrix),
        Ok([[127, 255], [63, 0]])
    );
}

#[test]
fn led_positions() {
    assert_eq!(Position::C1_1.code(), 0);
    assert_eq!(Position::C1_16.code(), 15);
    assert_eq!(Position::C2_1.code(), 16);
    assert_eq!(Position::C9_16.code(), 143);
}

#[test]
fn pnp_id_bytes() {
    let id = PnPID { vid_source: VidSource::UsbIF, vendor_id: 0x1234, product_id: 0xABCD, product_version: 1 };
    assert_eq!(id.pack(), [2, 0x34, 0x12, 0xCD, 0xAB, 1, 0]);
    let d = PnPID::default();
    assert_eq!(d.pack(), [1, 0, 0, 0, 0, 0, 0]);
}

#[test]
fn orientation_labels() {
    assert_eq!(Orientation::Vertical.label(), "VERTICAL");
    assert_eq!(Orientation::Horizontal.label(), "HORIZONTAL");
    assert_eq!(
        rumcake::display::drivers::Orientation::Horizontal.label(),
        "HORIZONTAL"
    );
    let _driver = setup_driver();
}

#[test]
fn bluetooth_advertising() {
    let data = advertising_data(b"cake");
    assert_eq!(
        data,
        vec![
            0x02, 0x01, 0x06, 0x05, 0x03, 0x12, 0x18, 0x0F, 0x18, 0x03, 0x19, 0xC1, 0x03, 5, 0x09,
            b'c', b'a', b'k', b'e'
        ]
    );
    assert_eq!(data.len(), 4 + 15);
    assert_eq!(scan_data(), [0x05, 0x03, 0x12, 0x18, 0x0F, 0x18]);
}

#[test]
fn ws2812_wire_order() {
    assert_eq!(wire_bytes(RGB8 { r: 1, g: 2, b: 3 }), [2, 1, 3]);
    assert_eq!(wire_bits(0b1010_0001), [true, false, true, false, false, false, false, true]);
    assert_eq!(wire_bits(0), [false; 8]);
    assert_eq!(wire_bits(0xFF), [true; 8]);
}

struct Chain;

impl WS2812BitbangBacklightMatrixDriver for Chain {
    fn get_led_from_matrix_coordinates(x: u8, y: u8) -> Option<u8> {
        match (x, y) {
            (0, 0) => Some(3),
            (1, 0) => Some(0),
            (0, 1) => Some(0),
            _ => None,
        }
    }
}

#[test]
fn ws2812_frames() {
    let mut leds = [[None; 2]; 2];
    for (y, row) in leds.iter_mut().enumerate() {
        for (x, led) in row.iter_mut().enumerate() {
            *led = Chain::get_led_from_matrix_coordinates(x as u8, y as u8);
        }
    }
    let colors = matrix_colors(&[[10, 20], [30, 40]], &leds);
    assert_eq!(
        colors,
        vec![
            RGB8 { r: 1, g: 1, b: 1 },
            RGB8 { r: 0, g: 0, b: 0 },
            RGB8 { r: 0, g: 0, b: 0 },
            RGB8 { r: 0, g: 0, b: 0 },
        ]
    );
    let colors = matrix_colors(&[[100, 200], [127, 255]], &[[Some(0), Some(1)], [Some(2), Some(3)]]);
    assert_eq!(
        colors,
        vec![
            RGB8 { r: 19, g: 19, b: 19 },
            RGB8 { r: 129, g: 129, b: 129 },
            RGB8 { r: 36, g: 36, b: 36 },
            RGB8 { r: 255, g: 255, b: 255 },
        ]
    );
    assert_eq!(simple_backlight_colors(255, 3), vec![RGB8 { r: 255, g: 255, b: 255 }; 3]);
    assert_eq!(simple_backlight_colors(10, 2), vec![RGB8 { r: 0, g: 0, b: 0 }; 2]);
    assert_eq!(simple_backlight_colors(127, 1), vec![RGB8 { r: 36, g: 36, b: 36 }]);
    assert_eq!(simple_backlight_colors(64, 1), vec![RGB8 { r: 5, g: 5, b: 5 }]);
    assert_eq!(off_colors(2), vec![RGB8 { r: 0, g: 0, b: 0 }; 2]);
}

#[test]
fn is31fl3731_payload() {
    let leds = [[Position::C1_3.code(), 255], [Position::C9_16.code(), Position::C1_3.code()]];
    let payload = matrix_payload(&[[10, 20], [30, 40]], &leds);
    assert_eq!(payload.len(), 144);
    assert_eq!(payload[2], 40);
    assert_eq!(payload[143], 30);
    assert_eq!(payload.iter().filter(|v| **v != 0).count(), 2);
}

#[test]
fn reports_follow_key_changes() {
    let mut last = Vec::new();
    assert_eq!(report_keys(&mut last, vec![4, 5], true), Some(vec![4, 5]));
    assert_eq!(last, vec![4, 5]);
    assert_eq!(report_keys(&mut last, vec![4, 5], true), None);
    assert_eq!(report_keys(&mut last, vec![4], false), None);
    assert_eq!(last, vec![4]);
    assert_eq!(report_keys(&mut last, vec![4], true), None);
    assert_eq!(report_keys(&mut last, vec![], true), Some(vec![]));
    assert!(last.is_empty());
}
