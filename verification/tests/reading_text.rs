use cap_reformer::owon::reading::{parse, Reading};

fn reading_in(code: u16, divider: u16, flags: u8, raw_value: u16) -> Reading {
    let field = code | divider;
    parse(&[
        (field & 0xFF) as u8,
        (field >> 8) as u8,
        flags,
        0,
        (raw_value & 0xFF) as u8,
        (raw_value >> 8) as u8,
    ])
    .unwrap()
}

fn float_text(reading: &Reading) -> String {
    let raw = reading.raw_value();
    let magnitude = raw & 0x7FFF;
    if magnitude == 0x7FFF {
        return format!("-- {}", reading.mode().as_str());
    }
    let mut number = f64::from(magnitude);
    if raw & 0x8000 != 0 {
        number = -number;
    }
    let value = number / 10.0_f64.powi(i32::from(reading.divider()));
    format!("{:.*} {}", usize::from(reading.divider()), value, reading.mode().as_str())
}

#[test]
fn value_text_has_as_many_decimals_as_the_divider() {
    assert_eq!(reading_in(0xF098, 3, 0, 1234).value_text(), "1.234 mA DC");
    assert_eq!(reading_in(0xF098, 0, 0, 1234).value_text(), "1234 mA DC");
    assert_eq!(reading_in(0xF098, 1, 0, 1234).value_text(), "123.4 mA DC");
    assert_eq!(reading_in(0xF098, 7, 0, 5).value_text(), "0.0000005 mA DC");
    assert_eq!(reading_in(0xF098, 4, 0, 1234).value_text(), "0.1234 mA DC");
    assert_eq!(reading_in(0xF098, 2, 0, 0).value_text(), "0.00 mA DC");
    assert_eq!(reading_in(0xF098, 0, 0, 0).value_text(), "0 mA DC");
    assert_eq!(reading_in(0xF098, 2, 0, 100).value_text(), "1.00 mA DC");
    assert_eq!(reading_in(0xF098, 2, 0, 0x7FFE).value_text(), "327.66 mA DC");
}

#[test]
fn value_text_shows_the_sign_bit() {
    assert_eq!(reading_in(0xF020, 2, 0, 0x8000 | 50).value_text(), "-0.50 V DC");
    assert_eq!(reading_in(0xF020, 0, 0, 0x8000 | 7).value_text(), "-7 V DC");
    assert_eq!(reading_in(0xF020, 3, 0, 0x8000).value_text(), "-0.000 V DC");
}

#[test]
fn value_text_of_the_sentinel_is_two_dashes() {
    assert_eq!(reading_in(0xF098, 3, 0, 0x7FFF).value_text(), "-- mA DC");
    assert_eq!(reading_in(0xF098, 0, 0, 0xFFFF).value_text(), "-- mA DC");
    assert_eq!(reading_in(0xF120, 5, 0, 0x7FFF).value_text(), "-- Ω");
}

#[test]
fn value_text_ends_with_the_unit_of_the_mode() {
    assert_eq!(reading_in(0xF128, 1, 0, 47).value_text(), "4.7 kΩ");
    assert_eq!(reading_in(0xF150, 2, 0, 2200).value_text(), "22.00 µF");
    assert_eq!(reading_in(0xF220, 0, 0, 0x8000 | 12).value_text(), "-12 °C");
    assert_eq!(reading_in(0xF2A0, 3, 0, 612).value_text(), "0.612 V ―⯈⊢");
}

#[test]
fn value_text_is_what_float_formatting_prints() {
    let magnitudes = [0u16, 1, 5, 9, 10, 49, 50, 99, 100, 999, 1000, 1234, 9999, 10_000, 32_766, 0x7FFF];
    for divider in 0..8u16 {
        for magnitude in magnitudes {
            for sign in [0u16, 0x8000] {
                let reading = reading_in(0xF098, divider, 0, sign | magnitude);
                assert_eq!(reading.value_text(), float_text(&reading));
            }
        }
    }
}

#[test]
fn describe_lists_raw_value_and_flags() {
    assert_eq!(
        reading_in(0xF098, 3, 0x04, 1234).describe(),
        "Message { raw: 1234, value: 1.234 mA DC, hold: false, relative: false, autoranging: true, low_battery: false }"
    );
    assert_eq!(
        reading_in(0xF020, 2, 0x0B, 0x8000 | 50).describe(),
        "Message { raw: 32818, value: -0.50 V DC, hold: true, relative: true, autoranging: false, low_battery: true }"
    );
    assert_eq!(
        reading_in(0xF098, 0, 0x00, 0xFFFF).describe(),
        "Message { raw: 65535, value: -- mA DC, hold: false, relative: false, autoranging: false, low_battery: false }"
    );
    assert_eq!(
        reading_in(0xF098, 0, 0x00, 0).describe(),
        "Message { raw: 0, value: 0 mA DC, hold: false, relative: false, autoranging: false, low_battery: false }"
    );
}

#[test]
fn magnitude_and_sign_are_the_parts_of_the_raw_value() {
    let reading = reading_in(0xF098, 3, 0, 0x8000 | 1234);
    assert_eq!(reading.magnitude(), 1234);
    assert!(reading.is_negative());
    assert_eq!(reading.raw_value(), 0x84D2);
    let reading = reading_in(0xF098, 3, 0, 0x7FFF);
    assert_eq!(reading.magnitude(), 0x7FFF);
    assert!(!reading.is_negative());
}
