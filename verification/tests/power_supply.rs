use cap_reformer::reform::Command;
use cap_reformer::rk6006::{
    encode, identity, set_current, set_current_protection, set_output, set_voltage,
    set_voltage_protection, voltage, voltage_and_current, Identity, RegisterWrite,
    CURRENT_PER_COUNT, IDENTITY_LEN, MILLIVOLTS_PER_COUNT, REG_CURRENT_PROTECTION,
    REG_CURRENT_SET, REG_IDENTITY, REG_MEASURED, REG_OUTPUT, REG_VOLTAGE_PROTECTION,
    REG_VOLTAGE_SET,
};

const MA: i64 = 10_000_000;

#[test]
fn registers_are_where_the_supply_has_them() {
    assert_eq!(REG_IDENTITY, 0);
    assert_eq!(IDENTITY_LEN, 4);
    assert_eq!(REG_VOLTAGE_SET, 8);
    assert_eq!(REG_CURRENT_SET, 9);
    assert_eq!(REG_MEASURED, 10);
    assert_eq!(REG_OUTPUT, 18);
    assert_eq!(REG_VOLTAGE_PROTECTION, 82);
    assert_eq!(REG_CURRENT_PROTECTION, 83);
    assert_eq!(MILLIVOLTS_PER_COUNT, 10);
    assert_eq!(CURRENT_PER_COUNT, MA);
}

#[test]
fn output_is_register_18() {
    assert_eq!(set_output(true), RegisterWrite { register: 18, value: 1 });
    assert_eq!(set_output(false), RegisterWrite { register: 18, value: 0 });
}

#[test]
fn voltage_is_written_in_hundredths_of_a_volt() {
    assert_eq!(set_voltage(0), RegisterWrite { register: 8, value: 0 });
    assert_eq!(set_voltage(500), RegisterWrite { register: 8, value: 50 });
    assert_eq!(set_voltage(10_000), RegisterWrite { register: 8, value: 1000 });
    assert_eq!(set_voltage(60_000), RegisterWrite { register: 8, value: 6000 });
}

#[test]
fn voltage_below_a_count_is_cut_off() {
    assert_eq!(set_voltage(9).value, 0);
    assert_eq!(set_voltage(10).value, 1);
    assert_eq!(set_voltage(19).value, 1);
    assert_eq!(set_voltage(12_345).value, 1234);
}

#[test]
fn voltage_outside_the_register_saturates() {
    assert_eq!(set_voltage(-1).value, 0);
    assert_eq!(set_voltage(-500).value, 0);
    assert_eq!(set_voltage(i64::MIN).value, 0);
    assert_eq!(set_voltage(655_349).value, 65_534);
    assert_eq!(set_voltage(655_350).value, 65_535);
    assert_eq!(set_voltage(655_360).value, 65_535);
    assert_eq!(set_voltage(i64::MAX).value, 65_535);
}

#[test]
fn voltage_protection_is_register_82() {
    assert_eq!(set_voltage_protection(12_000), RegisterWrite { register: 82, value: 1200 });
    assert_eq!(set_voltage_protection(-3).value, 0);
    assert_eq!(set_voltage_protection(i64::MAX).value, 65_535);
}

#[test]
fn current_is_written_in_milliamperes() {
    assert_eq!(set_current(30 * MA), RegisterWrite { register: 9, value: 30 });
    assert_eq!(set_current(0), RegisterWrite { register: 9, value: 0 });
    assert_eq!(set_current(MA - 1).value, 0);
    assert_eq!(set_current(MA).value, 1);
    assert_eq!(set_current(5 * MA / 2).value, 2);
    assert_eq!(set_current(-MA).value, 0);
    assert_eq!(set_current(65_535 * MA).value, 65_535);
    assert_eq!(set_current(70_000 * MA).value, 65_535);
    assert_eq!(set_current(i64::MAX).value, 65_535);
}

#[test]
fn current_protection_is_register_83() {
    assert_eq!(set_current_protection(100 * MA), RegisterWrite { register: 83, value: 100 });
    assert_eq!(set_current_protection(-1).value, 0);
}

#[test]
fn commands_encode_to_their_writes() {
    assert_eq!(encode(Command::SetVoltage(2500)), RegisterWrite { register: 8, value: 250 });
    assert_eq!(encode(Command::SetVoltage(2500)), set_voltage(2500));
    assert_eq!(encode(Command::SetCurrent(30 * MA)), RegisterWrite { register: 9, value: 30 });
    assert_eq!(encode(Command::SetOutput(true)), RegisterWrite { register: 18, value: 1 });
    assert_eq!(encode(Command::SetOutput(false)), RegisterWrite { register: 18, value: 0 });
}

#[test]
fn measured_voltage_is_read_in_millivolts() {
    assert_eq!(voltage(&[1234]), Some(12_340));
    assert_eq!(voltage(&[0]), Some(0));
    assert_eq!(voltage(&[65_535, 7]), Some(655_350));
    assert_eq!(voltage(&[]), None);
}

#[test]
fn measured_voltage_and_current_are_read_together() {
    assert_eq!(voltage_and_current(&[1234, 30]), Some((12_340, 30 * MA)));
    assert_eq!(voltage_and_current(&[0, 0]), Some((0, 0)));
    assert_eq!(
        voltage_and_current(&[65_535, 65_535, 1]),
        Some((655_350, 655_350_000_000))
    );
    assert_eq!(voltage_and_current(&[1234]), None);
    assert_eq!(voltage_and_current(&[]), None);
}

#[test]
fn identity_is_read_from_four_registers() {
    assert_eq!(
        identity(&[60_066, 0x0001, 0xE240, 136]),
        Some(Identity { model: 6006, serial: 0x0001_E240, firmware: 136 })
    );
    assert_eq!(
        identity(&[65_535, 0xFFFF, 0xFFFF, 0xFFFF, 9]),
        Some(Identity { model: 6553, serial: 0xFFFF_FFFF, firmware: 0xFFFF })
    );
    assert_eq!(identity(&[60_066, 1, 2]), None);
    assert_eq!(identity(&[]), None);
}
