//! Readings as text.

use crate::owon::reading::{pow10, Reading, ReadingView};
use vstd::prelude::*;
use vstd::string::StringExecFns;

verus! {

/// The character of one decimal digit.
pub open spec fn digit(d: nat) -> char
    recommends
        d < 10,
{
    if d == 0 {
        '0'
    } else if d == 1 {
        '1'
    } else if d == 2 {
        '2'
    } else if d == 3 {
        '3'
    } else if d == 4 {
        '4'
    } else if d == 5 {
        '5'
    } else if d == 6 {
        '6'
    } else if d == 7 {
        '7'
    } else if d == 8 {
        '8'
    } else {
        '9'
    }
}

/// The decimal digits of `n`, without leading zeros.
pub open spec fn decimal(n: nat) -> Seq<char>
    decreases n,
{
    if n < 10 {
        seq![digit(n)]
    } else {
        decimal(n / 10).push(digit(n % 10))
    }
}

/// The last `width` decimal digits of `n`, with leading zeros where `n` has
/// fewer.
pub open spec fn last_digits(n: nat, width: nat) -> Seq<char>
    decreases width,
{
    if width == 0 {
        Seq::empty()
    } else {
        last_digits(n / 10, (width - 1) as nat).push(digit(n % 10))
    }
}

/// The number `n / 10^places`, written with exactly `places` decimals.
pub open spec fn fixed_point(n: nat, places: nat) -> Seq<char> {
    if places == 0 {
        decimal(n)
    } else {
        decimal(n / pow10(places)) + seq!['.'] + last_digits(n, places)
    }
}

/// A truth value as text.
pub open spec fn truth(b: bool) -> Seq<char> {
    if b {
        "true"@
    } else {
        "false"@
    }
}

impl ReadingView {
    /// The value with its unit: the signed magnitude over `10^divider` with
    /// `divider` decimals (the sign as the frame has it, also before a zero),
    /// or two dashes for "out of range"; then a blank and the unit.
    pub open spec fn value_text(self) -> Seq<char> {
        (if self.out_of_range() {
            "--"@
        } else {
            (if self.negative {
                "-"@
            } else {
                ""@
            }) + fixed_point(self.magnitude, self.divider)
        }) + " "@ + self.mode.unit()
    }

    /// The whole reading on one line.
    pub open spec fn describe(self) -> Seq<char> {
        "Message { raw: "@ + decimal(self.raw_value()) + ", value: "@ + self.value_text()
            + ", hold: "@ + truth(self.hold) + ", relative: "@ + truth(self.relative)
            + ", autoranging: "@ + truth(self.autoranging) + ", low_battery: "@ + truth(
            self.low_battery,
        ) + " }"@
    }
}

/// One decimal digit as text.
fn digit_str(d: u32) -> (text: &'static str)
    requires
        d < 10,
    ensures
        text@ == seq![digit(d as nat)],
{
    proof {
        reveal_strlit("0");
        reveal_strlit("1");
        reveal_strlit("2");
        reveal_strlit("3");
        reveal_strlit("4");
        reveal_strlit("5");
        reveal_strlit("6");
        reveal_strlit("7");
        reveal_strlit("8");
        reveal_strlit("9");
    }
    let text = match d {
        0 => "0",
        1 => "1",
        2 => "2",
        3 => "3",
        4 => "4",
        5 => "5",
        6 => "6",
        7 => "7",
        8 => "8",
        _ => "9",
    };
    assert(text@ =~= seq![digit(d as nat)]);
    text
}

/// A truth value as text.
fn truth_str(b: bool) -> (text: &'static str)
    ensures
        text@ == truth(b),
{
    if b {
        "true"
    } else {
        "false"
    }
}

/// Appends the decimal digits of `n`.
fn push_decimal(text: &mut String, n: u32)
    ensures
        final(text)@ == old(text)@ + decimal(n as nat),
    decreases n,
{
    if n >= 10 {
        push_decimal(text, n / 10);
    }
    text.append(digit_str(n % 10));
    proof {
        if n >= 10 {
            assert(text@ =~= old(text)@ + decimal((n / 10) as nat).push(digit((n % 10) as nat)));
        } else {
            assert(text@ =~= old(text)@ + seq![digit(n as nat)]);
        }
    }
}

/// Appends the last `width` decimal digits of `n`.
fn push_last_digits(text: &mut String, n: u32, width: u8)
    ensures
        final(text)@ == old(text)@ + last_digits(n as nat, width as nat),
    decreases width,
{
    if width > 0 {
        push_last_digits(text, n / 10, width - 1);
        text.append(digit_str(n % 10));
        assert(text@ =~= old(text)@ + last_digits((n / 10) as nat, (width - 1) as nat).push(
            digit((n % 10) as nat),
        ));
    } else {
        assert(text@ =~= old(text)@ + last_digits(n as nat, 0));
    }
}

/// Ten to the power `places`.
fn power_of_ten(places: u8) -> (power: u32)
    requires
        places <= 7,
    ensures
        power == pow10(places as nat),
        power >= 1,
{
    proof {
        reveal_with_fuel(pow10, 8);
    }
    match places {
        0 => 1,
        1 => 10,
        2 => 100,
        3 => 1_000,
        4 => 10_000,
        5 => 100_000,
        6 => 1_000_000,
        _ => 10_000_000,
    }
}

/// Appends `n / 10^places`, written with `places` decimals.
fn push_fixed_point(text: &mut String, n: u32, places: u8)
    requires
        places <= 7,
    ensures
        final(text)@ == old(text)@ + fixed_point(n as nat, places as nat),
{
    if places == 0 {
        push_decimal(text, n);
    } else {
        push_decimal(text, n / power_of_ten(places));
        proof {
            reveal_strlit(".");
        }
        text.append(".");
        push_last_digits(text, n, places);
        assert(text@ =~= old(text)@ + (decimal((n as nat) / pow10(places as nat)) + seq!['.']
            + last_digits(n as nat, places as nat)));
    }
}

impl Reading {
    /// Appends the value with its unit.
    fn push_value_text(&self, text: &mut String)
        ensures
            final(text)@ == old(text)@ + self@.value_text(),
    {
        let ghost start = text@;
        let magnitude = self.magnitude();
        if magnitude == 0x7FFF {
            text.append("--");
        } else {
            if self.is_negative() {
                text.append("-");
            } else {
                text.append("");
            }
            push_fixed_point(text, magnitude as u32, self.divider());
            assert(text@ =~= start + ((if self@.negative {
                "-"@
            } else {
                ""@
            }) + fixed_point(self@.magnitude, self@.divider)));
        }
        text.append(" ");
        text.append(self.mode().as_str());
        assert(text@ =~= start + self@.value_text());
    }

    /// The value with its unit, as text: `1.234 mA DC`, `-0.50 V DC`, and
    /// `-- mA DC` where the instrument reported "out of range".
    pub fn value_text(&self) -> (text: String)
        ensures
            text@ == self@.value_text(),
    {
        let mut text = String::new();
        self.push_value_text(&mut text);
        assert(text@ =~= self@.value_text());
        text
    }

    /// The whole reading on one line: the raw value field, the value with
    /// its unit, and the four flags.
    pub fn describe(&self) -> (text: String)
        ensures
            text@ == self@.describe(),
    {
        let mut text = String::new();
        text.append("Message { raw: ");
        push_decimal(&mut text, self.raw_value() as u32);
        text.append(", value: ");
        self.push_value_text(&mut text);
        text.append(", hold: ");
        text.append(truth_str(self.hold()));
        text.append(", relative: ");
        text.append(truth_str(self.relative()));
        text.append(", autoranging: ");
        text.append(truth_str(self.autoranging()));
        text.append(", low_battery: ");
        text.append(truth_str(self.low_battery()));
        text.append(" }");
        assert(text@ =~= self@.describe());
        text
    }
}

} // verus!
