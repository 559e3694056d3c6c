//! Telemetry frames and the readings decoded from them.
//!
//! A frame is six bytes: a little-endian 16-bit field that holds the mode code
//! (low three bits cleared) and the decimal divider (low three bits), a flag
//! byte, a reserved byte, and a little-endian 16-bit value in sign-magnitude
//! form.

use crate::owon::mode::{lemma_from_code_of_code, Mode};
use vstd::prelude::*;

verus! {

/// Length of a telemetry frame in bytes.
pub const FRAME_LEN: usize = 6;

/// The magnitude by which the instrument reports "out of range".
pub const OUT_OF_RANGE: u16 = 0x7FFF;

/// The largest decimal divider that a frame can carry.
pub const MAX_DIVIDER: u8 = 7;

/// Number of value units in one display unit: values carry seven decimals.
pub const VALUE_SCALE: i64 = 10_000_000;

/// Ten to the power `n`.
pub open spec fn pow10(n: nat) -> nat
    decreases n,
{
    if n == 0 {
        1
    } else {
        10 * pow10((n - 1) as nat)
    }
}

/// The 16-bit number whose little-endian bytes are `lo`, `hi`.
pub open spec fn le_u16(lo: u8, hi: u8) -> u16 {
    (lo as int + 256 * (hi as int)) as u16
}

/// The fields of one frame, not yet interpreted.
#[derive(Debug, Clone, Copy, PartialEq, Eq, Structural)]
pub struct RawMessage {
    /// Mode code and decimal divider, combined.
    pub mode_and_divider: u16,
    /// Flag bits.
    pub flags: u8,
    /// Reserved byte; carried, never interpreted.
    pub unknown: u8,
    /// Sign bit and 15-bit magnitude.
    pub raw_value: u16,
}

/// The frame that six bytes spell out.
pub open spec fn spec_frame(bytes: Seq<u8>) -> RawMessage
    recommends
        bytes.len() == FRAME_LEN,
{
    RawMessage {
        mode_and_divider: le_u16(bytes[0], bytes[1]),
        flags: bytes[2],
        unknown: bytes[3],
        raw_value: le_u16(bytes[4], bytes[5]),
    }
}

/// What a reading is: the model of [`Reading`].
pub struct ReadingView {
    /// The resolved mode.
    pub mode: Mode,
    /// Decimal divider: the magnitude counts units of `10^-divider`.
    pub divider: nat,
    /// Sign bit of the value.
    pub negative: bool,
    /// Magnitude before scaling.
    pub magnitude: nat,
    pub hold: bool,
    pub relative: bool,
    pub autoranging: bool,
    pub low_battery: bool,
}

impl ReadingView {
    /// The ranges that a decoded reading keeps to.
    pub open spec fn wf(self) -> bool {
        &&& self.divider <= MAX_DIVIDER
        &&& self.magnitude <= OUT_OF_RANGE
    }

    /// Whether the instrument reported "out of range" in place of a number.
    pub open spec fn out_of_range(self) -> bool {
        self.magnitude == OUT_OF_RANGE
    }

    /// The value field as the instrument sent it: the magnitude, with the sign
    /// in the top bit.
    pub open spec fn raw_value(self) -> nat {
        if self.negative {
            self.magnitude + 0x8000
        } else {
            self.magnitude
        }
    }

    /// The magnitude with its sign.
    pub open spec fn signed_magnitude(self) -> int {
        if self.negative {
            -(self.magnitude as int)
        } else {
            self.magnitude as int
        }
    }

    /// The physical value in units of `1 / VALUE_SCALE` of the mode's display
    /// unit: the signed magnitude divided by `10^divider`, exactly. There is
    /// none where the instrument reported "out of range".
    pub open spec fn value(self) -> Option<int> {
        if self.out_of_range() {
            None
        } else {
            Some(self.signed_magnitude() * pow10((MAX_DIVIDER - self.divider) as nat))
        }
    }
}

/// What the fields of a frame say: a reading in the mode bound to the frame's
/// mode code, and nothing where no mode is bound to it.
pub open spec fn spec_interpret(raw: RawMessage) -> Option<ReadingView> {
    match Mode::spec_from_code(raw.spec_mode()) {
        Some(mode) => Some(decoded(raw, mode)),
        None => None,
    }
}

/// What a telemetry message says: the reading of its frame, and nothing where
/// the message is not six bytes long or the frame's mode code is not in the
/// table.
pub open spec fn spec_parse(bytes: Seq<u8>) -> Option<ReadingView> {
    if bytes.len() == FRAME_LEN {
        spec_interpret(spec_frame(bytes))
    } else {
        None
    }
}

/// How the fields of a frame are read, once its mode is resolved.
pub open spec fn decoded(raw: RawMessage, mode: Mode) -> ReadingView {
    ReadingView {
        mode,
        divider: raw.spec_divider() as nat,
        negative: raw.raw_value & 0x8000 != 0,
        magnitude: (raw.raw_value & 0x7FFF) as nat,
        hold: raw.flags & 0x1 != 0,
        relative: raw.flags & 0x2 != 0,
        autoranging: raw.flags & 0x4 != 0,
        low_battery: raw.flags & 0x8 != 0,
    }
}

impl RawMessage {
    /// The mode code: the combined field with its low three bits cleared.
    pub open spec fn spec_mode(&self) -> u16 {
        self.mode_and_divider & 0xFFF8
    }

    /// The decimal divider: the low three bits of the combined field.
    pub open spec fn spec_divider(&self) -> u8 {
        (self.mode_and_divider & 0x7) as u8
    }

    /// Splits a frame into its fields. Any other length than six bytes is no
    /// frame.
    pub fn from_bytes(message: &[u8]) -> (raw: Option<RawMessage>)
        ensures
            raw == if message@.len() == FRAME_LEN {
                Some(spec_frame(message@))
            } else {
                None
            },
    {
        if message.len() != FRAME_LEN {
            return None;
        }
        Some(
            RawMessage {
                mode_and_divider: u16_from_le(message[0], message[1]),
                flags: message[2],
                unknown: message[3],
                raw_value: u16_from_le(message[4], message[5]),
            },
        )
    }

    /// The mode code of the frame.
    #[verifier::when_used_as_spec(spec_mode)]
    pub fn mode(&self) -> (code: u16)
        ensures
            code == self.spec_mode(),
    {
        self.mode_and_divider & 0xFFF8
    }

    /// The decimal divider of the frame, 0 to 7.
    #[verifier::when_used_as_spec(spec_divider)]
    pub fn divider(&self) -> (divider: u8)
        ensures
            divider == self.spec_divider(),
            divider <= MAX_DIVIDER,
    {
        let field = self.mode_and_divider;
        assert(field & 0x7 <= 7) by (bit_vector);
        (field & 0x7) as u8
    }
}

/// Joins two bytes, low byte first.
fn u16_from_le(lo: u8, hi: u8) -> (joined: u16)
    ensures
        joined == le_u16(lo, hi),
{
    assert((lo as u16) | ((hi as u16) << 8) == (lo as u16) + 256 * (hi as u16)) by (bit_vector);
    (lo as u16) | ((hi as u16) << 8)
}

/// One measurement of the multimeter.
#[derive(Debug, Clone, Copy, PartialEq, Eq, Structural)]
pub struct Reading {
    mode: Mode,
    divider: u8,
    raw_value: u16,
    hold: bool,
    relative: bool,
    autoranging: bool,
    low_battery: bool,
}

impl View for Reading {
    type V = ReadingView;

    closed spec fn view(&self) -> ReadingView {
        ReadingView {
            mode: self.mode,
            divider: self.divider as nat,
            negative: self.raw_value & 0x8000 != 0,
            magnitude: (self.raw_value & 0x7FFF) as nat,
            hold: self.hold,
            relative: self.relative,
            autoranging: self.autoranging,
            low_battery: self.low_battery,
        }
    }
}

impl Reading {
    #[verifier::type_invariant]
    spec fn divider_in_range(self) -> bool {
        self.divider <= MAX_DIVIDER
    }

    /// Interprets the fields of a frame.
    ///
    /// The reading exists exactly if the frame's mode code is in the table; its
    /// mode is then the one bound to that code.
    pub fn new(raw: RawMessage) -> (reading: Option<Reading>)
        ensures
            match reading {
                Some(r) => spec_interpret(raw) == Some(r@) && r@.wf(),
                None => spec_interpret(raw) is None,
            },
    {
        let mode = match Mode::from_code(raw.mode()) {
            Some(mode) => mode,
            None => {
                return None;
            },
        };
        let divider = raw.divider();
        let raw_value = raw.raw_value;
        let hold = raw.flags & 0x1 != 0;
        let relative = raw.flags & 0x2 != 0;
        let autoranging = raw.flags & 0x4 != 0;
        let low_battery = raw.flags & 0x8 != 0;
        assert(raw_value & 0x7FFF <= 0x7FFF) by (bit_vector);
        Some(Reading { mode, divider, raw_value, hold, relative, autoranging, low_battery })
    }

    /// The mode of the measurement.
    pub fn mode(&self) -> (mode: Mode)
        ensures
            mode == self@.mode,
    {
        self.mode
    }

    /// The decimal divider, 0 to 7.
    pub fn divider(&self) -> (divider: u8)
        ensures
            divider == self@.divider,
            divider <= MAX_DIVIDER,
    {
        proof {
            use_type_invariant(self);
        }
        self.divider
    }

    /// The magnitude of the value, before scaling: 0 to `OUT_OF_RANGE`.
    pub fn magnitude(&self) -> (magnitude: u16)
        ensures
            magnitude == self@.magnitude,
            magnitude <= OUT_OF_RANGE,
    {
        let raw = self.raw_value;
        assert(raw & 0x7FFF <= 0x7FFF) by (bit_vector);
        raw & 0x7FFF
    }

    /// Whether the sign bit of the value is set.
    pub fn is_negative(&self) -> (negative: bool)
        ensures
            negative == self@.negative,
    {
        self.raw_value & 0x8000 != 0
    }

    /// The value field as the instrument sent it: sign bit and magnitude.
    pub fn raw_value(&self) -> (raw: u16)
        ensures
            raw == self@.raw_value(),
    {
        let raw = self.raw_value;
        assert(raw == (raw & 0x7FFF) + (if raw & 0x8000 != 0 {
            0x8000u16
        } else {
            0u16
        })) by (bit_vector);
        raw
    }

    /// Whether the display is on hold.
    pub fn hold(&self) -> (flag: bool)
        ensures
            flag == self@.hold,
    {
        self.hold
    }

    /// Whether the value is relative to a stored one.
    pub fn relative(&self) -> (flag: bool)
        ensures
            flag == self@.relative,
    {
        self.relative
    }

    /// Whether the instrument picks its range itself.
    pub fn autoranging(&self) -> (flag: bool)
        ensures
            flag == self@.autoranging,
    {
        self.autoranging
    }

    /// Whether the battery of the instrument is low.
    pub fn low_battery(&self) -> (flag: bool)
        ensures
            flag == self@.low_battery,
    {
        self.low_battery
    }

    /// The physical value in units of `1 / VALUE_SCALE` of the mode's display
    /// unit, or `None` where the instrument reported "out of range".
    ///
    /// The result is exact: it is the signed magnitude times
    /// `10^(7 - divider)`, so that the value over `VALUE_SCALE` is the signed
    /// magnitude over `10^divider`.
    pub fn value(&self) -> (value: Option<i64>)
        ensures
            self@.wf(),
            value is None <==> self@.out_of_range(),
            match value {
                Some(v) => self@.value() == Some(v as int),
                None => self@.value() is None,
            },
    {
        proof {
            use_type_invariant(self);
            reveal_with_fuel(pow10, 8);
        }
        let raw_value = self.raw_value;
        assert(raw_value & 0x7FFF <= 0x7FFF) by (bit_vector);
        let magnitude: u16 = raw_value & 0x7FFF;
        if magnitude == OUT_OF_RANGE {
            return None;
        }
        let scale: i64 = match self.divider {
            0 => 10_000_000,
            1 => 1_000_000,
            2 => 100_000,
            3 => 10_000,
            4 => 1_000,
            5 => 100,
            6 => 10,
            _ => 1,
        };
        assert(scale == pow10((MAX_DIVIDER - self.divider) as nat));
        let magnitude: i64 = magnitude as i64;
        let signed: i64 = if raw_value & 0x8000 != 0 {
            -magnitude
        } else {
            magnitude
        };
        assert(signed * scale == self@.signed_magnitude() * scale);
        assert(-0x7FFF * 10_000_000 <= signed * scale <= 0x7FFF * 10_000_000) by (nonlinear_arith)
            requires
                -0x7FFF <= signed <= 0x7FFF,
                1 <= scale <= 10_000_000,
        ;
        Some(signed * scale)
    }
}

/// Decodes one telemetry frame.
///
/// A reading comes back exactly for a frame of six bytes whose mode code is in
/// the table. Its mode is the one bound to that code, its divider the low
/// three bits of the combined field. Anything else is no reading.
pub fn parse(message: &[u8]) -> (reading: Option<Reading>)
    ensures
        match reading {
            Some(r) => spec_parse(message@) == Some(r@) && r@.wf(),
            None => spec_parse(message@) is None,
        },
{
    match RawMessage::from_bytes(message) {
        Some(raw) => Reading::new(raw),
        None => None,
    }
}

/// A frame of six bytes with a mode code of the table decodes, to a reading
/// whose mode is the one bound to that code and whose divider is the low
/// three bits of the combined field.
pub proof fn lemma_known_frame_decodes(bytes: Seq<u8>, mode: Mode)
    requires
        bytes.len() == FRAME_LEN,
        mode.spec_code() == spec_frame(bytes).spec_mode(),
    ensures
        spec_parse(bytes) == Some(decoded(spec_frame(bytes), mode)),
        spec_parse(bytes).unwrap().mode == mode,
        spec_parse(bytes).unwrap().divider == spec_frame(bytes).mode_and_divider & 0x7,
        spec_parse(bytes).unwrap().divider == spec_frame(bytes).mode_and_divider % 8,
        spec_parse(bytes).unwrap().wf(),
{
    lemma_from_code_of_code(mode);
    lemma_decoded_fields(spec_frame(bytes), mode);
    let field = spec_frame(bytes).mode_and_divider;
    assert(field & 0x7 == field % 8) by (bit_vector);
}

/// A message of another length than six bytes, and a frame whose mode code is
/// not in the table, decode to nothing; and nothing else does.
pub proof fn lemma_other_frames_do_not_decode(bytes: Seq<u8>)
    ensures
        spec_parse(bytes) is None <==> bytes.len() != FRAME_LEN || !Mode::is_known_code(
            spec_frame(bytes).spec_mode(),
        ),
        spec_parse(bytes) matches Some(r) ==> r.mode.spec_code() == spec_frame(bytes).spec_mode(),
{
}

/// A reading is what its model says, and no more: two readings with the same
/// model are the same reading.
pub proof fn lemma_view_injective(a: Reading, b: Reading)
    requires
        a@ == b@,
    ensures
        a == b,
{
    let x = a.raw_value;
    let y = b.raw_value;
    assert(a@.magnitude == b@.magnitude && a@.negative == b@.negative);
    assert(x & 0x7FFF == y & 0x7FFF && ((x & 0x8000 != 0) == (y & 0x8000 != 0)) ==> x == y)
        by (bit_vector);
}

/// The bit fields of a frame in arithmetic: the divider is the combined field
/// modulo 8 and the mode code the rest of it; the magnitude is the value
/// field modulo 2^15 and the sign its top bit; the flags are the low four
/// bits of the flag byte. Whatever the frame holds, what is decoded keeps to
/// its ranges.
pub proof fn lemma_decoded_fields(raw: RawMessage, mode: Mode)
    ensures
        raw.spec_mode() == raw.mode_and_divider - raw.mode_and_divider % 8,
        decoded(raw, mode).divider == raw.mode_and_divider % 8,
        decoded(raw, mode).magnitude == raw.raw_value % 0x8000,
        decoded(raw, mode).negative == (raw.raw_value >= 0x8000),
        decoded(raw, mode).hold == (raw.flags % 2 == 1),
        decoded(raw, mode).relative == ((raw.flags / 2) % 2 == 1),
        decoded(raw, mode).autoranging == ((raw.flags / 4) % 2 == 1),
        decoded(raw, mode).low_battery == ((raw.flags / 8) % 2 == 1),
        decoded(raw, mode).wf(),
{
    let field = raw.mode_and_divider;
    let value = raw.raw_value;
    let flags = raw.flags;
    assert(field & 0xFFF8 == field - field % 8) by (bit_vector);
    assert(field & 0x7 == field % 8) by (bit_vector);
    assert(value & 0x7FFF == value % 0x8000) by (bit_vector);
    assert((value & 0x8000 != 0) == (value >= 0x8000)) by (bit_vector);
    assert((flags & 0x1 != 0) == (flags % 2 == 1)) by (bit_vector);
    assert((flags & 0x2 != 0) == ((flags / 2) % 2 == 1)) by (bit_vector);
    assert((flags & 0x4 != 0) == ((flags / 4) % 2 == 1)) by (bit_vector);
    assert((flags & 0x8 != 0) == ((flags / 8) % 2 == 1)) by (bit_vector);
}

/// The "out of range" sentinel does not depend on the sign bit: a frame
/// decodes to "out of range", and so to no value, exactly if its value field
/// is `0x7FFF` or `0xFFFF`.
pub proof fn lemma_sentinel_has_no_value(raw: RawMessage, mode: Mode)
    ensures
        decoded(raw, mode).out_of_range() <==> raw.raw_value == 0x7FFF || raw.raw_value == 0xFFFF,
        decoded(raw, mode).value() is None <==> decoded(raw, mode).out_of_range(),
{
    let value = raw.raw_value;
    assert((value & 0x7FFF == 0x7FFF) <==> (value == 0x7FFF || value == 0xFFFF)) by (bit_vector);
}

/// The value of a reading is its signed magnitude over `10^divider`, in
/// units of `1 / VALUE_SCALE`: for a magnitude `m` below the sentinel and a
/// divider `d`, the value `v` has `v / VALUE_SCALE == -m / 10^d` with the
/// sign bit set and `v / VALUE_SCALE == m / 10^d` without it, both as exact
/// fractions.
pub proof fn lemma_value_is_scaled_quotient(reading: ReadingView)
    requires
        reading.wf(),
        !reading.out_of_range(),
    ensures
        reading.value() matches Some(v) && {
            &&& v * pow10(reading.divider) == reading.signed_magnitude() * VALUE_SCALE
            &&& reading.negative ==> v * pow10(reading.divider) == -(reading.magnitude
                * VALUE_SCALE)
            &&& !reading.negative ==> v * pow10(reading.divider) == reading.magnitude
                * VALUE_SCALE
            &&& -(OUT_OF_RANGE * VALUE_SCALE) < v < OUT_OF_RANGE * VALUE_SCALE
        },
{
    reveal_with_fuel(pow10, 8);
    let d = reading.divider;
    let up = pow10((MAX_DIVIDER - d) as nat) as int;
    let down = pow10(d) as int;
    let m = reading.signed_magnitude();
    assert(pow10(0) == 1 && pow10(1) == 10 && pow10(2) == 100 && pow10(3) == 1_000);
    assert(pow10(4) == 10_000 && pow10(5) == 100_000 && pow10(6) == 1_000_000);
    assert(pow10(7) == 10_000_000);
    assert(up * down == VALUE_SCALE) by {
        if d == 0 {
            assert(up == 10_000_000 && down == 1);
            assert(up * down == 10_000_000) by (nonlinear_arith)
                requires
                    up == 10_000_000,
                    down == 1,
            ;
        } else if d == 1 {
            assert(up == 1_000_000 && down == 10);
            assert(up * down == 10_000_000) by (nonlinear_arith)
                requires
                    up == 1_000_000,
                    down == 10,
            ;
        } else if d == 2 {
            assert(up == 100_000 && down == 100);
            assert(up * down == 10_000_000) by (nonlinear_arith)
                requires
                    up == 100_000,
                    down == 100,
            ;
        } else if d == 3 {
            assert(up == 10_000 && down == 1_000);
            assert(up * down == 10_000_000) by (nonlinear_arith)
                requires
                    up == 10_000,
                    down == 1_000,
            ;
        } else if d == 4 {
            assert(up == 1_000 && down == 10_000);
            assert(up * down == 10_000_000) by (nonlinear_arith)
                requires
                    up == 1_000,
                    down == 10_000,
            ;
        } else if d == 5 {
            assert(up == 100 && down == 100_000);
            assert(up * down == 10_000_000) by (nonlinear_arith)
                requires
                    up == 100,
                    down == 100_000,
            ;
        } else if d == 6 {
            assert(up == 10 && down == 1_000_000);
            assert(up * down == 10_000_000) by (nonlinear_arith)
                requires
                    up == 10,
                    down == 1_000_000,
            ;
        } else {
            assert(d == 7);
            assert(up == 1 && down == 10_000_000);
            assert(up * down == 10_000_000) by (nonlinear_arith)
                requires
                    up == 1,
                    down == 10_000_000,
            ;
        }
    }
    assert(1 <= up <= VALUE_SCALE);
    assert((m * up) * down == m * (up * down)) by (nonlinear_arith);
    assert(-(OUT_OF_RANGE * VALUE_SCALE) < m * up < OUT_OF_RANGE * VALUE_SCALE)
        by (nonlinear_arith)
        requires
            -0x7FFF < m < 0x7FFF,
            1 <= up <= 10_000_000,
            OUT_OF_RANGE == 0x7FFF,
            VALUE_SCALE == 10_000_000,
    ;
}

} // verus!
