//! The closed table of measurement modes of the multimeter.

use vstd::prelude::*;

verus! {

/// What the multimeter is measuring, and in which unit.
///
/// Each mode is bound to one 16-bit code, whose low three bits are clear.
#[derive(Debug, Clone, Copy, PartialEq, Eq, Structural)]
pub enum Mode {
    DcMillivolt,
    DcVolt,
    AcMillivolt,
    AcVolt,
    DcMicroAmpere,
    DcMilliAmpere,
    DcAmpere,
    AcMicroAmpere,
    AcMilliAmpere,
    AcAmpere,
    Ohm,
    KiloOhm,
    MegaOhm,
    NanoFarad,
    MicroFarad,
    MilliFarad,
    Farad,
    Hertz,
    KiloHertz,
    MegaHertz,
    DutyCyclePercent,
    DegreesCelsius,
    DegreesFahrenheit,
    DiodeVolt,
    ContinuityOhm,
    NearField,
}

impl Mode {
    /// The 16-bit code that the instrument sends for this mode.
    pub open spec fn spec_code(self) -> u16 {
        match self {
            Mode::DcMillivolt => 0xF018,
            Mode::DcVolt => 0xF020,
            Mode::AcMillivolt => 0xF058,
            Mode::AcVolt => 0xF060,
            Mode::DcMicroAmpere => 0xF090,
            Mode::DcMilliAmpere => 0xF098,
            Mode::DcAmpere => 0xF0A0,
            Mode::AcMicroAmpere => 0xF0D0,
            Mode::AcMilliAmpere => 0xF0D8,
            Mode::AcAmpere => 0xF0E0,
            Mode::Ohm => 0xF120,
            Mode::KiloOhm => 0xF128,
            Mode::MegaOhm => 0xF130,
            Mode::NanoFarad => 0xF148,
            Mode::MicroFarad => 0xF150,
            Mode::MilliFarad => 0xF158,
            Mode::Farad => 0xF160,
            Mode::Hertz => 0xF1A0,
            Mode::KiloHertz => 0xF1A8,
            Mode::MegaHertz => 0xF1B0,
            Mode::DutyCyclePercent => 0xF1E0,
            Mode::DegreesCelsius => 0xF220,
            Mode::DegreesFahrenheit => 0xF260,
            Mode::DiodeVolt => 0xF2A0,
            Mode::ContinuityOhm => 0xF2E0,
            Mode::NearField => 0xF360,
        }
    }

    /// Whether some mode is bound to `code`.
    pub open spec fn is_known_code(code: u16) -> bool {
        exists|m: Mode| m.spec_code() == code
    }

    /// The mode bound to `code`, if there is one.
    pub open spec fn spec_from_code(code: u16) -> Option<Mode> {
        if Mode::is_known_code(code) {
            Some(choose|m: Mode| m.spec_code() == code)
        } else {
            None
        }
    }

    /// The display unit of this mode, as text.
    pub open spec fn unit(self) -> Seq<char> {
        match self {
            Mode::DcMillivolt => "mV DC"@,
            Mode::DcVolt => "V DC"@,
            Mode::AcMillivolt => "mV AC"@,
            Mode::AcVolt => "V AC"@,
            Mode::DcMicroAmpere => "µA DC"@,
            Mode::DcMilliAmpere => "mA DC"@,
            Mode::DcAmpere => "A DC"@,
            Mode::AcMicroAmpere => "µA AC"@,
            Mode::AcMilliAmpere => "mA AC"@,
            Mode::AcAmpere => "A AC"@,
            Mode::Ohm => "Ω"@,
            Mode::KiloOhm => "kΩ"@,
            Mode::MegaOhm => "MΩ"@,
            Mode::NanoFarad => "nF"@,
            Mode::MicroFarad => "µF"@,
            Mode::MilliFarad => "mF"@,
            Mode::Farad => "F"@,
            Mode::Hertz => "Hz"@,
            Mode::KiloHertz => "kHz"@,
            Mode::MegaHertz => "MHz"@,
            Mode::DutyCyclePercent => "%"@,
            Mode::DegreesCelsius => "°C"@,
            Mode::DegreesFahrenheit => "°F"@,
            Mode::DiodeVolt => "V ―⯈⊢"@,
            Mode::ContinuityOhm => "Ohm ))))"@,
            Mode::NearField => "(NF)"@,
        }
    }

    /// The code of this mode.
    #[verifier::when_used_as_spec(spec_code)]
    pub fn code(self) -> (code: u16)
        ensures
            code == self.spec_code(),
    {
        match self {
            Mode::DcMillivolt => 0xF018,
            Mode::DcVolt => 0xF020,
            Mode::AcMillivolt => 0xF058,
            Mode::AcVolt => 0xF060,
            Mode::DcMicroAmpere => 0xF090,
            Mode::DcMilliAmpere => 0xF098,
            Mode::DcAmpere => 0xF0A0,
            Mode::AcMicroAmpere => 0xF0D0,
            Mode::AcMilliAmpere => 0xF0D8,
            Mode::AcAmpere => 0xF0E0,
            Mode::Ohm => 0xF120,
            Mode::KiloOhm => 0xF128,
            Mode::MegaOhm => 0xF130,
            Mode::NanoFarad => 0xF148,
            Mode::MicroFarad => 0xF150,
            Mode::MilliFarad => 0xF158,
            Mode::Farad => 0xF160,
            Mode::Hertz => 0xF1A0,
            Mode::KiloHertz => 0xF1A8,
            Mode::MegaHertz => 0xF1B0,
            Mode::DutyCyclePercent => 0xF1E0,
            Mode::DegreesCelsius => 0xF220,
            Mode::DegreesFahrenheit => 0xF260,
            Mode::DiodeVolt => 0xF2A0,
            Mode::ContinuityOhm => 0xF2E0,
            Mode::NearField => 0xF360,
        }
    }

    /// Resolves a code against the table.
    ///
    /// The result is the mode bound to exactly this code. A code outside the
    /// table gives `None`: no nearest match is guessed.
    pub fn from_code(code: u16) -> (mode: Option<Mode>)
        ensures
            mode == Mode::spec_from_code(code),
            match mode {
                Some(m) => m.spec_code() == code,
                None => !Mode::is_known_code(code),
            },
    {
        let mode = match code {
            0xF018 => Some(Mode::DcMillivolt),
            0xF020 => Some(Mode::DcVolt),
            0xF058 => Some(Mode::AcMillivolt),
            0xF060 => Some(Mode::AcVolt),
            0xF090 => Some(Mode::DcMicroAmpere),
            0xF098 => Some(Mode::DcMilliAmpere),
            0xF0A0 => Some(Mode::DcAmpere),
            0xF0D0 => Some(Mode::AcMicroAmpere),
            0xF0D8 => Some(Mode::AcMilliAmpere),
            0xF0E0 => Some(Mode::AcAmpere),
            0xF120 => Some(Mode::Ohm),
            0xF128 => Some(Mode::KiloOhm),
            0xF130 => Some(Mode::MegaOhm),
            0xF148 => Some(Mode::NanoFarad),
            0xF150 => Some(Mode::MicroFarad),
            0xF158 => Some(Mode::MilliFarad),
            0xF160 => Some(Mode::Farad),
            0xF1A0 => Some(Mode::Hertz),
            0xF1A8 => Some(Mode::KiloHertz),
            0xF1B0 => Some(Mode::MegaHertz),
            0xF1E0 => Some(Mode::DutyCyclePercent),
            0xF220 => Some(Mode::DegreesCelsius),
            0xF260 => Some(Mode::DegreesFahrenheit),
            0xF2A0 => Some(Mode::DiodeVolt),
            0xF2E0 => Some(Mode::ContinuityOhm),
            0xF360 => Some(Mode::NearField),
            _ => None,
        };
        proof {
            if let Some(m) = mode {
                lemma_from_code_of_code(m);
            }
        }
        mode
    }

    /// The display unit of this mode.
    pub fn as_str(&self) -> (label: &'static str)
        ensures
            label@ == self.unit(),
    {
        match self {
            Mode::DcMillivolt => "mV DC",
            Mode::DcVolt => "V DC",
            Mode::AcMillivolt => "mV AC",
            Mode::AcVolt => "V AC",
            Mode::DcMicroAmpere => "µA DC",
            Mode::DcMilliAmpere => "mA DC",
            Mode::DcAmpere => "A DC",
            Mode::AcMicroAmpere => "µA AC",
            Mode::AcMilliAmpere => "mA AC",
            Mode::AcAmpere => "A AC",
            Mode::Ohm => "Ω",
            Mode::KiloOhm => "kΩ",
            Mode::MegaOhm => "MΩ",
            Mode::NanoFarad => "nF",
            Mode::MicroFarad => "µF",
            Mode::MilliFarad => "mF",
            Mode::Farad => "F",
            Mode::Hertz => "Hz",
            Mode::KiloHertz => "kHz",
            Mode::MegaHertz => "MHz",
            Mode::DutyCyclePercent => "%",
            Mode::DegreesCelsius => "°C",
            Mode::DegreesFahrenheit => "°F",
            Mode::DiodeVolt => "V ―⯈⊢",
            Mode::ContinuityOhm => "Ohm ))))",
            Mode::NearField => "(NF)",
        }
    }
}

/// No two modes share a code: a code names at most one mode.
pub proof fn lemma_code_injective(a: Mode, b: Mode)
    requires
        a.spec_code() == b.spec_code(),
    ensures
        a == b,
{
}

/// Every code of the table has its low three bits clear, so that a frame can
/// carry the decimal divider there.
pub proof fn lemma_code_low_bits_clear(m: Mode)
    ensures
        m.spec_code() & 0x7 == 0,
        m.spec_code() % 8 == 0,
{
    let c = m.spec_code();
    assert(c % 8 == 0);
    assert(c % 8 == 0 ==> c & 0x7 == 0) by (bit_vector);
}

/// Resolving the code of a mode gives that mode back, and a code resolves
/// to a mode only if it is the code of that mode.
pub proof fn lemma_from_code_of_code(m: Mode)
    ensures
        Mode::spec_from_code(m.spec_code()) == Some(m),
        forall|code: u16| Mode::spec_from_code(code) == Some(m) ==> code == m.spec_code(),
{
    assert(Mode::is_known_code(m.spec_code()));
    let found = choose|x: Mode| x.spec_code() == m.spec_code();
    lemma_code_injective(found, m);
}

} // verus!
