//! A strongly typed memory-size value.
//!
//! A [`Byte`] holds a non-negative count of bytes. The count can be read
//! back verbatim, converted to a larger unit of the ladder by floor
//! division, or rendered as human-readable text in the largest unit the
//! value reaches, with an exact decimal fraction when it does not fall on
//! a unit boundary.

use vstd::prelude::*;

pub mod digits;

verus! {

/// Number of bytes in one kibibyte (KiB).
pub const BYTES_IN_ONE_KIBIBYTE: u64 = 1000;

/// Number of bytes in one mebibyte (MiB).
pub const BYTES_IN_ONE_MEBIBYTE: u64 = BYTES_IN_ONE_KIBIBYTE * 1000;

/// Number of bytes in one gibibyte (GiB).
pub const BYTES_IN_ONE_GIBIBYTE: u64 = BYTES_IN_ONE_MEBIBYTE * 1000;

/// Number of bytes in one tebibyte (TiB).
pub const BYTES_IN_ONE_TEBIBYTE: u64 = BYTES_IN_ONE_GIBIBYTE * 1000;

/// A named conversion factor of the unit ladder, relative to bytes.
///
/// The ladder is ordered: each unit holds one thousand of the unit below
/// it, starting from the byte.
#[derive(Clone, Copy, PartialEq, Eq, Structural, Debug)]
pub enum Unit {
    Byte,
    Kibibyte,
    Mebibyte,
    Gibibyte,
    Tebibyte,
}

/// The ways a size operation can fail.
#[derive(Clone, Copy, PartialEq, Eq, Structural, Debug)]
pub enum SizeError {
    /// Scaling a count into bytes would exceed the representable range.
    Overflow,
    /// The value is too large for the largest unit the ladder supports.
    UnsupportedRange,
}

impl Unit {
    /// How many bytes one of this unit holds.
    pub open spec fn spec_bytes_per_unit(self) -> u64 {
        match self {
            Unit::Byte => 1,
            Unit::Kibibyte => BYTES_IN_ONE_KIBIBYTE,
            Unit::Mebibyte => BYTES_IN_ONE_MEBIBYTE,
            Unit::Gibibyte => BYTES_IN_ONE_GIBIBYTE,
            Unit::Tebibyte => BYTES_IN_ONE_TEBIBYTE,
        }
    }

    /// How many bytes one of this unit holds.
    #[verifier::when_used_as_spec(spec_bytes_per_unit)]
    pub fn bytes_per_unit(self) -> (factor: u64)
        ensures
            factor == self.spec_bytes_per_unit(),
    {
        match self {
            Unit::Byte => 1,
            Unit::Kibibyte => BYTES_IN_ONE_KIBIBYTE,
            Unit::Mebibyte => BYTES_IN_ONE_MEBIBYTE,
            Unit::Gibibyte => BYTES_IN_ONE_GIBIBYTE,
            Unit::Tebibyte => BYTES_IN_ONE_TEBIBYTE,
        }
    }

    /// The abbreviation shown after a value in this unit, with its leading
    /// separator space.
    pub open spec fn spec_suffix(self) -> Seq<char> {
        match self {
            Unit::Byte => " B"@,
            Unit::Kibibyte => " KiB"@,
            Unit::Mebibyte => " MiB"@,
            Unit::Gibibyte => " GiB"@,
            Unit::Tebibyte => " TiB"@,
        }
    }

    /// How many decimal places a sub-unit remainder takes in this unit:
    /// the number of digits of `factor - 1`.
    pub open spec fn spec_fraction_width(self) -> nat {
        match self {
            Unit::Byte => 0,
            Unit::Kibibyte => 3,
            Unit::Mebibyte => 6,
            Unit::Gibibyte => 9,
            Unit::Tebibyte => 12,
        }
    }

    /// The unit one rung below this one on the ladder; the byte stays the
    /// byte.
    pub open spec fn spec_next_smaller(self) -> Unit {
        match self {
            Unit::Byte => Unit::Byte,
            Unit::Kibibyte => Unit::Byte,
            Unit::Mebibyte => Unit::Kibibyte,
            Unit::Gibibyte => Unit::Mebibyte,
            Unit::Tebibyte => Unit::Gibibyte,
        }
    }
}

/// The display unit for a byte count: the largest unit of the ladder
/// whose factor the count reaches, the byte itself below one kibibyte.
pub open spec fn spec_display_unit(bytes: u64) -> Unit {
    if bytes < BYTES_IN_ONE_KIBIBYTE {
        Unit::Byte
    } else if bytes < BYTES_IN_ONE_MEBIBYTE {
        Unit::Kibibyte
    } else if bytes < BYTES_IN_ONE_GIBIBYTE {
        Unit::Mebibyte
    } else if bytes < BYTES_IN_ONE_TEBIBYTE {
        Unit::Gibibyte
    } else {
        Unit::Tebibyte
    }
}

/// The formatted text for a byte count: the count scaled to its display
/// unit, the exact decimal fraction when it does not fall on a unit
/// boundary, and the unit's abbreviation.
pub open spec fn spec_format(bytes: u64) -> Seq<char> {
    let unit = spec_display_unit(bytes);
    let factor = unit.spec_bytes_per_unit();
    let whole = (bytes / factor) as nat;
    let frac = (bytes % factor) as nat;
    if frac == 0 {
        digits::spec_decimal(whole) + unit.spec_suffix()
    } else {
        digits::spec_decimal(whole) + "."@ + digits::spec_fraction(frac, unit.spec_fraction_width())
            + unit.spec_suffix()
    }
}

/// The display unit for `bytes`.
fn display_unit(bytes: u64) -> (unit: Unit)
    ensures
        unit == spec_display_unit(bytes),
{
    if bytes < BYTES_IN_ONE_KIBIBYTE {
        Unit::Byte
    } else if bytes < BYTES_IN_ONE_MEBIBYTE {
        Unit::Kibibyte
    } else if bytes < BYTES_IN_ONE_GIBIBYTE {
        Unit::Mebibyte
    } else if bytes < BYTES_IN_ONE_TEBIBYTE {
        Unit::Gibibyte
    } else {
        Unit::Tebibyte
    }
}

/// The abbreviation shown after a value in `unit`.
fn suffix_str(unit: Unit) -> (s: &'static str)
    ensures
        s@ == unit.spec_suffix(),
{
    match unit {
        Unit::Byte => " B",
        Unit::Kibibyte => " KiB",
        Unit::Mebibyte => " MiB",
        Unit::Gibibyte => " GiB",
        Unit::Tebibyte => " TiB",
    }
}

/// How many decimal places a sub-unit remainder takes in `unit`.
fn fraction_width(unit: Unit) -> (width: u64)
    ensures
        width == unit.spec_fraction_width(),
{
    match unit {
        Unit::Byte => 0,
        Unit::Kibibyte => 3,
        Unit::Mebibyte => 6,
        Unit::Gibibyte => 9,
        Unit::Tebibyte => 12,
    }
}

/// The structure for representing a specific number of bytes.
#[derive(Clone, Copy, PartialEq, Eq, Structural, Debug)]
pub struct Byte {
    /// The number of bytes represented by this instance.
    bytes: u64,
}

/// The structure for representing a specific number of bytes.
pub type Bytes = Byte;

impl View for Byte {
    type V = u64;

    /// The byte count a value represents.
    closed spec fn view(&self) -> u64 {
        self.bytes
    }
}

impl Byte {
    /// Wrap a literal byte count verbatim.
    pub fn construct(bytes: u64) -> (size: Byte)
        ensures
            size@ == bytes,
    {
        Byte { bytes }
    }

    /// Get a [`Byte`] representation from a [`u64`].
    pub fn from(value: u64) -> (size: Byte)
        ensures
            size@ == value,
    {
        Byte::construct(value)
    }

    /// Wrap a count expressed in `unit`, scaling it into bytes; reports an
    /// overflow instead of wrapping around when the scaled count does not
    /// fit.
    pub fn construct_from_unit(count: u64, unit: Unit) -> (result: Result<Byte, SizeError>)
        ensures
            count * unit.spec_bytes_per_unit() <= u64::MAX <==> result is Ok,
            match result {
                Ok(size) => size@ == count * unit.spec_bytes_per_unit(),
                Err(error) => error == SizeError::Overflow,
            },
    {
        match count.checked_mul(unit.bytes_per_unit()) {
            Some(bytes) => Ok(Byte { bytes }),
            None => Err(SizeError::Overflow),
        }
    }

    /// The represented byte count, verbatim.
    pub fn as_bytes(&self) -> (count: u64)
        ensures
            count == self@,
    {
        self.bytes
    }

    /// The represented value expressed in `unit`: the floor of the byte
    /// count divided by the unit's factor, `0` when the value is smaller
    /// than one unit.
    pub fn as_unit(&self, unit: Unit) -> (count: u64)
        ensures
            count == self@ / unit.spec_bytes_per_unit(),
    {
        self.bytes / unit.bytes_per_unit()
    }

    /// Get the string representation for the represented value.
    ///
    /// The value is shown in the largest unit of the ladder it reaches,
    /// with the exact decimal fraction when it does not fall on a unit
    /// boundary, for example `8.123 KiB` for `8123` bytes. Values of one
    /// tebibyte and above are outside the supported range and excluded
    /// here; [`Self::format`] reports them as an error instead.
    pub fn get_string_representation(&self) -> (s: String)
        requires
            self@ < BYTES_IN_ONE_TEBIBYTE,
        ensures
            s@ == spec_format(self@),
    {
        let unit = display_unit(self.bytes);
        let factor = unit.bytes_per_unit();
        let whole = self.bytes / factor;
        let frac = self.bytes % factor;
        let mut s = digits::decimal_string(whole);
        if frac != 0 {
            s.append(".");
            let fraction = digits::fraction_string(frac, fraction_width(unit));
            s.append(fraction.as_str());
        }
        s.append(suffix_str(unit));
        proof {
            assert(s@ =~= spec_format(self@));
        }
        s
    }

    /// Format the represented value as human-readable text, or report
    /// that it lies above the largest unit the ladder supports.
    pub fn format(&self) -> (result: Result<String, SizeError>)
        ensures
            self@ < BYTES_IN_ONE_TEBIBYTE <==> result is Ok,
            match result {
                Ok(s) => s@ == spec_format(self@),
                Err(error) => error == SizeError::UnsupportedRange,
            },
    {
        if self.bytes < BYTES_IN_ONE_TEBIBYTE {
            Ok(self.get_string_representation())
        } else {
            Err(SizeError::UnsupportedRange)
        }
    }
}

/// A count scaled into bytes and read back in the same unit is
/// unchanged: whenever `count * factor` fits in a `u64`, dividing the
/// scaled byte count by the factor again yields exactly `count`.
pub proof fn lemma_from_unit_round_trip(count: u64, unit: Unit)
    requires
        count * unit.spec_bytes_per_unit() <= u64::MAX,
    ensures
        ((count * unit.spec_bytes_per_unit()) as u64) / unit.spec_bytes_per_unit() == count,
{
    let factor = unit.spec_bytes_per_unit();
    vstd::arithmetic::div_mod::lemma_div_multiples_vanish(count as int, factor as int);
    assert(factor * count == count * factor) by (nonlinear_arith);
}

/// Formatting is a pure function of the represented value: two sizes
/// that hold the same byte count format to identical text, however and
/// whenever each is rendered.
pub proof fn lemma_format_is_pure(a: Byte, b: Byte)
    requires
        a@ == b@,
    ensures
        spec_format(a@) == spec_format(b@),
{
}

/// Zero formats in the byte unit: a single zero digit with the byte
/// suffix, with no fraction.
pub proof fn lemma_format_zero()
    ensures
        spec_format(0) == "0 B"@,
{
    reveal_strlit("0 B");
    reveal_strlit(" B");
    assert(spec_format(0) =~= "0 B"@);
}

/// One less than a unit's factor still formats in the unit below it on
/// the ladder; exactly the factor promotes the display unit to the unit
/// itself.
pub proof fn lemma_display_unit_boundary(unit: Unit)
    requires
        unit != Unit::Byte,
    ensures
        spec_display_unit((unit.spec_bytes_per_unit() - 1) as u64) == unit.spec_next_smaller(),
        spec_display_unit(unit.spec_bytes_per_unit()) == unit,
{
}

} // verus!
