//! Scale tables: the calibrated value of one screen division.
//!
//! A capture stores each scale as a small index into a fixed table. An entry
//! is a mantissa, a decimal exponent and a unit. To stay exact the mantissa is
//! kept in tenths and every physical quantity is counted in pico-units
//! (picovolts, picoseconds): `2.5 V` is 25 tenths with exponent 0, that is
//! `2_500_000_000_000` pV.

use vstd::prelude::*;
use vstd::string::StringExecFns;
use crate::error::DecodeError;

verus! {

/// Grid divisions across the screen; one division spans this many samples.
pub const DIVISION_POINTS: u64 = 50;

/// Mantissas of the time-per-division table, in tenths.
pub const TIME_MANTISSA_TENTHS: [u16; 33] = [
    500, 200, 100, 50, 20, 10,
    5000, 2000, 1000, 500, 200, 100, 50, 20, 10,
    5000, 2000, 1000, 500, 200, 100, 50, 20, 10,
    5000, 2000, 1000, 500, 200, 100, 50, 20, 10,
];

/// Decimal exponents of the time-per-division table.
pub const TIME_EXPONENT: [i32; 33] = [
    0, 0, 0, 0, 0, 0,
    -3, -3, -3, -3, -3, -3, -3, -3, -3,
    -6, -6, -6, -6, -6, -6, -6, -6, -6,
    -9, -9, -9, -9, -9, -9, -9, -9, -9,
];

/// Mantissas of the volts-per-division table, in tenths.
pub const VOLTAGE_MANTISSA_TENTHS: [u16; 7] = [50, 25, 10, 5000, 2000, 1000, 500];

/// Decimal exponents of the volts-per-division table.
pub const VOLTAGE_EXPONENT: [i32; 7] = [0, 0, 0, -3, -3, -3, -3];

/// Physical dimension of a scale.
#[derive(Clone, Copy, Debug, PartialEq, Eq, Structural)]
pub enum Unit {
    Volt,
    Second,
}

/// One table entry: `mantissa * 10^exponent` units per division.
///
/// A value only ever comes out of a table lookup, so its exponent is one of
/// 0, -3, -6, -9 and its mantissa lies between 0.1 and 500.
#[derive(Clone, Copy, Debug, PartialEq, Eq, Structural)]
pub struct Scale {
    mantissa_tenths: u16,
    exponent: i32,
    unit: Unit,
}

/// `10^n`.
pub open spec fn pow10(n: nat) -> nat
    decreases n,
{
    if n == 0 {
        1
    } else {
        10 * pow10((n - 1) as nat)
    }
}

/// Number of entries in the table of `unit`.
pub open spec fn spec_table_len(unit: Unit) -> nat {
    match unit {
        Unit::Volt => 7,
        Unit::Second => 33,
    }
}

/// Mantissa, in tenths, of entry `index` of the table of `unit`.
pub open spec fn table_mantissa_tenths(unit: Unit, index: int) -> int
    recommends
        0 <= index < spec_table_len(unit),
{
    match unit {
        Unit::Volt => VOLTAGE_MANTISSA_TENTHS[index] as int,
        Unit::Second => TIME_MANTISSA_TENTHS[index] as int,
    }
}

/// Decimal exponent of entry `index` of the table of `unit`.
pub open spec fn table_exponent(unit: Unit, index: int) -> int
    recommends
        0 <= index < spec_table_len(unit),
{
    match unit {
        Unit::Volt => VOLTAGE_EXPONENT[index] as int,
        Unit::Second => TIME_EXPONENT[index] as int,
    }
}

/// The leading digit of a time entry: the table steps 5, 2, 1 through each
/// decade.
pub open spec fn time_digit(index: int) -> int {
    if index % 3 == 0 {
        5
    } else if index % 3 == 1 {
        2
    } else {
        1
    }
}

/// The character of a decimal digit.
pub open spec fn digit_char(d: int) -> char
    recommends
        0 <= d < 10,
{
    if d == 0 {
        '0'
    } else if d == 1 {
        '1'
    } else if d == 2 {
        '2'
    } else if d == 3 {
        '3'
    } else if d == 4 {
        '4'
    } else if d == 5 {
        '5'
    } else if d == 6 {
        '6'
    } else if d == 7 {
        '7'
    } else if d == 8 {
        '8'
    } else {
        '9'
    }
}

/// Decimal digits of `n`, most significant first, without leading zeros.
pub open spec fn decimal(n: nat) -> Seq<char>
    decreases n,
{
    if n < 10 {
        seq![digit_char(n as int)]
    } else {
        decimal(n / 10).push(digit_char((n % 10) as int))
    }
}

/// A mantissa given in tenths, written as a decimal number: `25` is `2.5`,
/// `500` is `50`.
pub open spec fn mantissa_text(tenths: nat) -> Seq<char> {
    if tenths % 10 == 0 {
        decimal(tenths / 10)
    } else {
        decimal(tenths / 10).push('.').push(digit_char((tenths % 10) as int))
    }
}

/// The SI prefix that stands for a decimal exponent.
pub open spec fn prefix_text(exponent: int) -> Seq<char> {
    if exponent == -3 {
        seq!['m']
    } else if exponent == -6 {
        seq!['u']
    } else if exponent == -9 {
        seq!['n']
    } else {
        Seq::empty()
    }
}

/// The symbol of a unit.
pub open spec fn unit_text(unit: Unit) -> Seq<char> {
    match unit {
        Unit::Volt => seq!['V'],
        Unit::Second => seq!['s'],
    }
}

/// Number of entries in the table of `unit`.
pub fn table_len(unit: Unit) -> (len: usize)
    ensures
        len == spec_table_len(unit),
{
    match unit {
        Unit::Volt => 7,
        Unit::Second => 33,
    }
}

fn digit_str(d: u16) -> (text: &'static str)
    requires
        d < 10,
    ensures
        text@ == seq![digit_char(d as int)],
{
    proof {
        reveal_strlit("0");
        reveal_strlit("1");
        reveal_strlit("2");
        reveal_strlit("3");
        reveal_strlit("4");
        reveal_strlit("5");
        reveal_strlit("6");
        reveal_strlit("7");
        reveal_strlit("8");
        reveal_strlit("9");
    }
    let text = if d == 0 {
        "0"
    } else if d == 1 {
        "1"
    } else if d == 2 {
        "2"
    } else if d == 3 {
        "3"
    } else if d == 4 {
        "4"
    } else if d == 5 {
        "5"
    } else if d == 6 {
        "6"
    } else if d == 7 {
        "7"
    } else if d == 8 {
        "8"
    } else {
        "9"
    };
    assert(text@ =~= seq![digit_char(d as int)]);
    text
}

/// Appends the decimal digits of `n` to `text`.
fn append_decimal(text: &mut String, n: u16)
    ensures
        final(text)@ == old(text)@ + decimal(n as nat),
    decreases n,
{
    if n >= 10 {
        append_decimal(text, n / 10);
    }
    text.append(digit_str(n % 10));
    proof {
        if n >= 10 {
            assert(text@ =~= old(text)@ + decimal((n / 10) as nat).push(
                digit_char((n % 10) as int),
            ));
        } else {
            assert(text@ =~= old(text)@ + seq![digit_char(n as int)]);
        }
    }
}

impl Scale {
    /// What every table entry satisfies.
    #[verifier::type_invariant]
    pub closed spec fn wf(self) -> bool {
        &&& 1 <= self.mantissa_tenths <= 5000
        &&& (self.exponent == 0 || self.exponent == -3 || self.exponent == -6 || self.exponent
            == -9)
    }

    /// The mantissa in tenths.
    pub closed spec fn spec_mantissa_tenths(self) -> int {
        self.mantissa_tenths as int
    }

    /// The decimal exponent.
    pub closed spec fn spec_exponent(self) -> int {
        self.exponent as int
    }

    /// The unit of the table the entry came from.
    pub closed spec fn spec_unit(self) -> Unit {
        self.unit
    }

    /// Entry `index` of the table of `unit`.
    pub closed spec fn entry(unit: Unit, index: int) -> Scale
        recommends
            0 <= index < spec_table_len(unit),
    {
        Scale {
            mantissa_tenths: table_mantissa_tenths(unit, index) as u16,
            exponent: table_exponent(unit, index) as i32,
            unit,
        }
    }

    /// The value of one division in pico-units: `mantissa * 10^exponent`
    /// units, times `10^12`.
    pub open spec fn pico(self) -> int {
        self.spec_mantissa_tenths() * pow10((11 + self.spec_exponent()) as nat)
    }

    /// The scale as a reader writes it: mantissa, SI prefix, unit symbol.
    pub open spec fn spec_text(self) -> Seq<char> {
        mantissa_text(self.spec_mantissa_tenths() as nat) + prefix_text(self.spec_exponent())
            + unit_text(self.spec_unit())
    }

    /// Looks `number` up in the table of `unit`. A code that does not index
    /// the table is an error, never a default entry.
    pub fn try_from_primitive(unit: Unit, number: u16) -> (outcome: Result<Scale, DecodeError>)
        ensures
            number < spec_table_len(unit) ==> outcome == Ok::<Scale, DecodeError>(
                Scale::entry(unit, number as int),
            ),
            number >= spec_table_len(unit) ==> outcome == Err::<Scale, DecodeError>(
                DecodeError::ScaleIndexOutOfRange {
                    index: number,
                    table_len: spec_table_len(unit) as usize,
                },
            ),
    {
        let len = table_len(unit);
        let index = number as usize;
        if index >= len {
            return Err(DecodeError::ScaleIndexOutOfRange { index: number, table_len: len });
        }
        let scale = match unit {
            Unit::Volt => Scale {
                mantissa_tenths: VOLTAGE_MANTISSA_TENTHS[index],
                exponent: VOLTAGE_EXPONENT[index],
                unit,
            },
            Unit::Second => Scale {
                mantissa_tenths: TIME_MANTISSA_TENTHS[index],
                exponent: TIME_EXPONENT[index],
                unit,
            },
        };
        Ok(scale)
    }

    /// The mantissa in tenths.
    pub fn mantissa_tenths(&self) -> (tenths: u16)
        ensures
            tenths == self.spec_mantissa_tenths(),
            1 <= tenths <= 5000,
    {
        proof {
            use_type_invariant(self);
        }
        self.mantissa_tenths
    }

    /// The decimal exponent: 0, -3, -6 or -9.
    pub fn exponent(&self) -> (exponent: i32)
        ensures
            exponent == self.spec_exponent(),
            exponent == 0 || exponent == -3 || exponent == -6 || exponent == -9,
    {
        proof {
            use_type_invariant(self);
        }
        self.exponent
    }

    /// The unit of the table the entry came from.
    pub fn unit(&self) -> (unit: Unit)
        ensures
            unit == self.spec_unit(),
    {
        self.unit
    }

    /// The value of one division in pico-units. It is a positive multiple of
    /// [`DIVISION_POINTS`], so dividing a division into points loses nothing.
    pub fn get_scale(&self) -> (pico: u64)
        ensures
            pico == self.pico(),
            0 < pico <= 500_000_000_000_000,
            pico % 50 == 0,
    {
        proof {
            use_type_invariant(self);
            reveal_with_fuel(pow10, 12);
        }
        let factor: u64 = if self.exponent == 0 {
            100_000_000_000
        } else if self.exponent == -3 {
            100_000_000
        } else if self.exponent == -6 {
            100_000
        } else {
            100
        };
        assert(factor == pow10((11 + self.exponent) as nat));
        assert(self.mantissa_tenths * factor <= 5000 * factor) by (nonlinear_arith)
            requires
                self.mantissa_tenths <= 5000,
                factor >= 0,
        ;
        let ghost share = (factor / 50) as int;
        assert(self.mantissa_tenths * factor == 50 * (self.mantissa_tenths * share))
            by (nonlinear_arith)
            requires
                factor == 50 * share,
        ;
        assert(0 < self.mantissa_tenths * factor) by (nonlinear_arith)
            requires
                1 <= self.mantissa_tenths,
                0 < factor,
        ;
        (self.mantissa_tenths as u64) * factor
    }

    /// The scale as a reader writes it, such as `2.5V`, `500mV` or `1ns`.
    pub fn to_text(&self) -> (text: String)
        ensures
            text@ == self.spec_text(),
    {
        proof {
            use_type_invariant(self);
            reveal_strlit(".");
            reveal_strlit("");
            reveal_strlit("m");
            reveal_strlit("u");
            reveal_strlit("n");
            reveal_strlit("V");
            reveal_strlit("s");
        }
        let mut text = String::new();
        append_decimal(&mut text, self.mantissa_tenths / 10);
        if self.mantissa_tenths % 10 != 0 {
            text.append(".");
            text.append(digit_str(self.mantissa_tenths % 10));
        }
        assert(text@ =~= mantissa_text(self.mantissa_tenths as nat));
        let prefix = if self.exponent == -3 {
            "m"
        } else if self.exponent == -6 {
            "u"
        } else if self.exponent == -9 {
            "n"
        } else {
            ""
        };
        assert(prefix@ =~= prefix_text(self.exponent as int));
        text.append(prefix);
        let symbol = match self.unit {
            Unit::Volt => "V",
            Unit::Second => "s",
        };
        assert(symbol@ =~= unit_text(self.unit));
        text.append(symbol);
        text
    }
}

/// One division of a well-formed scale is a positive whole number of
/// pico-units that fifty points share without remainder.
pub proof fn lemma_pico_range(scale: Scale)
    requires
        scale.wf(),
    ensures
        0 < scale.pico() <= 500_000_000_000_000,
        scale.pico() % 50 == 0,
{
    lemma_pow10_values();
    let tenths = scale.mantissa_tenths as int;
    let factor = pow10((11 + scale.exponent) as nat) as int;
    let share = factor / 50;
    assert(factor == 50 * share);
    assert(tenths * factor == 50 * (tenths * share)) by (nonlinear_arith)
        requires
            factor == 50 * share,
    ;
    assert(0 < tenths * factor <= 5000 * factor) by (nonlinear_arith)
        requires
            1 <= tenths <= 5000,
            0 < factor,
    ;
}

/// Every entry of either table is well formed and carries the mantissa,
/// exponent and unit that the table lists at its index.
pub proof fn lemma_entry_fields(unit: Unit, index: int)
    requires
        0 <= index < spec_table_len(unit),
    ensures
        Scale::entry(unit, index).wf(),
        Scale::entry(unit, index).spec_mantissa_tenths() == table_mantissa_tenths(unit, index),
        Scale::entry(unit, index).spec_exponent() == table_exponent(unit, index),
        Scale::entry(unit, index).spec_unit() == unit,
{
}

/// The pico-value of each volts-per-division entry: 5 V, 2.5 V, 1 V, 500 mV,
/// 200 mV, 100 mV, 50 mV.
pub open spec fn voltage_pico(index: int) -> int
    recommends
        0 <= index < 7,
{
    if index == 0 {
        5_000_000_000_000
    } else if index == 1 {
        2_500_000_000_000
    } else if index == 2 {
        1_000_000_000_000
    } else if index == 3 {
        500_000_000_000
    } else if index == 4 {
        200_000_000_000
    } else if index == 5 {
        100_000_000_000
    } else {
        50_000_000_000
    }
}

/// The powers of ten that the tables reach.
proof fn lemma_pow10_values()
    ensures
        pow10(0) == 1,
        pow10(1) == 10,
        pow10(2) == 100,
        pow10(3) == 1_000,
        pow10(4) == 10_000,
        pow10(5) == 100_000,
        pow10(6) == 1_000_000,
        pow10(7) == 10_000_000,
        pow10(8) == 100_000_000,
        pow10(9) == 1_000_000_000,
        pow10(10) == 10_000_000_000,
        pow10(11) == 100_000_000_000,
        pow10(12) == 1_000_000_000_000,
        pow10(13) == 10_000_000_000_000,
{
    reveal_with_fuel(pow10, 15);
}

/// The time-per-division table runs from 50 s down to 1 ns in a 5, 2, 1
/// progression: entry `index` is `time_digit(index) * 10^(1 - index / 3)`
/// seconds, which in picoseconds is `time_digit(index) * 10^(13 - index / 3)`.
pub proof fn law_time_table_closed_form(index: int)
    requires
        0 <= index < 33,
    ensures
        Scale::entry(Unit::Second, index).pico() == time_digit(index) * pow10(
            (13 - index / 3) as nat,
        ),
{
    lemma_pow10_values();
    if index == 0 {
        assert(TIME_MANTISSA_TENTHS[0] * pow10((11 + TIME_EXPONENT[0]) as nat) == time_digit(0) * pow10(13));
    } else if index == 1 {
        assert(TIME_MANTISSA_TENTHS[1] * pow10((11 + TIME_EXPONENT[1]) as nat) == time_digit(1) * pow10(13));
    } else if index == 2 {
        assert(TIME_MANTISSA_TENTHS[2] * pow10((11 + TIME_EXPONENT[2]) as nat) == time_digit(2) * pow10(13));
    } else if index == 3 {
        assert(TIME_MANTISSA_TENTHS[3] * pow10((11 + TIME_EXPONENT[3]) as nat) == time_digit(3) * pow10(12));
    } else if index == 4 {
        assert(TIME_MANTISSA_TENTHS[4] * pow10((11 + TIME_EXPONENT[4]) as nat) == time_digit(4) * pow10(12));
    } else if index == 5 {
        assert(TIME_MANTISSA_TENTHS[5] * pow10((11 + TIME_EXPONENT[5]) as nat) == time_digit(5) * pow10(12));
    } else if index == 6 {
        assert(TIME_MANTISSA_TENTHS[6] * pow10((11 + TIME_EXPONENT[6]) as nat) == time_digit(6) * pow10(11));
    } else if index == 7 {
        assert(TIME_MANTISSA_TENTHS[7] * pow10((11 + TIME_EXPONENT[7]) as nat) == time_digit(7) * pow10(11));
    } else if index == 8 {
        assert(TIME_MANTISSA_TENTHS[8] * pow10((11 + TIME_EXPONENT[8]) as nat) == time_digit(8) * pow10(11));
    } else if index == 9 {
        assert(TIME_MANTISSA_TENTHS[9] * pow10((11 + TIME_EXPONENT[9]) as nat) == time_digit(9) * pow10(10));
    } else if index == 10 {
        assert(TIME_MANTISSA_TENTHS[10] * pow10((11 + TIME_EXPONENT[10]) as nat) == time_digit(10) * pow10(10));
    } else if index == 11 {
        assert(TIME_MANTISSA_TENTHS[11] * pow10((11 + TIME_EXPONENT[11]) as nat) == time_digit(11) * pow10(10));
    } else if index == 12 {
        assert(TIME_MANTISSA_TENTHS[12] * pow10((11 + TIME_EXPONENT[12]) as nat) == time_digit(12) * pow10(9));
    } else if index == 13 {
        assert(TIME_MANTISSA_TENTHS[13] * pow10((11 + TIME_EXPONENT[13]) as nat) == time_digit(13) * pow10(9));
    } else if index == 14 {
        assert(TIME_MANTISSA_TENTHS[14] * pow10((11 + TIME_EXPONENT[14]) as nat) == time_digit(14) * pow10(9));
    } else if index == 15 {
        assert(TIME_MANTISSA_TENTHS[15] * pow10((11 + TIME_EXPONENT[15]) as nat) == time_digit(15) * pow10(8));
    } else if index == 16 {
        assert(TIME_MANTISSA_TENTHS[16] * pow10((11 + TIME_EXPONENT[16]) as nat) == time_digit(16) * pow10(8));
    } else if index == 17 {
        assert(TIME_MANTISSA_TENTHS[17] * pow10((11 + TIME_EXPONENT[17]) as nat) == time_digit(17) * pow10(8));
    } else if index == 18 {
        assert(TIME_MANTISSA_TENTHS[18] * pow10((11 + TIME_EXPONENT[18]) as nat) == time_digit(18) * pow10(7));
    } else if index == 19 {
        assert(TIME_MANTISSA_TENTHS[19] * pow10((11 + TIME_EXPONENT[19]) as nat) == time_digit(19) * pow10(7));
    } else if index == 20 {
        assert(TIME_MANTISSA_TENTHS[20] * pow10((11 + TIME_EXPONENT[20]) as nat) == time_digit(20) * pow10(7));
    } else if index == 21 {
        assert(TIME_MANTISSA_TENTHS[21] * pow10((11 + TIME_EXPONENT[21]) as nat) == time_digit(21) * pow10(6));
    } else if index == 22 {
        assert(TIME_MANTISSA_TENTHS[22] * pow10((11 + TIME_EXPONENT[22]) as nat) == time_digit(22) * pow10(6));
    } else if index == 23 {
        assert(TIME_MANTISSA_TENTHS[23] * pow10((11 + TIME_EXPONENT[23]) as nat) == time_digit(23) * pow10(6));
    } else if index == 24 {
        assert(TIME_MANTISSA_TENTHS[24] * pow10((11 + TIME_EXPONENT[24]) as nat) == time_digit(24) * pow10(5));
    } else if index == 25 {
        assert(TIME_MANTISSA_TENTHS[25] * pow10((11 + TIME_EXPONENT[25]) as nat) == time_digit(25) * pow10(5));
    } else if index == 26 {
        assert(TIME_MANTISSA_TENTHS[26] * pow10((11 + TIME_EXPONENT[26]) as nat) == time_digit(26) * pow10(5));
    } else if index == 27 {
        assert(TIME_MANTISSA_TENTHS[27] * pow10((11 + TIME_EXPONENT[27]) as nat) == time_digit(27) * pow10(4));
    } else if index == 28 {
        assert(TIME_MANTISSA_TENTHS[28] * pow10((11 + TIME_EXPONENT[28]) as nat) == time_digit(28) * pow10(4));
    } else if index == 29 {
        assert(TIME_MANTISSA_TENTHS[29] * pow10((11 + TIME_EXPONENT[29]) as nat) == time_digit(29) * pow10(4));
    } else if index == 30 {
        assert(TIME_MANTISSA_TENTHS[30] * pow10((11 + TIME_EXPONENT[30]) as nat) == time_digit(30) * pow10(3));
    } else if index == 31 {
        assert(TIME_MANTISSA_TENTHS[31] * pow10((11 + TIME_EXPONENT[31]) as nat) == time_digit(31) * pow10(3));
    } else {
        assert(TIME_MANTISSA_TENTHS[32] * pow10((11 + TIME_EXPONENT[32]) as nat) == time_digit(32) * pow10(3));
    }
}

/// The volts-per-division table holds 5 V, 2.5 V, 1 V, 500 mV, 200 mV, 100 mV
/// and 50 mV, in that order.
pub proof fn law_voltage_table_values(index: int)
    requires
        0 <= index < 7,
    ensures
        Scale::entry(Unit::Volt, index).pico() == voltage_pico(index),
{
    lemma_pow10_values();
    if index == 0 {
        assert(VOLTAGE_MANTISSA_TENTHS[0] * pow10((11 + VOLTAGE_EXPONENT[0]) as nat)
            == voltage_pico(0));
    } else if index == 1 {
        assert(VOLTAGE_MANTISSA_TENTHS[1] * pow10((11 + VOLTAGE_EXPONENT[1]) as nat)
            == voltage_pico(1));
    } else if index == 2 {
        assert(VOLTAGE_MANTISSA_TENTHS[2] * pow10((11 + VOLTAGE_EXPONENT[2]) as nat)
            == voltage_pico(2));
    } else if index == 3 {
        assert(VOLTAGE_MANTISSA_TENTHS[3] * pow10((11 + VOLTAGE_EXPONENT[3]) as nat)
            == voltage_pico(3));
    } else if index == 4 {
        assert(VOLTAGE_MANTISSA_TENTHS[4] * pow10((11 + VOLTAGE_EXPONENT[4]) as nat)
            == voltage_pico(4));
    } else if index == 5 {
        assert(VOLTAGE_MANTISSA_TENTHS[5] * pow10((11 + VOLTAGE_EXPONENT[5]) as nat)
            == voltage_pico(5));
    } else {
        assert(VOLTAGE_MANTISSA_TENTHS[6] * pow10((11 + VOLTAGE_EXPONENT[6]) as nat)
            == voltage_pico(6));
    }
}

} // verus!
