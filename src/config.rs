//! The settings that the module accepts and their wire forms.

use vstd::prelude::*;

verus! {

/// Over-the-air transmission mode of the module (`AT+FU1` .. `AT+FU4`).
#[derive(Clone, Copy, Debug, PartialEq, Eq, Structural)]
pub enum TransmissionMode {
    Fu1,
    Fu2,
    Fu3,
    Fu4,
}

/// The UART rates that the module supports.
#[derive(Clone, Copy, Debug, PartialEq, Eq, Structural)]
pub enum BaudRate {
    Baud1200,
    Baud2400,
    Baud4800,
    Baud9600,
    Baud19200,
    Baud38400,
    Baud57600,
    Baud115200,
}

impl Default for BaudRate {
    /// The module ships configured at 9600 baud.
    fn default() -> (r: BaudRate)
        ensures
            r == BaudRate::Baud9600,
    {
        BaudRate::Baud9600
    }
}

/// The digit of a transmission mode.
pub open spec fn mode_number(m: TransmissionMode) -> u32 {
    match m {
        TransmissionMode::Fu1 => 1,
        TransmissionMode::Fu2 => 2,
        TransmissionMode::Fu3 => 3,
        TransmissionMode::Fu4 => 4,
    }
}

/// The rate in bits per second.
pub open spec fn rate_value(b: BaudRate) -> u32 {
    match b {
        BaudRate::Baud1200 => 1200,
        BaudRate::Baud2400 => 2400,
        BaudRate::Baud4800 => 4800,
        BaudRate::Baud9600 => 9600,
        BaudRate::Baud19200 => 19200,
        BaudRate::Baud38400 => 38400,
        BaudRate::Baud57600 => 57600,
        BaudRate::Baud115200 => 115200,
    }
}

/// The decimal numeral of the rate, as ASCII bytes.
pub open spec fn rate_numeral(b: BaudRate) -> Seq<u8> {
    match b {
        BaudRate::Baud1200 => seq![49u8, 50, 48, 48],
        BaudRate::Baud2400 => seq![50u8, 52, 48, 48],
        BaudRate::Baud4800 => seq![52u8, 56, 48, 48],
        BaudRate::Baud9600 => seq![57u8, 54, 48, 48],
        BaudRate::Baud19200 => seq![49u8, 57, 50, 48, 48],
        BaudRate::Baud38400 => seq![51u8, 56, 52, 48, 48],
        BaudRate::Baud57600 => seq![53u8, 55, 54, 48, 48],
        BaudRate::Baud115200 => seq![49u8, 49, 53, 50, 48, 48],
    }
}

pub open spec fn is_digit(c: u8) -> bool {
    48 <= c <= 57
}

/// The value of a string of decimal digits, most significant first.
pub open spec fn digits_value(s: Seq<u8>) -> int
    decreases s.len(),
{
    if s.len() == 0 {
        0
    } else {
        10 * digits_value(s.drop_last()) + (s.last() - 48)
    }
}

/// A decimal numeral: at least one digit and nothing else.
pub open spec fn is_numeral(s: Seq<u8>) -> bool {
    s.len() > 0 && forall|i: int| 0 <= i < s.len() ==> is_digit(#[trigger] s[i])
}

/// Reading the numeral of a rate back as a decimal number gives the rate.
pub proof fn lemma_rate_numeral_round_trip(b: BaudRate)
    ensures
        is_numeral(rate_numeral(b)),
        digits_value(rate_numeral(b)) == rate_value(b) as int,
{
    reveal_with_fuel(digits_value, 7);
    let s = rate_numeral(b);
    assert(s.drop_last().drop_last().drop_last().drop_last() =~= s.take(s.len() - 4));
    match b {
        BaudRate::Baud1200 => {
            assert(s.drop_last() =~= seq![49u8, 50, 48]);
            assert(s.drop_last().drop_last() =~= seq![49u8, 50]);
            assert(s.drop_last().drop_last().drop_last() =~= seq![49u8]);
            assert(s.drop_last().drop_last().drop_last().drop_last() =~= Seq::<u8>::empty());
        },
        _ => {},
    }
}

impl TransmissionMode {
    /// The mode's number, 1 to 4.
    pub fn number(self) -> (r: u32)
        ensures
            r == mode_number(self),
    {
        match self {
            TransmissionMode::Fu1 => 1,
            TransmissionMode::Fu2 => 2,
            TransmissionMode::Fu3 => 3,
            TransmissionMode::Fu4 => 4,
        }
    }
}

impl BaudRate {
    /// The rate's decimal numeral, as it stands in commands and replies.
    pub fn numeral(self) -> (r: Vec<u8>)
        ensures
            r@ == rate_numeral(self),
    {
        let r = match self {
            BaudRate::Baud1200 => vec![49u8, 50, 48, 48],
            BaudRate::Baud2400 => vec![50u8, 52, 48, 48],
            BaudRate::Baud4800 => vec![52u8, 56, 48, 48],
            BaudRate::Baud9600 => vec![57u8, 54, 48, 48],
            BaudRate::Baud19200 => vec![49u8, 57, 50, 48, 48],
            BaudRate::Baud38400 => vec![51u8, 56, 52, 48, 48],
            BaudRate::Baud57600 => vec![53u8, 55, 54, 48, 48],
            BaudRate::Baud115200 => vec![49u8, 49, 53, 50, 48, 48],
        };
        assert(r@ =~= rate_numeral(self));
        r
    }

    /// The rate in bits per second, as the UART is configured with it.
    pub fn value(self) -> (r: u32)
        ensures
            r == rate_value(self),
    {
        match self {
            BaudRate::Baud1200 => 1200,
            BaudRate::Baud2400 => 2400,
            BaudRate::Baud4800 => 4800,
            BaudRate::Baud9600 => 9600,
            BaudRate::Baud19200 => 19200,
            BaudRate::Baud38400 => 38400,
            BaudRate::Baud57600 => 57600,
            BaudRate::Baud115200 => 115200,
        }
    }
}

} // verus!
