//! Command frames, and the checks applied to the module's acknowledgements.

use vstd::prelude::*;
use vstd::utf8::valid_utf8;
use crate::config::{
    BaudRate, TransmissionMode, digits_value, is_digit, is_numeral, mode_number, rate_numeral,
    rate_value,
};

verus! {

/// Longest frame that the module sends or accepts.
pub const FRAME_CAPACITY: usize = 14;

/// A fault that the UART reports on its receive side.
#[derive(Clone, Copy, Debug, PartialEq, Eq, Structural)]
pub enum UartError {
    FifoOverflowed,
    GlitchOccurred,
    FrameFormatViolated,
    ParityMismatch,
}

/// Why an operation on the module failed.
#[derive(Clone, Copy, Debug, PartialEq, Eq, Structural)]
pub enum Hc12Error {
    /// The reply to `AT` was not `OK\r\n`.
    Test,
    /// The reply to a baud-rate command did not echo the rate.
    BaudRate,
    /// No supported rate answered the test command.
    AutoBaudRate,
    /// The reply to a transmission-mode command was wrong, or its rate field
    /// could not be applied.
    TransmissionMode,
    /// The reply to the factory reset was wrong, or the exchange failed.
    Default,
    /// The UART could not be configured.
    Config,
    /// The UART reported a fault while writing, flushing or reading.
    UartError(UartError),
    /// The reply was not UTF-8 text.
    InvalidResponse,
}

/// Relies on `heapless::Vec::from_slice` (which cannot overflow at this
/// length) and `heapless::String::from_utf8`, which succeeds exactly when the
/// bytes are well-formed UTF-8 (it defers to `core::str::from_utf8`).
#[verifier::external_body]
pub(crate) fn decodes_as_text(b: &[u8]) -> (r: bool)
    requires
        b@.len() <= FRAME_CAPACITY,
    ensures
        r == valid_utf8(b@),
{
    match heapless::Vec::<u8, 14>::from_slice(b) {
        Ok(v) => heapless::String::<14>::from_utf8(v).is_ok(),
        Err(_) => false,
    }
}

pub open spec fn ascii_whitespace(c: u8) -> bool {
    c == 32 || c == 9 || c == 10 || c == 11 || c == 12 || c == 13
}

pub open spec fn crlf() -> Seq<u8> {
    seq![13u8, 10]
}

/// `AT`
pub open spec fn test_command_spec() -> Seq<u8> {
    seq![65u8, 84]
}

/// `AT+B<rate>`
pub open spec fn baud_command_spec(b: BaudRate) -> Seq<u8> {
    seq![65u8, 84, 43, 66] + rate_numeral(b)
}

/// `AT+FU<mode>`
pub open spec fn mode_command_spec(m: TransmissionMode) -> Seq<u8> {
    seq![65u8, 84, 43, 70, 85, (48 + mode_number(m)) as u8]
}

/// `AT+DEFAULT`
pub open spec fn default_command_spec() -> Seq<u8> {
    seq![65u8, 84, 43, 68, 69, 70, 65, 85, 76, 84]
}

/// `OK\r\n`
pub open spec fn test_ack() -> Seq<u8> {
    seq![79u8, 75] + crlf()
}

/// `OK+B<rate>\r\n`
pub open spec fn baud_ack(b: BaudRate) -> Seq<u8> {
    seq![79u8, 75, 43, 66] + rate_numeral(b) + crlf()
}

/// `OK+FU<mode>`
pub open spec fn mode_ack(m: TransmissionMode) -> Seq<u8> {
    seq![79u8, 75, 43, 70, 85, (48 + mode_number(m)) as u8]
}

/// `OK+DEFAULT\r\n`
pub open spec fn default_ack() -> Seq<u8> {
    seq![79u8, 75, 43, 68, 69, 70, 65, 85, 76, 84] + crlf()
}

/// Index of the first comma at or after `from`, or the length if none.
pub open spec fn comma_from(s: Seq<u8>, from: int) -> int
    decreases s.len() - from,
{
    if from >= s.len() {
        s.len() as int
    } else if s[from] == 44 {
        from
    } else {
        comma_from(s, from + 1)
    }
}

/// The three-byte UTF-8 encodings of the white-space characters U+1680,
/// U+2000 to U+200A, U+2028, U+2029, U+202F, U+205F and U+3000.
pub open spec fn wide_whitespace(a: u8, b: u8, c: u8) -> bool {
    (a == 0xE1 && b == 0x9A && c == 0x80) || (a == 0xE2 && b == 0x80 && ((0x80 <= c
        && c <= 0x8A) || c == 0xA8 || c == 0xA9 || c == 0xAF)) || (a == 0xE2 && b == 0x81 && c
        == 0x9F) || (a == 0xE3 && b == 0x80 && c == 0x80)
}

/// The two-byte UTF-8 encodings of the white-space characters U+0085 and
/// U+00A0.
pub open spec fn narrow_whitespace(a: u8, b: u8) -> bool {
    a == 0xC2 && (b == 0x85 || b == 0xA0)
}

/// Byte length of the white-space character that ends `s`, or 0.
pub open spec fn whitespace_at_end(s: Seq<u8>) -> int {
    let n = s.len() as int;
    if n >= 1 && ascii_whitespace(s[n - 1]) {
        1
    } else if n >= 2 && narrow_whitespace(s[n - 2], s[n - 1]) {
        2
    } else if n >= 3 && wide_whitespace(s[n - 3], s[n - 2], s[n - 1]) {
        3
    } else {
        0
    }
}

/// Byte length of the white-space character that starts `s`, or 0.
pub open spec fn whitespace_at_start(s: Seq<u8>) -> int {
    if s.len() >= 1 && ascii_whitespace(s[0]) {
        1
    } else if s.len() >= 2 && narrow_whitespace(s[0], s[1]) {
        2
    } else if s.len() >= 3 && wide_whitespace(s[0], s[1], s[2]) {
        3
    } else {
        0
    }
}

/// Length of `s` once its trailing white space is removed.
pub open spec fn trimmed_end(s: Seq<u8>) -> int
    decreases s.len(),
{
    let k = whitespace_at_end(s);
    if k > 0 {
        trimmed_end(s.take(s.len() - k))
    } else {
        s.len() as int
    }
}

/// Number of bytes of leading white space of `s`.
pub open spec fn leading_blank(s: Seq<u8>) -> int
    decreases s.len(),
{
    let k = whitespace_at_start(s);
    if k > 0 {
        k + leading_blank(s.skip(k))
    } else {
        0
    }
}

/// `s` without leading or trailing white space (ASCII or Unicode).
pub open spec fn trim(s: Seq<u8>) -> Seq<u8> {
    let t = s.take(trimmed_end(s));
    t.skip(leading_blank(t))
}

/// An unsigned 32-bit decimal: an optional `+` and at least one digit, whose
/// value fits.
pub open spec fn parse_u32_spec(s: Seq<u8>) -> Option<u32> {
    let d = if s.len() > 0 && s[0] == 43 { s.drop_first() } else { s };
    if is_numeral(d) && digits_value(d) <= u32::MAX {
        Some(digits_value(d) as u32)
    } else {
        None
    }
}

/// The verdict on a reply to `AT+FU<mode>`.  The reply is split at commas.
/// The first field must be `OK+FU<mode>`, followed by `\r\n` when it is the
/// only field.  A second field, if there is one, is a marker byte followed by
/// the new baud rate, possibly padded with whitespace: `Ok(Some(rate))` asks
/// for the UART to be reconfigured.
pub open spec fn mode_verdict(m: TransmissionMode, r: Seq<u8>) -> Result<Option<u32>, Hc12Error> {
    let c = comma_from(r, 0);
    let first = r.take(c);
    if first != mode_ack(m) && !(c == r.len() && first == mode_ack(m) + crlf()) {
        Err(Hc12Error::TransmissionMode)
    } else if c == r.len() {
        Ok(None)
    } else {
        let second = r.subrange(c + 1, comma_from(r, c + 1));
        if second.len() == 0 {
            Err(Hc12Error::TransmissionMode)
        } else {
            match parse_u32_spec(trim(second.drop_first())) {
                Some(v) => Ok(Some(v)),
                None => Err(Hc12Error::TransmissionMode),
            }
        }
    }
}

/// The `AT` command.
pub fn test_command() -> (r: Vec<u8>)
    ensures
        r@ == test_command_spec(),
{
    let r = vec![65u8, 84];
    assert(r@ =~= test_command_spec());
    r
}

/// The command that sets the module's baud rate.
pub fn baud_command(b: BaudRate) -> (r: Vec<u8>)
    ensures
        r@ == baud_command_spec(b),
{
    let mut r = vec![65u8, 84, 43, 66];
    let mut n = b.numeral();
    r.append(&mut n);
    assert(r@ =~= baud_command_spec(b));
    r
}

/// The command that sets the transmission mode.
pub fn mode_command(m: TransmissionMode) -> (r: Vec<u8>)
    ensures
        r@ == mode_command_spec(m),
{
    let d = m.number();
    let r = vec![65u8, 84, 43, 70, 85, (48 + d) as u8];
    assert(r@ =~= mode_command_spec(m));
    r
}

/// The factory-reset command.
pub fn default_command() -> (r: Vec<u8>)
    ensures
        r@ == default_command_spec(),
{
    let r = vec![65u8, 84, 43, 68, 69, 70, 65, 85, 76, 84];
    assert(r@ =~= default_command_spec());
    r
}

/// Whether `s[lo..hi]` holds exactly the bytes of `t`.
fn range_equals(s: &[u8], lo: usize, hi: usize, t: &[u8]) -> (r: bool)
    requires
        lo <= hi <= s@.len(),
    ensures
        r == (s@.subrange(lo as int, hi as int) == t@),
{
    if hi - lo != t.len() {
        return false;
    }
    let mut i: usize = 0;
    while i < t.len()
        invariant
            lo <= hi <= s@.len(),
            hi - lo == t@.len(),
            i <= t@.len(),
            forall|j: int| 0 <= j < i ==> s@[lo + j] == t@[j],
        decreases t@.len() - i,
    {
        if s[lo + i] != t[i] {
            return false;
        }
        i = i + 1;
    }
    assert(s@.subrange(lo as int, hi as int) =~= t@);
    true
}

/// Index of the first comma at or after `from`, or the length if none.
fn find_comma(s: &[u8], from: usize) -> (r: usize)
    requires
        from <= s@.len(),
    ensures
        r == comma_from(s@, from as int),
        from <= r <= s@.len(),
{
    let mut i = from;
    while i < s.len()
        invariant
            from <= i <= s@.len(),
            comma_from(s@, i as int) == comma_from(s@, from as int),
        decreases s@.len() - i,
    {
        if s[i] == 44 {
            return i;
        }
        i = i + 1;
    }
    i
}

fn is_ascii_blank(c: u8) -> (r: bool)
    ensures
        r == ascii_whitespace(c),
{
    c == 32 || c == 9 || c == 10 || c == 11 || c == 12 || c == 13
}

fn is_wide_blank(a: u8, b: u8, c: u8) -> (r: bool)
    ensures
        r == wide_whitespace(a, b, c),
{
    (a == 0xE1 && b == 0x9A && c == 0x80) || (a == 0xE2 && b == 0x80 && ((0x80 <= c && c
        <= 0x8A) || c == 0xA8 || c == 0xA9 || c == 0xAF)) || (a == 0xE2 && b == 0x81 && c
        == 0x9F) || (a == 0xE3 && b == 0x80 && c == 0x80)
}

/// Byte length of the white-space character that ends `s[lo..j]`, or 0.
fn blank_before(s: &[u8], lo: usize, j: usize) -> (r: usize)
    requires
        lo <= j <= s@.len(),
    ensures
        r == whitespace_at_end(s@.subrange(lo as int, j as int)),
        r <= j - lo,
{
    let n = j - lo;
    if n >= 1 && is_ascii_blank(s[j - 1]) {
        1
    } else if n >= 2 && s[j - 2] == 0xC2 && (s[j - 1] == 0x85 || s[j - 1] == 0xA0) {
        2
    } else if n >= 3 && is_wide_blank(s[j - 3], s[j - 2], s[j - 1]) {
        3
    } else {
        0
    }
}

/// Byte length of the white-space character that starts `s[i..hi]`, or 0.
fn blank_after(s: &[u8], i: usize, hi: usize) -> (r: usize)
    requires
        i <= hi <= s@.len(),
    ensures
        r == whitespace_at_start(s@.subrange(i as int, hi as int)),
        r <= hi - i,
{
    let n = hi - i;
    if n >= 1 && is_ascii_blank(s[i]) {
        1
    } else if n >= 2 && s[i] == 0xC2 && (s[i + 1] == 0x85 || s[i + 1] == 0xA0) {
        2
    } else if n >= 3 && is_wide_blank(s[i], s[i + 1], s[i + 2]) {
        3
    } else {
        0
    }
}

/// End of `s[lo..hi]` once its trailing white space is removed.
fn trim_end_index(s: &[u8], lo: usize, hi: usize) -> (r: usize)
    requires
        lo <= hi <= s@.len(),
    ensures
        r == lo + trimmed_end(s@.subrange(lo as int, hi as int)),
        lo <= r <= hi,
{
    let mut j = hi;
    loop
        invariant
            lo <= j <= hi <= s@.len(),
            trimmed_end(s@.subrange(lo as int, j as int)) == trimmed_end(
                s@.subrange(lo as int, hi as int),
            ),
        decreases j,
    {
        let k = blank_before(s, lo, j);
        if k == 0 {
            return j;
        }
        assert(s@.subrange(lo as int, j as int).take(j - lo - k) =~= s@.subrange(
            lo as int,
            j - k,
        ));
        j = j - k;
    }
}

/// Start of `s[lo..hi]` once its leading white space is removed.
fn skip_blank(s: &[u8], lo: usize, hi: usize) -> (r: usize)
    requires
        lo <= hi <= s@.len(),
    ensures
        r == lo + leading_blank(s@.subrange(lo as int, hi as int)),
        lo <= r <= hi,
{
    let mut i = lo;
    loop
        invariant
            lo <= i <= hi <= s@.len(),
            leading_blank(s@.subrange(lo as int, hi as int)) == (i - lo) + leading_blank(
                s@.subrange(i as int, hi as int),
            ),
        decreases hi - i,
    {
        let k = blank_after(s, i, hi);
        if k == 0 {
            return i;
        }
        assert(s@.subrange(i as int, hi as int).skip(k as int) =~= s@.subrange(
            i + k,
            hi as int,
        ));
        i = i + k;
    }
}

proof fn lemma_digits_nonneg(d: Seq<u8>)
    requires
        forall|i: int| 0 <= i < d.len() ==> is_digit(#[trigger] d[i]),
    ensures
        digits_value(d) >= 0,
    decreases d.len(),
{
    if d.len() > 0 {
        lemma_digits_nonneg(d.drop_last());
    }
}

proof fn lemma_prefix_value_le(d: Seq<u8>, k: int)
    requires
        forall|i: int| 0 <= i < d.len() ==> is_digit(#[trigger] d[i]),
        0 <= k <= d.len(),
    ensures
        digits_value(d.take(k)) <= digits_value(d),
    decreases d.len(),
{
    if k < d.len() {
        lemma_prefix_value_le(d.drop_last(), k);
        assert(d.drop_last().take(k) =~= d.take(k));
        lemma_digits_nonneg(d.drop_last());
    } else {
        assert(d.take(k) =~= d);
    }
}

/// Reads `s[lo..hi]` as an unsigned 32-bit decimal.
pub fn parse_u32(s: &[u8], lo: usize, hi: usize) -> (r: Option<u32>)
    requires
        lo <= hi <= s@.len(),
    ensures
        r == parse_u32_spec(s@.subrange(lo as int, hi as int)),
{
    let ghost whole = s@.subrange(lo as int, hi as int);
    let mut st = lo;
    if lo < hi && s[lo] == 43 {
        st = lo + 1;
        assert(whole.drop_first() =~= s@.subrange(st as int, hi as int));
    }
    let ghost d = s@.subrange(st as int, hi as int);
    assert(d == (if whole.len() > 0 && whole[0] == 43 { whole.drop_first() } else { whole }));
    if st == hi {
        return None;
    }
    let mut acc: u64 = 0;
    let mut i = st;
    while i < hi
        invariant
            lo <= st <= i <= hi <= s@.len(),
            d == s@.subrange(st as int, hi as int),
            whole == s@.subrange(lo as int, hi as int),
            d == (if whole.len() > 0 && whole[0] == 43 { whole.drop_first() } else { whole }),
            acc <= u32::MAX,
            acc == digits_value(d.take(i - st)),
            forall|j: int| 0 <= j < i - st ==> is_digit(#[trigger] d[j]),
        decreases hi - i,
    {
        let c = s[i];
        if c < 48 || c > 57 {
            assert(!is_digit(d[i - st]));
            assert(!is_numeral(d));
            return None;
        }
        assert(d.take(i - st + 1).drop_last() =~= d.take(i - st));
        assert(d.take(i - st + 1).last() == c);
        assert(digits_value(d.take(i - st + 1)) == 10 * digits_value(d.take(i - st)) + (c - 48));
        acc = acc * 10 + (c - 48) as u64;
        i = i + 1;
        assert(acc == digits_value(d.take(i - st)));
        if acc > u32::MAX as u64 {
            proof {
                if is_numeral(d) {
                    lemma_prefix_value_le(d, i - st);
                }
            }
            return None;
        }
    }
    assert(d.take(i - st) =~= d);
    Some(acc as u32)
}

/// Checks the reply to `AT`.
pub fn check_test(reply: &[u8]) -> (r: Result<(), Hc12Error>)
    ensures
        r == (if reply@ == test_ack() { Ok(()) } else { Err::<(), Hc12Error>(Hc12Error::Test) }),
{
    let ack = vec![79u8, 75, 13, 10];
    assert(ack@ =~= test_ack());
    assert(reply@.subrange(0, reply@.len() as int) =~= reply@);
    if range_equals(reply, 0, reply.len(), ack.as_slice()) {
        Ok(())
    } else {
        Err(Hc12Error::Test)
    }
}

/// Checks the reply to the command that set rate `b`.
pub fn check_baud(b: BaudRate, reply: &[u8]) -> (r: Result<(), Hc12Error>)
    ensures
        r == (if reply@ == baud_ack(b) { Ok(()) } else { Err::<(), Hc12Error>(Hc12Error::BaudRate) }),
{
    let mut ack = vec![79u8, 75, 43, 66];
    let mut n = b.numeral();
    ack.append(&mut n);
    ack.push(13);
    ack.push(10);
    assert(ack@ =~= baud_ack(b));
    assert(reply@.subrange(0, reply@.len() as int) =~= reply@);
    if range_equals(reply, 0, reply.len(), ack.as_slice()) {
        Ok(())
    } else {
        Err(Hc12Error::BaudRate)
    }
}

/// Checks the reply to the factory reset.
pub fn check_default(reply: &[u8]) -> (r: Result<(), Hc12Error>)
    ensures
        r == (if reply@ == default_ack() { Ok(()) } else { Err::<(), Hc12Error>(Hc12Error::Default) }),
{
    let ack = vec![79u8, 75, 43, 68, 69, 70, 65, 85, 76, 84, 13, 10];
    assert(ack@ =~= default_ack());
    assert(reply@.subrange(0, reply@.len() as int) =~= reply@);
    if range_equals(reply, 0, reply.len(), ack.as_slice()) {
        Ok(())
    } else {
        Err(Hc12Error::Default)
    }
}

/// Checks the reply to `AT+FU<mode>`; `Ok(Some(rate))` when the module
/// reports that it switched to `rate`.
pub fn check_transmission_mode(m: TransmissionMode, reply: &[u8]) -> (r: Result<
    Option<u32>,
    Hc12Error,
>)
    ensures
        r == mode_verdict(m, reply@),
{
    let d = m.number();
    let ack = vec![79u8, 75, 43, 70, 85, (48 + d) as u8];
    assert(ack@ =~= mode_ack(m));
    let ack_line = vec![79u8, 75, 43, 70, 85, (48 + d) as u8, 13, 10];
    assert(ack_line@ =~= mode_ack(m) + crlf());
    let c = find_comma(reply, 0);
    assert(reply@.subrange(0, c as int) =~= reply@.take(c as int));
    if !range_equals(reply, 0, c, ack.as_slice()) && !(c == reply.len() && range_equals(
        reply,
        0,
        c,
        ack_line.as_slice(),
    )) {
        return Err(Hc12Error::TransmissionMode);
    }
    if c == reply.len() {
        return Ok(None);
    }
    let c2 = find_comma(reply, c + 1);
    if c2 == c + 1 {
        return Err(Hc12Error::TransmissionMode);
    }
    let a = c + 2;
    let ghost t = reply@.subrange(c + 1, c2 as int).drop_first();
    assert(t =~= reply@.subrange(a as int, c2 as int));
    let e = trim_end_index(reply, a, c2);
    assert(t.take(trimmed_end(t)) =~= reply@.subrange(a as int, e as int));
    let st = skip_blank(reply, a, e);
    assert(trim(t) =~= reply@.subrange(st as int, e as int));
    match parse_u32(reply, st, e) {
        Some(v) => Ok(Some(v)),
        None => Err(Hc12Error::TransmissionMode),
    }
}

/// A rate written out as a numeral reads back as that rate.
pub proof fn lemma_numeral_parses(b: BaudRate)
    ensures
        parse_u32_spec(rate_numeral(b)) == Some(rate_value(b)),
{
    crate::config::lemma_rate_numeral_round_trip(b);
}

} // verus!
