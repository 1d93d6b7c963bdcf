//! The operations built on an exchange: their verdicts, and the baud-rate scan.

use vstd::prelude::*;
use crate::config::{BaudRate, TransmissionMode, rate_value, rate_numeral, lemma_rate_numeral_round_trip, is_digit};
use crate::exchange::lemma_ascii_is_text;
use crate::reply::{crlf, mode_ack};
use vstd::utf8::valid_utf8;
use crate::reply::{
    Hc12Error, baud_ack, check_baud, check_default, check_test, check_transmission_mode,
    default_ack, mode_verdict, test_ack,
};

verus! {

/// Every acknowledgement that the operations accept is UTF-8 text, so an
/// exchange that reads one back without a fault hands it on.
pub proof fn lemma_acknowledgements_are_text(b: BaudRate, m: TransmissionMode)
    ensures
        valid_utf8(test_ack()),
        valid_utf8(baud_ack(b)),
        valid_utf8(default_ack()),
        valid_utf8(mode_ack(m)),
        valid_utf8(mode_ack(m) + crlf()),
{
    lemma_rate_numeral_round_trip(b);
    let n = rate_numeral(b);
    assert forall|i: int| 0 <= i < n.len() implies #[trigger] n[i] < 128 by {
        assert(is_digit(n[i]));
    }
    let t = test_ack();
    let a = baud_ack(b);
    let d = default_ack();
    let f = mode_ack(m);
    let g = mode_ack(m) + crlf();
    assert forall|i: int| 0 <= i < t.len() implies #[trigger] t[i] < 128 by {}
    assert forall|i: int| 0 <= i < a.len() implies #[trigger] a[i] < 128 by {
        if 4 <= i < 4 + n.len() {
            assert(a[i] == n[i - 4]);
        }
    }
    assert forall|i: int| 0 <= i < d.len() implies #[trigger] d[i] < 128 by {}
    assert forall|i: int| 0 <= i < f.len() implies #[trigger] f[i] < 128 by {}
    assert forall|i: int| 0 <= i < g.len() implies #[trigger] g[i] < 128 by {}
    lemma_ascii_is_text(t);
    lemma_ascii_is_text(a);
    lemma_ascii_is_text(d);
    lemma_ascii_is_text(f);
    lemma_ascii_is_text(g);
}

/// Delay after the UART has been switched to a candidate rate.
pub const PROBE_DELAY_MS: u32 = 40;

/// Number of rates that the scan tries.
pub const CANDIDATE_COUNT: usize = 8;

/// The rates in the order in which the scan tries them.
pub open spec fn candidate(i: int) -> BaudRate {
    if i <= 0 {
        BaudRate::Baud1200
    } else if i == 1 {
        BaudRate::Baud2400
    } else if i == 2 {
        BaudRate::Baud4800
    } else if i == 3 {
        BaudRate::Baud9600
    } else if i == 4 {
        BaudRate::Baud19200
    } else if i == 5 {
        BaudRate::Baud38400
    } else if i == 6 {
        BaudRate::Baud57600
    } else {
        BaudRate::Baud115200
    }
}

fn candidate_at(i: usize) -> (r: BaudRate)
    ensures
        r == candidate(i as int),
{
    if i == 0 {
        BaudRate::Baud1200
    } else if i == 1 {
        BaudRate::Baud2400
    } else if i == 2 {
        BaudRate::Baud4800
    } else if i == 3 {
        BaudRate::Baud9600
    } else if i == 4 {
        BaudRate::Baud19200
    } else if i == 5 {
        BaudRate::Baud38400
    } else if i == 6 {
        BaudRate::Baud57600
    } else {
        BaudRate::Baud115200
    }
}

/// The verdict of a test: the exchange's fault, or the check of `OK\r\n`.
pub fn test_verdict(x: &Result<Vec<u8>, Hc12Error>) -> (r: Result<(), Hc12Error>)
    ensures
        r == (match x {
            Err(e) => Err::<(), Hc12Error>(*e),
            Ok(v) => if v@ == test_ack() {
                Ok(())
            } else {
                Err(Hc12Error::Test)
            },
        }),
{
    match x {
        Err(e) => Err(*e),
        Ok(v) => check_test(v.as_slice()),
    }
}

/// The verdict of a factory reset: every failure counts as `Default`.
pub fn set_default_verdict(x: &Result<Vec<u8>, Hc12Error>) -> (r: Result<(), Hc12Error>)
    ensures
        r == (match x {
            Err(_) => Err::<(), Hc12Error>(Hc12Error::Default),
            Ok(v) => if v@ == default_ack() {
                Ok(())
            } else {
                Err(Hc12Error::Default)
            },
        }),
{
    match x {
        Err(_) => Err(Hc12Error::Default),
        Ok(v) => check_default(v.as_slice()),
    }
}

/// The rate that the UART must take after an exchange that set rate `b`:
/// the module switches as soon as it has answered, so the UART follows
/// whenever the exchange itself went through, whatever the reply says.
pub fn set_baud_reconfigure(b: BaudRate, x: &Result<Vec<u8>, Hc12Error>) -> (r: Option<u32>)
    ensures
        r == (if x is Ok { Some(rate_value(b)) } else { None::<u32> }),
{
    match x {
        Err(_) => None,
        Ok(_) => Some(b.value()),
    }
}

/// The verdict of setting rate `b`; `reconfigured` tells whether the UART
/// accepted the new rate (it is not asked when the exchange failed).
pub fn set_baud_verdict(b: BaudRate, x: &Result<Vec<u8>, Hc12Error>, reconfigured: bool) -> (r:
    Result<(), Hc12Error>)
    ensures
        r == (match x {
            Err(e) => Err::<(), Hc12Error>(*e),
            Ok(v) => if !reconfigured {
                Err(Hc12Error::Config)
            } else if v@ == baud_ack(b) {
                Ok(())
            } else {
                Err(Hc12Error::BaudRate)
            },
        }),
{
    match x {
        Err(e) => Err(*e),
        Ok(v) => if !reconfigured {
            Err(Hc12Error::Config)
        } else {
            check_baud(b, v.as_slice())
        },
    }
}

/// The verdict of setting mode `m`: `Ok(Some(rate))` asks for the UART to be
/// switched to `rate`, which must succeed for the operation to succeed.
pub fn set_transmission_mode_verdict(m: TransmissionMode, x: &Result<Vec<u8>, Hc12Error>) -> (r:
    Result<Option<u32>, Hc12Error>)
    ensures
        r == (match x {
            Err(e) => Err::<Option<u32>, Hc12Error>(*e),
            Ok(v) => mode_verdict(m, v@),
        }),
{
    match x {
        Err(e) => Err(*e),
        Ok(v) => check_transmission_mode(m, v.as_slice()),
    }
}

/// One step of the scan from the rate at index `current`, given whether the
/// test there succeeded: the next request and the index then probed.
pub open spec fn scan_next(current: int, ok: bool) -> (ScanStep, int) {
    if ok {
        (ScanStep::Found(candidate(current)), current)
    } else if current + 1 < CANDIDATE_COUNT {
        (ScanStep::Probe(candidate(current + 1)), current + 1)
    } else {
        (ScanStep::Failed, current)
    }
}

/// A whole scan from index `current` against a module whose test succeeds
/// at candidate `i` exactly when `answers[i]`: the final request and the
/// index of the rate that the UART is left at.
pub open spec fn scan_from(current: int, answers: Seq<bool>) -> (ScanStep, int)
    decreases CANDIDATE_COUNT - current,
{
    if 0 <= current < CANDIDATE_COUNT {
        let (s, c) = scan_next(current, answers[current]);
        if s is Probe {
            scan_from(c, answers)
        } else {
            (s, c)
        }
    } else {
        (ScanStep::Failed, current)
    }
}

proof fn lemma_scan_from(current: int, answers: Seq<bool>, k: int)
    requires
        0 <= current <= k < CANDIDATE_COUNT,
        answers.len() == CANDIDATE_COUNT,
        forall|j: int| current <= j < k ==> !answers[j],
        answers[k],
    ensures
        scan_from(current, answers) == (ScanStep::Found(candidate(k)), k),
    decreases k - current,
{
    if current < k {
        lemma_scan_from(current + 1, answers, k);
    }
}

proof fn lemma_scan_silent(current: int, answers: Seq<bool>)
    requires
        0 <= current < CANDIDATE_COUNT,
        answers.len() == CANDIDATE_COUNT,
        forall|j: int| 0 <= j < CANDIDATE_COUNT ==> !answers[j],
    ensures
        scan_from(current, answers) == (ScanStep::Failed, CANDIDATE_COUNT - 1),
    decreases CANDIDATE_COUNT - current,
{
    if current + 1 < CANDIDATE_COUNT {
        lemma_scan_silent(current + 1, answers);
    }
}

/// A scan against a module that answers the test at rate `r` and at no
/// other rate ends with `Found(r)`, with the UART left at `r`.
pub proof fn lemma_scan_finds_the_answering_rate(r: BaudRate, answers: Seq<bool>)
    requires
        answers.len() == CANDIDATE_COUNT,
        forall|j: int| 0 <= j < CANDIDATE_COUNT ==> answers[j] == (candidate(j) == r),
    ensures
        ({
            let (s, last) = scan_from(0, answers);
            s == ScanStep::Found(r) && candidate(last) == r
        }),
{
    let k: int = match r {
        BaudRate::Baud1200 => 0,
        BaudRate::Baud2400 => 1,
        BaudRate::Baud4800 => 2,
        BaudRate::Baud9600 => 3,
        BaudRate::Baud19200 => 4,
        BaudRate::Baud38400 => 5,
        BaudRate::Baud57600 => 6,
        BaudRate::Baud115200 => 7,
    };
    assert(answers[k] == (candidate(k) == r));
    assert forall|j: int| 0 <= j < k implies !answers[j] by {
        assert(answers[j] == (candidate(j) == r));
    }
    lemma_scan_from(0, answers, k);
}

/// A scan against a module that never answers ends with `Failed`, with the
/// UART left at the last rate tried, 115200.
pub proof fn lemma_scan_fails_on_silence(answers: Seq<bool>)
    requires
        answers.len() == CANDIDATE_COUNT,
        forall|j: int| 0 <= j < CANDIDATE_COUNT ==> !answers[j],
    ensures
        ({
            let (s, last) = scan_from(0, answers);
            s == ScanStep::Failed && candidate(last) == BaudRate::Baud115200
        }),
{
    lemma_scan_silent(0, answers);
}

/// The verdict of setting a transmission mode once the UART has been asked
/// to follow the rate that the module reported: it must have accepted it.
pub fn mode_reconfigure_verdict(reconfigured: bool) -> (r: Result<(), Hc12Error>)
    ensures
        r == (if reconfigured { Ok(()) } else { Err::<(), Hc12Error>(Hc12Error::TransmissionMode) }),
{
    if reconfigured {
        Ok(())
    } else {
        Err(Hc12Error::TransmissionMode)
    }
}

/// What the scan asks for next.
#[derive(Clone, Copy, Debug, PartialEq, Eq, Structural)]
pub enum ScanStep {
    /// Switch the UART to this rate, wait `PROBE_DELAY_MS`, run a test, and
    /// report whether it succeeded.
    Probe(BaudRate),
    /// The module answered at this rate; the UART is left there.
    Found(BaudRate),
    /// No rate answered; the UART is left at the last one tried.
    Failed,
    /// The UART refused to switch to the probed rate; no other rate is tried.
    Abandoned,
}

/// The result of the scan once it has stopped: `None` while it still probes.
pub fn scan_verdict(s: ScanStep) -> (r: Option<Result<BaudRate, Hc12Error>>)
    ensures
        r == (match s {
            ScanStep::Probe(_) => None,
            ScanStep::Found(b) => Some(Ok::<BaudRate, Hc12Error>(b)),
            ScanStep::Failed => Some(Err(Hc12Error::AutoBaudRate)),
            ScanStep::Abandoned => Some(Err(Hc12Error::Config)),
        }),
{
    match s {
        ScanStep::Probe(_) => None,
        ScanStep::Found(b) => Some(Ok(b)),
        ScanStep::Failed => Some(Err(Hc12Error::AutoBaudRate)),
        ScanStep::Abandoned => Some(Err(Hc12Error::Config)),
    }
}

/// The baud-rate scan: tries every supported rate in ascending order and
/// stops at the first one at which the module answers the test.
pub struct AutoBaud {
    /// Index of the rate being probed.
    pub current: usize,
    pub done: bool,
}

impl AutoBaud {
    pub open spec fn wf(&self) -> bool {
        self.current < CANDIDATE_COUNT
    }

    /// Starts a scan; the first step is `Probe(Baud1200)`.
    pub fn new() -> (r: (AutoBaud, ScanStep))
        ensures
            r.0.wf(),
            r.0.current == 0,
            !r.0.done,
            r.1 == ScanStep::Probe(candidate(0)),
    {
        (AutoBaud { current: 0, done: false }, ScanStep::Probe(BaudRate::Baud1200))
    }

    /// Takes the report that the UART refused the probed rate: the scan stops
    /// there, at the same index, without a test and without another rate.
    pub fn refused(&mut self) -> (r: ScanStep)
        requires
            old(self).wf(),
            !old(self).done,
        ensures
            final(self).wf(),
            r == ScanStep::Abandoned,
            final(self).done,
            final(self).current == old(self).current,
    {
        self.done = true;
        ScanStep::Abandoned
    }

    /// Takes whether the test at the probed rate succeeded.
    pub fn step(&mut self, test_ok: bool) -> (r: ScanStep)
        requires
            old(self).wf(),
            !old(self).done,
        ensures
            final(self).wf(),
            test_ok ==> r == ScanStep::Found(candidate(old(self).current as int))
                && final(self).done && final(self).current == old(self).current,
            !test_ok && old(self).current + 1 < CANDIDATE_COUNT ==> r == ScanStep::Probe(
                candidate(old(self).current + 1),
            ) && !final(self).done && final(self).current == old(self).current + 1,
            !test_ok && old(self).current + 1 == CANDIDATE_COUNT ==> r == ScanStep::Failed
                && final(self).done && final(self).current == old(self).current,
            (r, final(self).current as int) == scan_next(old(self).current as int, test_ok),
            final(self).done == !(r is Probe),
    {
        if test_ok {
            self.done = true;
            ScanStep::Found(candidate_at(self.current))
        } else if self.current + 1 < CANDIDATE_COUNT {
            self.current = self.current + 1;
            ScanStep::Probe(candidate_at(self.current))
        } else {
            self.done = true;
            ScanStep::Failed
        }
    }
}

} // verus!
