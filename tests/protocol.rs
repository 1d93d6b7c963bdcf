use hc_12::config::{BaudRate, TransmissionMode};
use hc_12::exchange::{Action, Event, Exchange, LEAVE_DELAY_MS};
use hc_12::reply::{
    baud_command, check_transmission_mode, default_command, mode_command, parse_u32,
    test_command, Hc12Error, UartError,
};
use hc_12::scan::{
    mode_reconfigure_verdict, scan_verdict, set_baud_reconfigure, set_baud_verdict,
    set_default_verdict, set_transmission_mode_verdict, test_verdict, AutoBaud, ScanStep,
};

/// A module on the other end of the UART: it answers each command with
/// whatever `answer` gives, but only when the UART runs at its rate.
struct Sim {
    module_rate: u32,
    uart_rate: u32,
    line_high: bool,
    inbox: Vec<u8>,
    answer: fn(&[u8]) -> Vec<u8>,
    write_fault: bool,
    actions: Vec<&'static str>,
}

impl Sim {
    fn new(module_rate: u32, answer: fn(&[u8]) -> Vec<u8>) -> Sim {
        Sim {
            module_rate,
            uart_rate: 9600,
            line_high: true,
            inbox: Vec::new(),
            answer,
            write_fault: false,
            actions: Vec::new(),
        }
    }

    fn exchange(&mut self, command: Vec<u8>) -> Result<Vec<u8>, Hc12Error> {
        let mut x = Exchange::new(command);
        let mut action = Action::ReadBuffered;
        loop {
            let event = match action {
                Action::ReadBuffered => {
                    self.actions.push("read");
                    let n = self.inbox.len().min(14);
                    Event::Received(self.inbox.drain(..n).collect())
                }
                Action::StrobeLow => {
                    self.actions.push("low");
                    self.line_high = false;
                    Event::Done
                }
                Action::StrobeHigh => {
                    self.actions.push("high");
                    self.line_high = true;
                    Event::Done
                }
                Action::Sleep(_) => {
                    self.actions.push("sleep");
                    Event::Done
                }
                Action::Write(bytes) => {
                    self.actions.push("write");
                    if self.write_fault {
                        Event::Fault(UartError::FrameFormatViolated)
                    } else {
                        if !self.line_high && self.uart_rate == self.module_rate {
                            self.inbox = (self.answer)(&bytes);
                        }
                        Event::Done
                    }
                }
                Action::Flush => {
                    self.actions.push("flush");
                    Event::Done
                }
                Action::Finished => break,
            };
            action = x.step(event);
        }
        x.outcome().unwrap()
    }

    fn test(&mut self) -> Result<(), Hc12Error> {
        let x = self.exchange(test_command());
        test_verdict(&x)
    }

    fn auto_baud(&mut self) -> Result<BaudRate, Hc12Error> {
        let (mut scan, mut step) = AutoBaud::new();
        loop {
            match step {
                ScanStep::Probe(b) => {
                    self.uart_rate = b.value();
                    let ok = self.test().is_ok();
                    step = scan.step(ok);
                }
                done => return scan_verdict(done).unwrap(),
            }
        }
    }

    fn set_baud(&mut self, b: BaudRate) -> Result<(), Hc12Error> {
        let x = self.exchange(baud_command(b));
        if let Some(rate) = set_baud_reconfigure(b, &x) {
            self.uart_rate = rate;
        }
        set_baud_verdict(b, &x, true)
    }

    fn set_transmission_mode(&mut self, m: TransmissionMode) -> Result<(), Hc12Error> {
        let x = self.exchange(mode_command(m));
        match set_transmission_mode_verdict(m, &x)? {
            Some(rate) => {
                self.uart_rate = rate;
                mode_reconfigure_verdict(true)
            }
            None => Ok(()),
        }
    }

    fn set_default(&mut self) -> Result<(), Hc12Error> {
        let x = self.exchange(default_command());
        set_default_verdict(&x)
    }
}

fn ok_answer(_: &[u8]) -> Vec<u8> {
    b"OK\r\n".to_vec()
}

const RATES: [BaudRate; 8] = [
    BaudRate::Baud1200,
    BaudRate::Baud2400,
    BaudRate::Baud4800,
    BaudRate::Baud9600,
    BaudRate::Baud19200,
    BaudRate::Baud38400,
    BaudRate::Baud57600,
    BaudRate::Baud115200,
];

#[test]
fn numeral_reads_back_as_rate() {
    for b in RATES {
        let n = b.numeral();
        assert_eq!(parse_u32(&n, 0, n.len()), Some(b.value()));
    }
    assert_eq!(BaudRate::Baud115200.numeral(), b"115200".to_vec());
    assert_eq!(BaudRate::Baud1200.value(), 1200);
    assert_eq!(BaudRate::default(), BaudRate::Baud9600);
    assert_eq!(TransmissionMode::Fu3.number(), 3);
}

#[test]
fn parse_u32_edges() {
    assert_eq!(parse_u32(b"+12", 0, 3), Some(12));
    assert_eq!(parse_u32(b"4294967295", 0, 10), Some(u32::MAX));
    assert_eq!(parse_u32(b"4294967296", 0, 10), None);
    assert_eq!(parse_u32(b"", 0, 0), None);
    assert_eq!(parse_u32(b"+", 0, 1), None);
    assert_eq!(parse_u32(b"-5", 0, 2), None);
    assert_eq!(parse_u32(b"12a", 0, 3), None);
    assert_eq!(parse_u32(b"x42y", 1, 3), Some(42));
}

#[test]
fn command_frames() {
    assert_eq!(test_command(), b"AT".to_vec());
    assert_eq!(baud_command(BaudRate::Baud115200), b"AT+B115200".to_vec());
    assert_eq!(mode_command(TransmissionMode::Fu2), b"AT+FU2".to_vec());
    assert_eq!(default_command(), b"AT+DEFAULT".to_vec());
}

#[test]
fn auto_baud_finds_the_answering_rate() {
    for r in RATES {
        let mut sim = Sim::new(r.value(), ok_answer);
        assert_eq!(sim.auto_baud(), Ok(r));
        assert_eq!(sim.uart_rate, r.value());
        assert!(sim.line_high);
    }
}

#[test]
fn auto_baud_fails_when_nothing_answers() {
    fn garbage(_: &[u8]) -> Vec<u8> {
        b"??".to_vec()
    }
    let mut sim = Sim::new(9600, garbage);
    assert_eq!(sim.auto_baud(), Err(Hc12Error::AutoBaudRate));
    assert_eq!(sim.uart_rate, 115200);
    assert!(sim.line_high);
}

#[test]
fn set_baud_acknowledged() {
    fn ack(_: &[u8]) -> Vec<u8> {
        b"OK+B9600\r\n".to_vec()
    }
    let mut sim = Sim::new(9600, ack);
    sim.uart_rate = 9600;
    assert_eq!(sim.set_baud(BaudRate::Baud9600), Ok(()));
    assert_eq!(sim.uart_rate, 9600);
    assert!(sim.line_high);
}

#[test]
fn set_baud_mismatch_still_reconfigures() {
    fn ack(_: &[u8]) -> Vec<u8> {
        b"OK+B4800\r\n".to_vec()
    }
    let mut sim = Sim::new(2400, ack);
    sim.uart_rate = 2400;
    assert_eq!(sim.set_baud(BaudRate::Baud9600), Err(Hc12Error::BaudRate));
    assert_eq!(sim.uart_rate, 9600);
    assert!(sim.line_high);
}

#[test]
fn set_baud_config_refused() {
    let x: Result<Vec<u8>, Hc12Error> = Ok(b"OK+B9600\r\n".to_vec());
    assert_eq!(set_baud_verdict(BaudRate::Baud9600, &x, false), Err(Hc12Error::Config));
    let f: Result<Vec<u8>, Hc12Error> = Err(Hc12Error::InvalidResponse);
    assert_eq!(set_baud_reconfigure(BaudRate::Baud9600, &f), None);
}

#[test]
fn transmission_mode_with_rate_field() {
    fn ack(_: &[u8]) -> Vec<u8> {
        b"OK+FU2,B9600\r\n".to_vec()
    }
    let mut sim = Sim::new(4800, ack);
    sim.uart_rate = 4800;
    assert_eq!(sim.set_transmission_mode(TransmissionMode::Fu2), Ok(()));
    assert_eq!(sim.uart_rate, 9600);
    assert!(sim.line_high);
}

#[test]
fn transmission_mode_without_rate_field() {
    fn ack(_: &[u8]) -> Vec<u8> {
        b"OK+FU2\r\n".to_vec()
    }
    let mut sim = Sim::new(4800, ack);
    sim.uart_rate = 4800;
    assert_eq!(sim.set_transmission_mode(TransmissionMode::Fu2), Ok(()));
    assert_eq!(sim.uart_rate, 4800);
    assert!(sim.line_high);
}

#[test]
fn transmission_mode_error_reply() {
    fn ack(_: &[u8]) -> Vec<u8> {
        b"ERROR\r\n".to_vec()
    }
    let mut sim = Sim::new(9600, ack);
    assert_eq!(
        sim.set_transmission_mode(TransmissionMode::Fu2),
        Err(Hc12Error::TransmissionMode)
    );
    assert!(sim.line_high);
}

#[test]
fn transmission_mode_reply_shapes() {
    let m = TransmissionMode::Fu3;
    assert_eq!(check_transmission_mode(m, b"OK+FU3,B 1200 \r\n"), Ok(Some(1200)));
    assert_eq!(check_transmission_mode(m, b"OK+FU3"), Ok(None));
    assert_eq!(check_transmission_mode(m, b"OK+FU2\r\n"), Err(Hc12Error::TransmissionMode));
    assert_eq!(check_transmission_mode(m, b"OK+FU3,"), Err(Hc12Error::TransmissionMode));
    assert_eq!(check_transmission_mode(m, b"OK+FU3,Bxy\r\n"), Err(Hc12Error::TransmissionMode));
    assert_eq!(check_transmission_mode(m, b"OK+FU3,B4800,7"), Ok(Some(4800)));
}

#[test]
fn test_reply_variants() {
    fn crlf(_: &[u8]) -> Vec<u8> {
        b"OK\r\n".to_vec()
    }
    fn lf(_: &[u8]) -> Vec<u8> {
        b"OK\n".to_vec()
    }
    fn bad(_: &[u8]) -> Vec<u8> {
        vec![0xff, 0xfe, 0x4f]
    }
    let mut sim = Sim::new(9600, crlf);
    assert_eq!(sim.test(), Ok(()));
    assert!(sim.line_high);
    let mut sim = Sim::new(9600, lf);
    assert_eq!(sim.test(), Err(Hc12Error::Test));
    assert!(sim.line_high);
    let mut sim = Sim::new(9600, bad);
    assert_eq!(sim.test(), Err(Hc12Error::InvalidResponse));
    assert!(sim.line_high);
}

#[test]
fn factory_reset() {
    fn ack(_: &[u8]) -> Vec<u8> {
        b"OK+DEFAULT\r\n".to_vec()
    }
    let mut sim = Sim::new(9600, ack);
    assert_eq!(sim.set_default(), Ok(()));
    let mut sim = Sim::new(9600, ok_answer);
    assert_eq!(sim.set_default(), Err(Hc12Error::Default));
    let mut sim = Sim::new(9600, ack);
    sim.write_fault = true;
    assert_eq!(sim.set_default(), Err(Hc12Error::Default));
    assert!(sim.line_high);
}

#[test]
fn write_fault_still_raises_line() {
    let mut sim = Sim::new(9600, ok_answer);
    sim.write_fault = true;
    assert_eq!(sim.test(), Err(Hc12Error::UartError(UartError::FrameFormatViolated)));
    assert!(sim.line_high);
    assert_eq!(sim.actions, vec!["read", "low", "sleep", "write", "high", "sleep"]);
}

#[test]
fn exchange_order_and_stale_input() {
    let mut sim = Sim::new(9600, ok_answer);
    sim.inbox = b"stale bytes that are many".to_vec();
    assert_eq!(sim.test(), Ok(()));
    assert_eq!(
        sim.actions,
        vec!["read", "read", "read", "low", "sleep", "write", "flush", "sleep", "read", "high", "sleep"]
    );
}

#[test]
fn oversized_read_keeps_buffer_capacity() {
    let mut x = Exchange::new(b"AT".to_vec());
    let steps = [
        Event::Received(Vec::new()),
        Event::Done,
        Event::Done,
        Event::Done,
        Event::Done,
        Event::Done,
    ];
    for e in steps {
        x.step(e);
    }
    let a = x.step(Event::Received(b"0123456789abcdefgh".to_vec()));
    assert!(matches!(a, Action::StrobeHigh));
    assert!(matches!(x.step(Event::Done), Action::Sleep(LEAVE_DELAY_MS)));
    assert!(matches!(x.step(Event::Done), Action::Finished));
    assert_eq!(x.outcome(), Some(Ok(b"0123456789abcd".to_vec())));
}

#[test]
fn transmission_mode_first_field_is_exact() {
    let m = TransmissionMode::Fu2;
    assert_eq!(check_transmission_mode(m, b"OK+FU2 \r\n"), Err(Hc12Error::TransmissionMode));
    assert_eq!(check_transmission_mode(m, b"OK+FU2\t"), Err(Hc12Error::TransmissionMode));
    assert_eq!(check_transmission_mode(m, b"OK+FU2 ,B9600"), Err(Hc12Error::TransmissionMode));
    assert_eq!(check_transmission_mode(m, b"OK+FU2\r\n,B9600"), Err(Hc12Error::TransmissionMode));
    assert_eq!(check_transmission_mode(m, b"OK+FU2,B9600\r\n"), Ok(Some(9600)));
    assert_eq!(check_transmission_mode(m, b"OK+FU2\r\n"), Ok(None));
}

#[test]
fn transmission_mode_rate_field_unicode_blank() {
    let m = TransmissionMode::Fu2;
    let mut reply = b"OK+FU2,B9600".to_vec();
    reply.extend_from_slice("\u{a0}".as_bytes());
    assert_eq!(check_transmission_mode(m, &reply), Ok(Some(9600)));
    let mut reply = b"OK+FU2,B".to_vec();
    reply.extend_from_slice("\u{3000}42\u{2009}".as_bytes());
    assert_eq!(check_transmission_mode(m, &reply), Ok(Some(42)));
}

#[test]
fn transmission_mode_refused_rate() {
    assert_eq!(mode_reconfigure_verdict(false), Err(Hc12Error::TransmissionMode));
    assert_eq!(mode_reconfigure_verdict(true), Ok(()));
}

#[test]
fn scan_stops_when_uart_refuses_rate() {
    let (mut scan, first) = AutoBaud::new();
    assert_eq!(first, ScanStep::Probe(BaudRate::Baud1200));
    assert_eq!(scan.step(false), ScanStep::Probe(BaudRate::Baud2400));
    let s = scan.refused();
    assert_eq!(s, ScanStep::Abandoned);
    assert_eq!(scan.current, 1);
    assert!(scan.done);
    assert_eq!(scan_verdict(s), Some(Err(Hc12Error::Config)));
    assert_eq!(scan_verdict(ScanStep::Probe(BaudRate::Baud1200)), None);
    assert_eq!(scan_verdict(ScanStep::Failed), Some(Err(Hc12Error::AutoBaudRate)));
}
