//! One AT-command exchange, as a state machine.
//!
//! The owner of the UART and the SET line starts an exchange, performs each
//! [`Action`] that it hands out, and answers it with the [`Event`] that the
//! hardware produced.  The order is fixed: drain stale input, pull SET low,
//! wait 200 ms, write the command, flush, wait 80 ms, read the reply, pull SET
//! high, wait 200 ms, decode.  Once SET has gone low it is raised again on
//! every path, also when the write, the flush or the read fails: the module
//! must never be left in command mode.

use vstd::prelude::*;
use crate::reply::{FRAME_CAPACITY, Hc12Error, UartError, decodes_as_text};
use vstd::utf8::valid_utf8;

verus! {

/// Delay after pulling SET low, before the command is written.
pub const ENTER_DELAY_MS: u32 = 200;

/// Delay between the flushed command and reading the reply.
pub const REPLY_DELAY_MS: u32 = 80;

/// Delay after raising SET, before anything else is sent.
pub const LEAVE_DELAY_MS: u32 = 200;

/// What the owner of the hardware is asked to do next.
pub enum Action {
    /// Read the bytes that the UART holds, at most `FRAME_CAPACITY` of them,
    /// without waiting; answer `Received` or `Fault`.
    ReadBuffered,
    /// Drive SET low (command mode); answer `Done`.
    StrobeLow,
    /// Drive SET high (transparent mode); answer `Done`.
    StrobeHigh,
    /// Suspend for the given number of milliseconds; answer `Done`.
    Sleep(u32),
    /// Write these bytes; answer `Done` or `Fault`.
    Write(Vec<u8>),
    /// Wait until the written bytes have left; answer `Done` or `Fault`.
    Flush,
    /// Nothing more: the outcome is available.
    Finished,
}

/// What the hardware reported for the last action.
pub enum Event {
    Done,
    Received(Vec<u8>),
    Fault(UartError),
}

/// The action that was handed out last.
#[derive(Clone, Copy, Debug, PartialEq, Eq, Structural)]
pub enum Phase {
    Draining,
    Lowering,
    Settling,
    Writing,
    Flushing,
    Waiting,
    Reading,
    Raising,
    Trailing,
    Finished,
}

pub struct Exchange {
    /// The frame that is sent.
    pub command: Vec<u8>,
    pub phase: Phase,
    /// The level at which this exchange last drove SET (high when idle).
    pub line_high: bool,
    /// The bytes read back.
    pub reply: Vec<u8>,
    /// The first fault reported after SET went low, if any.
    pub fault: Option<UartError>,
    /// Set once the exchange has finished.
    pub status: Option<Result<(), Hc12Error>>,
}

/// The result of an exchange whose reply was read (or not) as given.
pub open spec fn exchange_status(fault: Option<UartError>, reply: Seq<u8>) -> Result<(), Hc12Error> {
    match fault {
        Some(e) => Err(Hc12Error::UartError(e)),
        None => if valid_utf8(reply) {
            Ok(())
        } else {
            Err(Hc12Error::InvalidResponse)
        },
    }
}

/// What a read into a buffer of `FRAME_CAPACITY` bytes keeps.
pub open spec fn buffered(v: Seq<u8>) -> Seq<u8> {
    if v.len() <= FRAME_CAPACITY {
        v
    } else {
        v.take(FRAME_CAPACITY as int)
    }
}

pub open spec fn is_fault(e: Event) -> bool {
    e is Fault
}

impl Exchange {
    pub open spec fn wf(&self) -> bool {
        &&& self.command@.len() <= FRAME_CAPACITY
        &&& self.reply@.len() <= FRAME_CAPACITY
        &&& (self.line_high <==> (self.phase == Phase::Draining || self.phase == Phase::Raising
            || self.phase == Phase::Trailing || self.phase == Phase::Finished))
        &&& (self.status is Some <==> self.phase == Phase::Finished)
        &&& (self.phase == Phase::Finished ==> self.status == Some(
            exchange_status(self.fault, self.reply@),
        ))
        &&& (self.fault is Some ==> (self.phase == Phase::Raising || self.phase == Phase::Trailing
            || self.phase == Phase::Finished))
    }

    /// Starts an exchange that sends `command`.  The first action is to
    /// drain the UART: `Action::ReadBuffered`.
    pub fn new(command: Vec<u8>) -> (r: Exchange)
        requires
            command@.len() <= FRAME_CAPACITY,
        ensures
            r.wf(),
            r.command@ == command@,
            r.phase == Phase::Draining,
            r.line_high,
            r.fault is None,
            r.status is None,
            r.reply@.len() == 0,
    {
        Exchange {
            command,
            phase: Phase::Draining,
            line_high: true,
            reply: Vec::new(),
            fault: None,
            status: None,
        }
    }

    /// The outcome once the exchange has finished: the decoded reply, or the
    /// fault that stopped it.
    pub fn outcome(&self) -> (r: Option<Result<Vec<u8>, Hc12Error>>)
        requires
            self.wf(),
        ensures
            self.phase != Phase::Finished ==> r is None,
            self.phase == Phase::Finished ==> (match exchange_status(self.fault, self.reply@) {
                Ok(()) => r matches Some(Ok(v)) && v@ == self.reply@,
                Err(e) => r == Some(Err::<Vec<u8>, Hc12Error>(e)),
            }),
    {
        match self.status {
            None => None,
            Some(Ok(())) => Some(Ok(self.reply.clone())),
            Some(Err(e)) => Some(Err(e)),
        }
    }

    /// Takes the answer to the last action and hands out the next one.
    pub fn step(&mut self, event: Event) -> (r: Action)
        requires
            old(self).wf(),
        ensures
            final(self).wf(),
            final(self).command@ == old(self).command@,
            // `line_high` follows the level changes handed out, so it is the
            // level of the SET line whenever the owner has performed them
            r is StrobeLow ==> !final(self).line_high,
            r is StrobeHigh ==> final(self).line_high,
            !(r is StrobeLow || r is StrobeHigh) ==> final(self).line_high == old(
                self,
            ).line_high,
            r is Finished ==> final(self).line_high,
            // drain until a read yields nothing or fails, then pull SET low
            old(self).phase == Phase::Draining ==> (if event matches Event::Received(v)
                && v@.len() > 0 {
                final(self).phase == Phase::Draining && r is ReadBuffered
            } else {
                final(self).phase == Phase::Lowering && r is StrobeLow
            }),
            old(self).phase == Phase::Lowering ==> final(self).phase == Phase::Settling && r
                == Action::Sleep(ENTER_DELAY_MS),
            old(self).phase == Phase::Settling ==> final(self).phase == Phase::Writing && (r matches Action::Write(w) && w@ == old(self).command@),
            old(self).phase == Phase::Writing ==> (if is_fault(event) {
                final(self).phase == Phase::Raising && r is StrobeHigh
            } else {
                final(self).phase == Phase::Flushing && r is Flush
            }),
            old(self).phase == Phase::Flushing ==> (if is_fault(event) {
                final(self).phase == Phase::Raising && r is StrobeHigh
            } else {
                final(self).phase == Phase::Waiting && r == Action::Sleep(REPLY_DELAY_MS)
            }),
            old(self).phase == Phase::Waiting ==> final(self).phase == Phase::Reading
                && r is ReadBuffered,
            old(self).phase == Phase::Reading ==> final(self).phase == Phase::Raising
                && r is StrobeHigh,
            old(self).phase == Phase::Reading ==> (match event {
                Event::Received(v) => final(self).fault is None && final(self).reply@ == buffered(
                    v@,
                ),
                Event::Fault(e) => final(self).fault == Some(e),
                Event::Done => final(self).fault is None && final(self).reply@.len() == 0,
            }),
            old(self).phase == Phase::Raising ==> final(self).phase == Phase::Trailing && r
                == Action::Sleep(LEAVE_DELAY_MS),
            old(self).phase == Phase::Trailing || old(self).phase == Phase::Finished
                ==> final(self).phase == Phase::Finished && r is Finished,
            (old(self).phase == Phase::Writing || old(self).phase == Phase::Flushing)
                ==> (match event {
                Event::Fault(e) => final(self).fault == Some(e),
                _ => final(self).fault is None,
            }),
            old(self).phase != Phase::Reading && old(self).phase != Phase::Writing
                && old(self).phase != Phase::Flushing ==> final(self).fault == old(self).fault
                && final(self).reply@ == old(self).reply@,
    {
        match self.phase {
            Phase::Draining => {
                let more = match &event {
                    Event::Received(v) => v.len() > 0,
                    _ => false,
                };
                if more {
                    Action::ReadBuffered
                } else {
                    self.phase = Phase::Lowering;
                    self.line_high = false;
                    Action::StrobeLow
                }
            },
            Phase::Lowering => {
                self.phase = Phase::Settling;
                Action::Sleep(ENTER_DELAY_MS)
            },
            Phase::Settling => {
                self.phase = Phase::Writing;
                Action::Write(self.command.clone())
            },
            Phase::Writing | Phase::Flushing => {
                match event {
                    Event::Fault(e) => {
                        self.fault = Some(e);
                        self.phase = Phase::Raising;
                        self.line_high = true;
                        Action::StrobeHigh
                    },
                    _ => {
                        if self.phase == Phase::Writing {
                            self.phase = Phase::Flushing;
                            Action::Flush
                        } else {
                            self.phase = Phase::Waiting;
                            Action::Sleep(REPLY_DELAY_MS)
                        }
                    },
                }
            },
            Phase::Waiting => {
                self.phase = Phase::Reading;
                Action::ReadBuffered
            },
            Phase::Reading => {
                match event {
                    Event::Received(v) => {
                        let mut v = v;
                        v.truncate(FRAME_CAPACITY);
                        self.reply = v;
                    },
                    Event::Fault(e) => {
                        self.fault = Some(e);
                    },
                    Event::Done => {
                        self.reply = Vec::new();
                    },
                }
                self.phase = Phase::Raising;
                self.line_high = true;
                Action::StrobeHigh
            },
            Phase::Raising => {
                self.phase = Phase::Trailing;
                Action::Sleep(LEAVE_DELAY_MS)
            },
            Phase::Trailing | Phase::Finished => {
                if self.phase == Phase::Trailing {
                    let st = match self.fault {
                        Some(e) => Err(Hc12Error::UartError(e)),
                        None => if decodes_as_text(self.reply.as_slice()) {
                            Ok(())
                        } else {
                            Err(Hc12Error::InvalidResponse)
                        },
                    };
                    self.status = Some(st);
                    self.phase = Phase::Finished;
                }
                Action::Finished
            },
        }
    }
}

/// Bytes that are all ASCII form UTF-8 text, so every acknowledgement that
/// the module sends decodes.
pub proof fn lemma_ascii_is_text(s: Seq<u8>)
    requires
        forall|i: int| 0 <= i < s.len() ==> #[trigger] s[i] < 128,
    ensures
        valid_utf8(s),
    decreases s.len(),
{
    if s.len() > 0 {
        let b = s[0];
        assert(((b & 0x7f) as u32) < 128) by (bit_vector)
            requires
                b < 128,
        ;
        let rest = s.subrange(1, s.len() as int);
        assert forall|i: int| 0 <= i < rest.len() implies #[trigger] rest[i] < 128 by {
            assert(rest[i] == s[i + 1]);
        }
        lemma_ascii_is_text(rest);
        assert(vstd::utf8::pop_first_scalar(s) =~= rest);
    }
}

/// Whatever the hardware answered along the way, a finished exchange has
/// left SET high, and the last level change it asked for was the raise.
pub proof fn lemma_finished_exchange_leaves_line_high(x: Exchange)
    requires
        x.wf(),
        x.phase == Phase::Finished,
    ensures
        x.line_high,
{
}

} // verus!
