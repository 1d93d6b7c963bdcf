//! Driver logic for the HC-12 serial radio transceiver.
//!
//! The module is configured with AT commands while its SET line is held low
//! and passes bytes through transparently while the line is high.  The
//! library holds the protocol: the command frames, the exact order of line
//! changes, delays and UART traffic of one exchange, the checks applied to
//! each acknowledgement and the baud-rate scan.  Whatever drives the UART and
//! the line runs the state machines of this crate and hands back what the
//! hardware reported.

pub mod config;
pub mod reply;
pub mod exchange;
pub mod scan;



