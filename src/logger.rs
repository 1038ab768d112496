//! The console logger: the single owner of the console USART, through which
//! every diagnostic leaves the system.

use crate::serial::{
    completed, drained, read_result, write_fault_of, transmit_step, tx_busy, uart_wf, written, Error,
    NbError, Serial, Status, TxStep, UartState,
};
use crate::text::crlf;
use vstd::prelude::*;
use vstd::string::StringSliceAdditionalSpecFns;

verus! {

/// The state and the result after `bytes` are written out to a USART in
/// state `u` and flushed: a busy transmitter is waited for before each byte
/// and before the end, and a fault that stops a write ends the writing.
pub open spec fn sent_all(u: UartState, bytes: Seq<u8>) -> (UartState, Result<(), Error>)
    decreases bytes.len(), (if tx_busy(u) {
        1nat
    } else {
        0nat
    }),
{
    if tx_busy(u) {
        sent_all(completed(u), bytes)
    } else if bytes.len() == 0 {
        (u, Ok(()))
    } else if write_fault_of(u.status) is Some {
        (u, Err(Error { kind: write_fault_of(u.status)->Some_0 }))
    } else {
        sent_all(written(u, bytes[0]), bytes.drop_first())
    }
}

/// What the logger holds and returns after it is asked to write `bytes`:
/// without a sink nothing happens and the write succeeds.
pub open spec fn logged(l: Option<UartState>, bytes: Seq<u8>) -> (Option<UartState>, Result<(), Error>) {
    match l {
        None => (None, Ok(())),
        Some(u) => (Some(sent_all(u, bytes).0), sent_all(u, bytes).1),
    }
}

/// Like `logged`, for `bytes` followed by a line terminator.
pub open spec fn logged_line(l: Option<UartState>, bytes: Seq<u8>) -> (Option<UartState>, Result<(), Error>) {
    let first = logged(l, bytes);
    if first.1 is Err {
        first
    } else {
        logged(first.0, crlf())
    }
}

/// `u` with its data-ready condition cleared.
pub open spec fn rx_cleared(u: UartState) -> UartState {
    UartState { status: Status { rx_ready: false, ..u.status }, ..u }
}

/// Writes `bytes` out, step by step as `transmit_step` decides, letting the
/// modelled transmitter finish a frame whenever the step is to wait.
fn send(serial: &mut Serial, bytes: &[u8]) -> (r: Result<(), Error>)
    requires
        old(serial).wf(),
    ensures
        final(serial).wf(),
        (final(serial)@, r) == sent_all(old(serial)@, bytes@),
{
    let n = bytes.len();
    let mut pos: usize = 0;
    assert(bytes@.subrange(0, n as int) =~= bytes@);
    loop
        invariant
            serial.wf(),
            n == bytes@.len(),
            pos <= n,
            sent_all(old(serial)@, bytes@) == sent_all(serial@, bytes@.subrange(pos as int, n as int)),
        decreases 2 * (n - pos) + (if tx_busy(serial@) {
            1int
        } else {
            0int
        }),
    {
        let ghost rest = bytes@.subrange(pos as int, n as int);
        let (next, step) = transmit_step(bytes, pos, serial.status());
        match step {
            TxStep::Store(b) => {
                let _ = serial.write(b);
                assert(rest.drop_first() =~= bytes@.subrange(next as int, n as int));
                pos = next;
            },
            TxStep::Wait => {
                serial.progress();
            },
            TxStep::Done => {
                return Ok(());
            },
            TxStep::Fail(e) => {
                return Err(e);
            },
        }
    }
}

/// Holds the console USART once one is installed; until then, output is dropped.
pub struct Logger {
    sink: Option<Serial>,
}

impl View for Logger {
    type V = Option<UartState>;

    closed spec fn view(&self) -> Option<UartState> {
        match self.sink {
            Some(s) => Some(s@),
            None => None,
        }
    }
}

impl Logger {
    /// An installed USART is well formed.
    pub open spec fn wf(&self) -> bool {
        match self@ {
            Some(u) => uart_wf(u),
            None => true,
        }
    }

    /// A logger with no sink.
    pub fn new() -> (l: Logger)
        ensures
            l.wf(),
            l@ is None,
    {
        Logger { sink: None }
    }

    /// The installed USART, if any.
    pub fn sink(&self) -> (r: Option<&Serial>)
        ensures
            match r {
                Some(s) => self@ == Some(s@),
                None => self@ is None,
            },
    {
        match &self.sink {
            Some(s) => Some(s),
            None => None,
        }
    }

    /// Writes the bytes of `bytes` to the sink and waits for them to leave.
    pub fn write_bytes(&mut self, bytes: &[u8]) -> (r: Result<(), Error>)
        requires
            old(self).wf(),
        ensures
            final(self).wf(),
            (final(self)@, r) == logged(old(self)@, bytes@),
    {
        match &mut self.sink {
            Some(s) => send(s, bytes),
            None => Ok(()),
        }
    }

    /// Writes `s` to the sink; a no-op that succeeds when none is installed.
    pub fn write_text(&mut self, s: &str) -> (r: Result<(), Error>)
        requires
            old(self).wf(),
        ensures
            final(self).wf(),
            (final(self)@, r) == logged(old(self)@, s.spec_bytes()),
            old(self)@ is None ==> r is Ok && final(self)@ is None,
    {
        self.write_bytes(s.as_bytes())
    }

    /// Writes `s` followed by a carriage return and a line feed.
    pub fn write_line(&mut self, s: &str) -> (r: Result<(), Error>)
        requires
            old(self).wf(),
        ensures
            final(self).wf(),
            (final(self)@, r) == logged_line(old(self)@, s.spec_bytes()),
    {
        let r = self.write_text(s);
        if r.is_err() {
            return r;
        }
        let end: [u8; 2] = [13, 10];
        assert(end@ =~= crlf());
        self.write_bytes(&end)
    }

    /// Clears the sink's data-ready condition, dropping any waiting byte.
    pub fn clear_rx_pending(&mut self)
        requires
            old(self).wf(),
        ensures
            final(self).wf(),
            final(self)@ == (match old(self)@ {
                Some(u) => Some(rx_cleared(u)),
                None => None,
            }),
    {
        match &mut self.sink {
            Some(s) => s.clear_rx_pending(),
            None => {},
        }
    }
}

/// Installs `serial` as the sink of `logger`, replacing any earlier one.
pub fn set_logger(logger: &mut Logger, serial: Serial)
    requires
        serial.wf(),
    ensures
        final(logger).wf(),
        final(logger)@ == Some(serial@),
{
    logger.sink = Some(serial);
}

/// Reads the sink without waiting: what its `read` gives, or `WouldBlock`
/// when no sink is installed.
pub fn read(logger: &mut Logger) -> (r: Result<u8, NbError>)
    requires
        old(logger).wf(),
    ensures
        final(logger).wf(),
        match old(logger)@ {
            Some(u) => r == read_result(u.status, u.rx_data as u32) && final(logger)@ == Some(
                if u.status.rx_ready {
                    drained(u)
                } else {
                    u
                },
            ),
            None => r == Err::<u8, NbError>(NbError::WouldBlock) && final(logger)@ is None,
        },
{
    match &mut logger.sink {
        Some(s) => s.read(),
        None => Err(NbError::WouldBlock),
    }
}

} // verus!
