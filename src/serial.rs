//! The console USART: status decoding, the non-blocking transfer decisions,
//! baud-rate arithmetic, and a register-level model of the peripheral.

use vstd::prelude::*;

verus! {

/// `STATR` bit: parity error.
pub const STATR_PE: u32 = 0x01;

/// `STATR` bit: framing error.
pub const STATR_FE: u32 = 0x02;

/// `STATR` bit: noise detected.
pub const STATR_NE: u32 = 0x04;

/// `STATR` bit: receive overrun.
pub const STATR_ORE: u32 = 0x08;

/// `STATR` bit: received data ready to be read.
pub const STATR_RXNE: u32 = 0x20;

/// `STATR` bit: transmission complete.
pub const STATR_TC: u32 = 0x40;

/// `STATR` bit: transmit data register empty.
pub const STATR_TXE: u32 = 0x80;

/// What went wrong on the line.
#[derive(Clone, Copy, Debug, PartialEq, Eq, Structural)]
pub enum ErrorKind {
    Overrun,
    FrameFormat,
    Parity,
    Noise,
    Other,
}

/// A hardware fault reported by the USART.
#[derive(Clone, Copy, Debug, PartialEq, Eq, Structural)]
pub struct Error {
    pub kind: ErrorKind,
}

impl Error {
    pub fn new(kind: ErrorKind) -> (e: Error)
        ensures
            e.kind == kind,
    {
        Error { kind }
    }

    /// The class of the fault.
    pub fn kind(&self) -> (k: ErrorKind)
        ensures
            k == self.kind,
    {
        self.kind
    }
}

/// Outcome of a non-blocking transfer that did not complete.
#[derive(Clone, Copy, Debug, PartialEq, Eq, Structural)]
pub enum NbError {
    /// The peripheral is not ready yet; try again.
    WouldBlock,
    /// The peripheral reported a fault.
    Other(Error),
}

/// The flags of the USART status register that the transport reads.
#[derive(Clone, Copy, Debug, PartialEq, Eq, Structural)]
pub struct Status {
    pub parity_error: bool,
    pub framing_error: bool,
    pub noise: bool,
    pub overrun: bool,
    pub rx_ready: bool,
    pub tx_complete: bool,
    pub tx_empty: bool,
}

/// The flags that the status register value `bits` holds.
pub open spec fn status_of(bits: u32) -> Status {
    Status {
        parity_error: bits & STATR_PE != 0,
        framing_error: bits & STATR_FE != 0,
        noise: bits & STATR_NE != 0,
        overrun: bits & STATR_ORE != 0,
        rx_ready: bits & STATR_RXNE != 0,
        tx_complete: bits & STATR_TC != 0,
        tx_empty: bits & STATR_TXE != 0,
    }
}

/// The fault that a status reports; an overrun is named before a framing
/// error, a framing error before a parity error, and that before noise.
pub open spec fn fault_of(s: Status) -> Option<ErrorKind> {
    if s.overrun {
        Some(ErrorKind::Overrun)
    } else if s.framing_error {
        Some(ErrorKind::FrameFormat)
    } else if s.parity_error {
        Some(ErrorKind::Parity)
    } else if s.noise {
        Some(ErrorKind::Noise)
    } else {
        None
    }
}

/// What a read attempt yields on status `s` with data register `data`: the
/// byte when one is waiting and no fault is flagged, the fault when one is.
pub open spec fn read_result(s: Status, data: u32) -> Result<u8, NbError> {
    if !s.rx_ready {
        Err(NbError::WouldBlock)
    } else {
        match fault_of(s) {
            Some(k) => Err(NbError::Other(Error { kind: k })),
            None => Ok((data & 0xff) as u8),
        }
    }
}

/// The fault that stops a write: an overrun before a framing error, and
/// that before a parity error. Noise does not stop a write.
pub open spec fn write_fault_of(s: Status) -> Option<ErrorKind> {
    if s.overrun {
        Some(ErrorKind::Overrun)
    } else if s.framing_error {
        Some(ErrorKind::FrameFormat)
    } else if s.parity_error {
        Some(ErrorKind::Parity)
    } else {
        None
    }
}

/// What a write attempt yields on status `s`: `WouldBlock` while the data
/// register is occupied, then the fault that stops a write, if any.
pub open spec fn write_result(s: Status) -> Result<(), NbError> {
    if !s.tx_empty {
        Err(NbError::WouldBlock)
    } else {
        match write_fault_of(s) {
            Some(k) => Err(NbError::Other(Error { kind: k })),
            None => Ok(()),
        }
    }
}

/// What a flush attempt yields on status `s`.
pub open spec fn flush_result(s: Status) -> Result<(), NbError> {
    if s.tx_complete {
        Ok(())
    } else {
        Err(NbError::WouldBlock)
    }
}

impl Status {
    /// Decodes a value of the status register.
    pub fn from_bits(bits: u32) -> (s: Status)
        ensures
            s == status_of(bits),
    {
        Status {
            parity_error: bits & STATR_PE != 0,
            framing_error: bits & STATR_FE != 0,
            noise: bits & STATR_NE != 0,
            overrun: bits & STATR_ORE != 0,
            rx_ready: bits & STATR_RXNE != 0,
            tx_complete: bits & STATR_TC != 0,
            tx_empty: bits & STATR_TXE != 0,
        }
    }

    /// The fault this status reports, if any.
    pub fn fault(&self) -> (k: Option<ErrorKind>)
        ensures
            k == fault_of(*self),
    {
        if self.overrun {
            Some(ErrorKind::Overrun)
        } else if self.framing_error {
            Some(ErrorKind::FrameFormat)
        } else if self.parity_error {
            Some(ErrorKind::Parity)
        } else if self.noise {
            Some(ErrorKind::Noise)
        } else {
            None
        }
    }
}

/// Decides a read: `WouldBlock` if nothing is waiting, else the fault that
/// came with the byte, else the byte.
pub fn read_attempt(s: Status, data: u32) -> (r: Result<u8, NbError>)
    ensures
        r == read_result(s, data),
{
    if !s.rx_ready {
        return Err(NbError::WouldBlock);
    }
    match s.fault() {
        Some(k) => Err(NbError::Other(Error::new(k))),
        None => Ok((data & 0xff) as u8),
    }
}

/// Decides a write: wait for the data register, then refuse on an
/// overrun, framing or parity fault.
pub fn write_attempt(s: Status) -> (r: Result<(), NbError>)
    ensures
        r == write_result(s),
{
    if !s.tx_empty {
        Err(NbError::WouldBlock)
    } else if s.overrun {
        Err(NbError::Other(Error::new(ErrorKind::Overrun)))
    } else if s.framing_error {
        Err(NbError::Other(Error::new(ErrorKind::FrameFormat)))
    } else if s.parity_error {
        Err(NbError::Other(Error::new(ErrorKind::Parity)))
    } else {
        Ok(())
    }
}

/// Decides a flush: done once the last frame has left the shift register.
pub fn flush_attempt(s: Status) -> (r: Result<(), NbError>)
    ensures
        r == flush_result(s),
{
    if s.tx_complete {
        Ok(())
    } else {
        Err(NbError::WouldBlock)
    }
}

/// `CTLR1` bit: receiver enable.
pub const CTLR1_RE: u32 = 0x0004;

/// `CTLR1` bit: transmitter enable.
pub const CTLR1_TE: u32 = 0x0008;

/// `CTLR1` bit: interrupt on received data.
pub const CTLR1_RXNEIE: u32 = 0x0020;

/// `CTLR1` bit: interrupt on empty transmit data register.
pub const CTLR1_TXEIE: u32 = 0x0080;

/// `CTLR1` bit: word length; clear for 8 data bits.
pub const CTLR1_M: u32 = 0x1000;

/// `CTLR1` bit: USART enable.
pub const CTLR1_UE: u32 = 0x2000;

/// The `STOP` field of `CTLR2`.
pub const CTLR2_STOP_MASK: u32 = 0x3000;

/// The divisor fields of `BRR`.
pub const BRR_MASK: u32 = 0xffff;

/// Largest baud-rate mantissa that the 12-bit field holds.
pub const MANTISSA_MAX: u64 = 0xfff;

/// Sixteen times the baud-rate divisor for `clock` and `baud`, rounded to nearest.
pub open spec fn divisor16(clock: nat, baud: nat) -> nat
    recommends
        baud > 0,
{
    (clock + baud / 2) / baud
}

/// Register values that bring the USART up at a given baud rate.
#[derive(Clone, Copy, Debug, PartialEq, Eq, Structural)]
pub struct UsartSetup {
    /// The bits of control register 1 to set: enable, transmitter and
    /// receiver with their interrupts.
    pub ctlr1_set: u32,
    /// The stop-bit field of control register 2 (`0` is one stop bit).
    pub stop: u8,
    /// Integer part of the baud-rate divisor.
    pub mantissa: u16,
    /// Sixteenths of the baud-rate divisor.
    pub fraction: u8,
}

/// Whether `clock` and `baud` give a divisor that the baud-rate register holds.
pub open spec fn setup_possible(clock: nat, baud: nat) -> bool {
    baud > 0 && 16 <= divisor16(clock, baud) && divisor16(clock, baud) / 16 <= MANTISSA_MAX
}

/// The setup for `clock` and `baud`, where it is possible.
pub open spec fn setup_of(clock: nat, baud: nat) -> UsartSetup {
    UsartSetup {
        ctlr1_set: CTLR1_UE | CTLR1_TE | CTLR1_TXEIE | CTLR1_RE | CTLR1_RXNEIE,
        stop: 0,
        mantissa: (divisor16(clock, baud) / 16) as u16,
        fraction: (divisor16(clock, baud) % 16) as u8,
    }
}

impl UsartSetup {
    /// Computes the register values for a peripheral clocked at `clock_hz`
    /// that is to run at `baud`; `None` where the divisor does not fit.
    pub fn new(clock_hz: u32, baud: u32) -> (r: Option<UsartSetup>)
        ensures
            r is Some <==> setup_possible(clock_hz as nat, baud as nat),
            r is Some ==> r->Some_0 == setup_of(clock_hz as nat, baud as nat),
    {
        if baud == 0 {
            return None;
        }
        let d: u64 = (clock_hz as u64 + baud as u64 / 2) / baud as u64;
        if d < 16 || d / 16 > MANTISSA_MAX {
            return None;
        }
        Some(
            UsartSetup {
                ctlr1_set: CTLR1_UE | CTLR1_TE | CTLR1_TXEIE | CTLR1_RE | CTLR1_RXNEIE,
                stop: 0,
                mantissa: (d / 16) as u16,
                fraction: (d % 16) as u8,
            },
        )
    }

    /// Control register 1 after bring-up, from its value `old` before: the
    /// enable bits set, the word-length bit cleared, every other bit kept.
    pub fn ctlr1_from(&self, old: u32) -> (r: u32)
        ensures
            r == (old | self.ctlr1_set) & !CTLR1_M,
    {
        (old | self.ctlr1_set) & !CTLR1_M
    }

    /// Control register 2 after bring-up, from its value `old` before: the
    /// stop field replaced, every other bit kept.
    pub fn ctlr2_from(&self, old: u32) -> (r: u32)
        requires
            self.stop < 4,
        ensures
            r == (old & !CTLR2_STOP_MASK) | ((self.stop as u32) << 12u32),
    {
        (old & !CTLR2_STOP_MASK) | ((self.stop as u32) << 12u32)
    }

    /// The baud-rate register after bring-up, from its value `old` before:
    /// the divisor fields replaced, the reserved bits kept.
    pub fn brr_from(&self, old: u32) -> (r: u32)
        requires
            self.mantissa <= MANTISSA_MAX,
            self.fraction < 16,
        ensures
            r == (old & !BRR_MASK) | (self.mantissa * 16 + self.fraction) as u32,
    {
        (old & !BRR_MASK) | self.brr()
    }

    /// The value of the baud-rate register: mantissa above four fraction bits.
    pub fn brr(&self) -> (r: u32)
        requires
            self.mantissa <= MANTISSA_MAX,
            self.fraction < 16,
        ensures
            r == self.mantissa * 16 + self.fraction,
    {
        self.mantissa as u32 * 16 + self.fraction as u32
    }
}

/// The state of a modelled USART as the contracts see it.
pub struct UartState {
    /// The status flags.
    pub status: Status,
    /// The last byte latched into the receive data register.
    pub rx_data: u8,
    /// Every byte handed to the transmitter so far, oldest first.
    pub line: Seq<u8>,
    /// Whether the transmit line is wired back to the receive line.
    pub looped: bool,
    /// The register values the peripheral was brought up with.
    pub setup: UsartSetup,
}

/// A freshly enabled USART: nothing received, nothing sent, transmitter idle.
pub open spec fn initial(setup: UsartSetup, looped: bool) -> UartState {
    UartState {
        status: Status {
            parity_error: false,
            framing_error: false,
            noise: false,
            overrun: false,
            rx_ready: false,
            tx_complete: true,
            tx_empty: true,
        },
        rx_data: 0,
        line: Seq::empty(),
        looped,
        setup,
    }
}

/// A frame is still being shifted out.
pub open spec fn tx_busy(u: UartState) -> bool {
    !u.status.tx_complete
}

/// The state after byte `c` arrives on the receive line: it is latched if
/// the data register is free, and lost with an overrun flagged if it is not.
pub open spec fn delivered(u: UartState, c: u8) -> UartState {
    if u.status.rx_ready {
        UartState { status: Status { overrun: true, ..u.status }, ..u }
    } else {
        UartState { status: Status { rx_ready: true, ..u.status }, rx_data: c, ..u }
    }
}

/// The state after byte `c` is handed to the transmitter: the transmitter
/// is busy until the frame has gone out; a looped-back receiver latches it.
pub open spec fn written(u: UartState, c: u8) -> UartState {
    let sent = UartState {
        status: Status { tx_empty: false, tx_complete: false, ..u.status },
        line: u.line.push(c),
        ..u
    };
    if u.looped {
        delivered(sent, c)
    } else {
        sent
    }
}

/// The state after the frame in flight, if any, has gone out.
pub open spec fn completed(u: UartState) -> UartState {
    UartState { status: Status { tx_empty: true, tx_complete: true, ..u.status }, ..u }
}

/// The state after the received byte has been read: the data-ready flag
/// and the receive faults are cleared.
pub open spec fn drained(u: UartState) -> UartState {
    UartState {
        status: Status {
            parity_error: false,
            framing_error: false,
            noise: false,
            overrun: false,
            rx_ready: false,
            ..u.status
        },
        ..u
    }
}

/// The data register is free exactly when no frame is in flight.
pub open spec fn uart_wf(u: UartState) -> bool {
    u.status.tx_empty == u.status.tx_complete
}

/// On a USART whose transmit line is wired to its receive line, with no
/// byte waiting, a byte whose write succeeds is read back once, and the
/// read after that would block.
pub proof fn lemma_echo_round_trip(u: UartState, c: u8)
    requires
        u.looped,
        !u.status.rx_ready,
        fault_of(u.status) is None,
        write_result(u.status) is Ok,
    ensures
        read_result(written(u, c).status, written(u, c).rx_data as u32) == Ok::<u8, NbError>(c),
        read_result(drained(written(u, c)).status, drained(written(u, c)).rx_data as u32)
            == Err::<u8, NbError>(NbError::WouldBlock),
{
    assert((c as u32 & 0xff) as u8 == c) by (bit_vector);
}

/// A USART modelled at the level of its registers. A byte written occupies
/// the transmitter until `progress` lets the frame go out.
pub struct Serial {
    status: Status,
    rx_data: u8,
    line: Vec<u8>,
    looped: bool,
    setup: UsartSetup,
}

impl View for Serial {
    type V = UartState;

    closed spec fn view(&self) -> UartState {
        UartState {
            status: self.status,
            rx_data: self.rx_data,
            line: self.line@,
            looped: self.looped,
            setup: self.setup,
        }
    }
}

impl Serial {
    pub open spec fn wf(&self) -> bool {
        uart_wf(self@)
    }

    /// Brings up a USART at `baud` from a peripheral clock of `clock_hz`;
    /// `looped` wires its transmit line back to its receive line.
    pub fn new(clock_hz: u32, baud: u32, looped: bool) -> (r: Option<Serial>)
        ensures
            r is Some <==> setup_possible(clock_hz as nat, baud as nat),
            r matches Some(s) ==> s.wf() && s@ == initial(
                setup_of(clock_hz as nat, baud as nat),
                looped,
            ),
    {
        match UsartSetup::new(clock_hz, baud) {
            None => None,
            Some(setup) => {
                let s = Serial {
                    status: Status {
                        parity_error: false,
                        framing_error: false,
                        noise: false,
                        overrun: false,
                        rx_ready: false,
                        tx_complete: true,
                        tx_empty: true,
                    },
                    rx_data: 0,
                    line: Vec::new(),
                    looped,
                    setup,
                };
                assert(s@ =~= initial(setup, looped));
                Some(s)
            },
        }
    }

    /// The current status flags.
    pub fn status(&self) -> (r: Status)
        ensures
            r == self@.status,
    {
        self.status
    }

    /// The register values the peripheral was brought up with.
    pub fn setup(&self) -> (r: UsartSetup)
        ensures
            r == self@.setup,
    {
        self.setup
    }

    /// The bytes handed to the transmitter so far.
    pub fn sent(&self) -> (r: &[u8])
        ensures
            r@ == self@.line,
    {
        self.line.as_slice()
    }

    /// Latches `c` as if it had arrived on the receive line.
    pub fn receive(&mut self, c: u8)
        requires
            old(self).wf(),
        ensures
            final(self).wf(),
            final(self)@ == delivered(old(self)@, c),
    {
        if self.status.rx_ready {
            self.status.overrun = true;
        } else {
            self.status.rx_ready = true;
            self.rx_data = c;
        }
    }

    /// Lets the frame in flight, if any, go out.
    pub fn progress(&mut self)
        requires
            old(self).wf(),
        ensures
            final(self).wf(),
            final(self)@ == completed(old(self)@),
    {
        self.status.tx_empty = true;
        self.status.tx_complete = true;
    }

    /// Reads the received byte without waiting. Whenever a byte was waiting,
    /// the data-ready condition and the receive faults are cleared, so the
    /// byte is delivered once and a fault is reported once.
    pub fn read(&mut self) -> (r: Result<u8, NbError>)
        requires
            old(self).wf(),
        ensures
            final(self).wf(),
            r == read_result(old(self)@.status, old(self)@.rx_data as u32),
            r matches Ok(c) ==> c == old(self)@.rx_data,
            final(self)@ == (if old(self)@.status.rx_ready {
                drained(old(self)@)
            } else {
                old(self)@
            }),
    {
        let b = self.rx_data;
        let r = read_attempt(self.status, b as u32);
        if self.status.rx_ready {
            self.status.parity_error = false;
            self.status.framing_error = false;
            self.status.noise = false;
            self.status.overrun = false;
            self.status.rx_ready = false;
        }
        proof {
            assert((b as u32 & 0xff) as u8 == b) by (bit_vector);
        }
        r
    }

    /// Hands `c` to the transmitter unless the peripheral reports a fault or
    /// is still sending.
    pub fn write(&mut self, c: u8) -> (r: Result<(), NbError>)
        requires
            old(self).wf(),
        ensures
            final(self).wf(),
            r == write_result(old(self)@.status),
            final(self)@ == (if r is Ok {
                written(old(self)@, c)
            } else {
                old(self)@
            }),
    {
        let r = write_attempt(self.status);
        if r.is_ok() {
            self.line.push(c);
            self.status.tx_empty = false;
            self.status.tx_complete = false;
            if self.looped {
                self.receive(c);
            }
        }
        r
    }

    /// Succeeds once the last frame has gone out; `WouldBlock` before.
    pub fn flush(&mut self) -> (r: Result<(), NbError>)
        requires
            old(self).wf(),
        ensures
            final(self).wf(),
            r == flush_result(old(self)@.status),
            final(self)@ == old(self)@,
    {
        flush_attempt(self.status)
    }

    /// Clears the data-ready condition without reading the byte.
    pub fn clear_rx_pending(&mut self)
        requires
            old(self).wf(),
        ensures
            final(self).wf(),
            final(self)@ == (UartState {
                status: Status { rx_ready: false, ..old(self)@.status },
                ..old(self)@
            }),
    {
        self.status.rx_ready = false;
    }
}

/// What a transmission asks of the peripheral next.
#[derive(Clone, Copy, Debug, PartialEq, Eq, Structural)]
pub enum TxStep {
    /// Put this byte into the data register.
    Store(u8),
    /// The peripheral is busy: look at its status again.
    Wait,
    /// The last frame has gone out: the transmission succeeded.
    Done,
    /// The peripheral reported a fault: the transmission failed.
    Fail(Error),
}

/// The next step of writing `bytes` out and flushing, with `pos` bytes
/// stored so far and the peripheral showing status `s`, and the count of
/// bytes stored after it: a byte is stored only when the data register is
/// free and no fault is flagged, a fault ends the transmission, and it
/// ends well only once the last frame has gone out.
pub open spec fn tx_step(bytes: Seq<u8>, pos: nat, s: Status) -> (nat, TxStep) {
    if pos < bytes.len() {
        match write_result(s) {
            Ok(()) => ((pos + 1) as nat, TxStep::Store(bytes[pos as int])),
            Err(NbError::WouldBlock) => (pos, TxStep::Wait),
            Err(NbError::Other(e)) => (pos, TxStep::Fail(e)),
        }
    } else {
        match flush_result(s) {
            Ok(()) => (pos, TxStep::Done),
            Err(_) => (pos, TxStep::Wait),
        }
    }
}

/// Decides the next step of a transmission of `bytes` (see `tx_step`).
pub fn transmit_step(bytes: &[u8], pos: usize, s: Status) -> (r: (usize, TxStep))
    requires
        pos <= bytes@.len(),
    ensures
        (r.0 as nat, r.1) == tx_step(bytes@, pos as nat, s),
{
    if pos < bytes.len() {
        match write_attempt(s) {
            Ok(()) => (pos + 1, TxStep::Store(bytes[pos])),
            Err(NbError::WouldBlock) => (pos, TxStep::Wait),
            Err(NbError::Other(e)) => (pos, TxStep::Fail(e)),
        }
    } else {
        match flush_attempt(s) {
            Ok(()) => (pos, TxStep::Done),
            Err(_) => (pos, TxStep::Wait),
        }
    }
}

} // verus!
