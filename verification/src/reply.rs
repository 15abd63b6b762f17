//! Answers of the terminal, recognised byte by byte.
//!
//! An answer starts with a lead byte, which may come after a few bytes of
//! other traffic, and goes on with a body of fixed bytes and of payload
//! bytes. A [`Scanner`] takes the bytes as they come and says when the
//! answer is complete, broken, or overdue.

use vstd::prelude::*;
use crate::error::Error;
use crate::protocol::{Baudrate, Pro2Resp, Pro3Resp, Protocol};
use crate::videotex::C0;

verus! {

/// How many bytes a scanner looks at while it waits for the lead byte.
pub const WAIT_BUDGET: u8 = 10;

/// One byte of the body of an answer.
#[derive(Debug, Clone, Copy, PartialEq, Eq, Structural)]
pub enum Slot {
    /// The byte has to be this one.
    Fixed(u8),
    /// The byte is payload.
    Any,
}

/// The shapes of the answers of the terminal.
#[derive(Debug, Clone, Copy, PartialEq, Eq, Structural)]
pub enum Frame {
    /// A single awaited byte.
    Byte(u8),
    /// `ESC`, the selector of two parameters, the acknowledgement, one payload byte.
    Pro2(Pro2Resp),
    /// `ESC`, the selector of three parameters, the acknowledgement, two payload bytes.
    Pro3(Pro3Resp),
    /// `SOH`, three identification bytes, `EOL`.
    Rom,
    /// `US`, the row and the column of the cursor.
    Position,
}

impl Frame {
    /// The byte that opens the answer.
    pub open spec fn spec_lead(self) -> u8 {
        match self {
            Frame::Byte(b) => b,
            Frame::Pro2(_) => C0::ESC.byte(),
            Frame::Pro3(_) => C0::ESC.byte(),
            Frame::Rom => C0::SOH.byte(),
            Frame::Position => C0::US.byte(),
        }
    }

    /// The bytes that follow the lead byte.
    pub open spec fn body(self) -> Seq<Slot> {
        match self {
            Frame::Byte(_) => Seq::empty(),
            Frame::Pro2(ack) => seq![Slot::Fixed(Protocol::Pro2.byte()), Slot::Fixed(ack.byte()), Slot::Any],
            Frame::Pro3(ack) => seq![
                Slot::Fixed(Protocol::Pro3.byte()),
                Slot::Fixed(ack.byte()),
                Slot::Any,
                Slot::Any,
            ],
            Frame::Rom => seq![Slot::Any, Slot::Any, Slot::Any, Slot::Fixed(C0::EOL.byte())],
            Frame::Position => seq![Slot::Any, Slot::Any],
        }
    }

    /// The byte that opens the answer.
    #[verifier::when_used_as_spec(spec_lead)]
    pub fn lead(self) -> (b: u8)
        ensures
            b == self.spec_lead(),
    {
        match self {
            Frame::Byte(b) => b,
            Frame::Pro2(_) => C0::ESC.to_byte(),
            Frame::Pro3(_) => C0::ESC.to_byte(),
            Frame::Rom => C0::SOH.to_byte(),
            Frame::Position => C0::US.to_byte(),
        }
    }

    /// The number of payload bytes among the first `taken` bytes of the body.
    pub open spec fn payload_before(self, taken: int) -> int {
        match self {
            Frame::Byte(_) => 0,
            Frame::Pro2(_) => if taken >= 3 { 1 } else { 0 },
            Frame::Pro3(_) => if taken >= 4 { 2 } else if taken >= 3 { 1 } else { 0 },
            Frame::Rom => if taken >= 3 { 3 } else if taken >= 0 { taken } else { 0 },
            Frame::Position => if taken >= 2 { 2 } else if taken >= 0 { taken } else { 0 },
        }
    }

    /// The number of payload bytes of a complete answer.
    pub open spec fn payload_len(self) -> int {
        self.payload_before(self.body().len() as int)
    }

    /// The number of bytes that follow the lead byte.
    pub fn body_len(self) -> (n: usize)
        ensures
            n == self.body().len(),
            n <= 4,
    {
        match self {
            Frame::Byte(_) => 0,
            Frame::Pro2(_) => 3,
            Frame::Pro3(_) => 4,
            Frame::Rom => 4,
            Frame::Position => 2,
        }
    }

    /// The byte of the body at an index.
    pub fn slot(self, index: usize) -> (s: Slot)
        requires
            index < self.body().len(),
        ensures
            s == self.body()[index as int],
    {
        match self {
            Frame::Byte(_) => Slot::Any,
            Frame::Pro2(ack) => match index {
                0 => Slot::Fixed(Protocol::Pro2.to_byte()),
                1 => Slot::Fixed(ack.to_byte()),
                _ => Slot::Any,
            },
            Frame::Pro3(ack) => match index {
                0 => Slot::Fixed(Protocol::Pro3.to_byte()),
                1 => Slot::Fixed(ack.to_byte()),
                _ => Slot::Any,
            },
            Frame::Rom => match index {
                3 => Slot::Fixed(C0::EOL.to_byte()),
                _ => Slot::Any,
            },
            Frame::Position => Slot::Any,
        }
    }
}

/// Checks a byte that has to be a given one: another byte is a
/// `ProtocolViolation`.
pub fn expect_byte(got: u8, expected: u8) -> (r: Result<(), Error>)
    ensures
        got == expected ==> r is Ok,
        got != expected ==> r matches Err(Error::ProtocolViolation),
{
    if got != expected {
        return Err(Error::ProtocolViolation);
    }
    Ok(())
}

/// How far a scanner has come.
#[derive(Debug, Clone, Copy, PartialEq, Eq, Structural)]
pub enum Progress {
    /// Waiting for the lead byte, with the number of bytes passed over.
    Seeking(u8),
    /// In the body, with the number of its bytes taken.
    Matching(usize),
    /// The answer is complete.
    Done,
    /// The lead byte did not come within the budget.
    TimedOut,
    /// A byte of the body is not the one that the frame fixes.
    Violated,
}

impl Progress {
    /// Whether the scan has ended, one way or another.
    pub open spec fn spec_is_final(self) -> bool {
        self is Done || self is TimedOut || self is Violated
    }

    /// Whether the scan has ended, one way or another.
    #[verifier::when_used_as_spec(spec_is_final)]
    pub fn is_final(self) -> (b: bool)
        ensures
            b == self.spec_is_final(),
    {
        match self {
            Progress::Done | Progress::TimedOut | Progress::Violated => true,
            _ => false,
        }
    }
}

/// The state of a scan: how far it has come, and the payload so far.
#[verifier::ext_equal]
pub struct Scan {
    pub progress: Progress,
    pub payload: Seq<u8>,
}

impl Scan {
    /// The scan before its first byte.
    pub open spec fn start() -> Scan {
        Scan { progress: Progress::Seeking(0), payload: Seq::empty() }
    }

    /// Whether the state can occur in a scan of the frame.
    pub open spec fn wf(self, frame: Frame) -> bool {
        match self.progress {
            Progress::Seeking(n) => n < WAIT_BUDGET,
            Progress::Matching(i) => i < frame.body().len(),
            _ => true,
        }
    }

    /// The progress once `taken` bytes of the body are taken.
    pub open spec fn body_progress(frame: Frame, taken: int) -> Progress {
        if taken >= frame.body().len() {
            Progress::Done
        } else {
            Progress::Matching(taken as usize)
        }
    }

    /// The state after one more byte. A scan that has ended stays as it is.
    pub open spec fn fed(self, frame: Frame, byte: u8) -> Scan {
        match self.progress {
            Progress::Seeking(n) => if byte == frame.lead() {
                Scan { progress: Self::body_progress(frame, 0), ..self }
            } else if n + 1 >= WAIT_BUDGET {
                Scan { progress: Progress::TimedOut, ..self }
            } else {
                Scan { progress: Progress::Seeking((n + 1) as u8), ..self }
            },
            Progress::Matching(i) => match frame.body()[i as int] {
                Slot::Fixed(b) => if byte == b {
                    Scan { progress: Self::body_progress(frame, i + 1), ..self }
                } else {
                    Scan { progress: Progress::Violated, ..self }
                },
                Slot::Any => Scan {
                    progress: Self::body_progress(frame, i + 1),
                    payload: self.payload.push(byte),
                },
            },
            _ => self,
        }
    }

    /// The state after a sequence of bytes, from the start.
    pub open spec fn of(frame: Frame, bytes: Seq<u8>) -> Scan
        decreases bytes.len(),
    {
        if bytes.len() == 0 {
            Scan::start()
        } else {
            Scan::of(frame, bytes.drop_last()).fed(frame, bytes.last())
        }
    }

    /// The outcome of a scan that has ended: the payload of a complete
    /// answer, `Timeout` where the lead byte was overdue, and
    /// `ProtocolViolation` where a byte of the body was not the one that
    /// the frame fixes.
    pub open spec fn outcome(self) -> Result<Seq<u8>, Error> {
        match self.progress {
            Progress::Done => Ok(self.payload),
            Progress::TimedOut => Err(Error::Timeout),
            _ => Err(Error::ProtocolViolation),
        }
    }

    /// How many more bytes the scan can take at most.
    pub open spec fn room(self, frame: Frame) -> int {
        match self.progress {
            Progress::Seeking(n) => WAIT_BUDGET - n + frame.body().len(),
            Progress::Matching(i) => frame.body().len() - i,
            _ => 0,
        }
    }

    /// Whether the payload so far is as long as the progress says.
    pub open spec fn counted(self, frame: Frame) -> bool {
        match self.progress {
            Progress::Seeking(_) => self.payload.len() == 0,
            Progress::Matching(i) => self.payload.len() == frame.payload_before(i as int),
            Progress::Done => self.payload.len() == frame.payload_len(),
            _ => true,
        }
    }

    /// A scan holds one payload byte for each payload byte of the frame
    /// that it has passed; a complete answer holds them all.
    pub proof fn lemma_payload_len(frame: Frame, bytes: Seq<u8>)
        ensures
            Scan::of(frame, bytes).wf(frame),
            Scan::of(frame, bytes).counted(frame),
        decreases bytes.len(),
    {
        if bytes.len() > 0 {
            Self::lemma_payload_len(frame, bytes.drop_last());
        }
    }

    /// A scan takes a bounded number of bytes: while it has not ended, the
    /// bytes taken and the bytes that it can still take stay within the
    /// budget of the wait and the length of the body.
    pub proof fn lemma_room(frame: Frame, bytes: Seq<u8>)
        ensures
            !Scan::of(frame, bytes).progress.is_final() ==> bytes.len() + Scan::of(frame, bytes).room(
                frame,
            ) <= WAIT_BUDGET + frame.body().len(),
            !Scan::of(frame, bytes).progress.is_final() ==> Scan::of(frame, bytes).room(frame) > 0,
        decreases bytes.len(),
    {
        Self::lemma_payload_len(frame, bytes);
        if bytes.len() > 0 {
            Self::lemma_room(frame, bytes.drop_last());
            Self::lemma_payload_len(frame, bytes.drop_last());
        }
    }

    /// No scan goes on for ever: once as many bytes have come as the
    /// budget of the wait and the body of the frame allow, it has ended.
    pub proof fn lemma_scan_ends(frame: Frame, bytes: Seq<u8>)
        requires
            bytes.len() >= WAIT_BUDGET + frame.body().len(),
        ensures
            Scan::of(frame, bytes).progress.is_final(),
    {
        Self::lemma_room(frame, bytes);
    }

    /// Whether a sequence of bytes ends where its scan does: the scan has
    /// ended, and had not before the last byte.
    pub open spec fn ends_with(frame: Frame, bytes: Seq<u8>) -> bool {
        &&& bytes.len() > 0
        &&& !Scan::of(frame, bytes.drop_last()).progress.is_final()
        &&& Scan::of(frame, bytes).progress.is_final()
    }
}

/// Recognises one answer of the terminal, byte by byte.
#[derive(Debug)]
pub struct Scanner {
    pub frame: Frame,
    pub progress: Progress,
    pub payload: Vec<u8>,
}

impl View for Scanner {
    type V = Scan;

    open spec fn view(&self) -> Scan {
        Scan { progress: self.progress, payload: self.payload@ }
    }
}

impl Scanner {
    /// A scanner that awaits an answer of the given shape.
    pub fn new(frame: Frame) -> (scanner: Scanner)
        ensures
            scanner.frame == frame,
            scanner@ == Scan::start(),
            scanner@.wf(frame),
    {
        Scanner { frame, progress: Progress::Seeking(0), payload: Vec::new() }
    }

    /// The progress once `taken` bytes of the body are taken.
    fn body_progress(frame: Frame, taken: usize) -> (p: Progress)
        requires
            taken <= frame.body().len(),
        ensures
            p == Scan::body_progress(frame, taken as int),
    {
        if taken >= frame.body_len() {
            Progress::Done
        } else {
            Progress::Matching(taken)
        }
    }

    /// The outcome of a scan that has ended.
    pub fn finish(self) -> (r: Result<Vec<u8>, Error>)
        requires
            self@.progress.is_final(),
        ensures
            match r {
                Ok(payload) => self@.outcome() == Ok::<Seq<u8>, Error>(payload@),
                Err(e) => self@.outcome() == Err::<Seq<u8>, Error>(e),
            },
    {
        match self.progress {
            Progress::Done => Ok(self.payload),
            Progress::TimedOut => Err(Error::Timeout),
            _ => Err(Error::ProtocolViolation),
        }
    }

    /// Takes the next byte of the channel.
    pub fn feed(&mut self, byte: u8)
        requires
            old(self)@.wf(old(self).frame),
        ensures
            final(self).frame == old(self).frame,
            final(self)@ == old(self)@.fed(old(self).frame, byte),
            final(self)@.wf(final(self).frame),
    {
        match self.progress {
            Progress::Seeking(n) => {
                if byte == self.frame.lead() {
                    self.progress = Self::body_progress(self.frame, 0);
                } else if n + 1 >= WAIT_BUDGET {
                    self.progress = Progress::TimedOut;
                } else {
                    self.progress = Progress::Seeking(n + 1);
                }
            },
            Progress::Matching(i) => {
                match self.frame.slot(i) {
                    Slot::Fixed(b) => {
                        if byte == b {
                            self.progress = Self::body_progress(self.frame, i + 1);
                        } else {
                            self.progress = Progress::Violated;
                        }
                    },
                    Slot::Any => {
                        self.payload.push(byte);
                        self.progress = Self::body_progress(self.frame, i + 1);
                    },
                }
            },
            _ => {},
        }
    }
}

/// Whether bytes are those of the scan of an answer with a given result:
/// they end where the scan ends, and the result is its outcome; or the
/// channel failed before the scan had ended.
pub open spec fn scanned(frame: Frame, bytes: Seq<u8>, r: Result<Seq<u8>, Error>) -> bool {
    match r {
        Err(Error::Io(_)) => !Scan::of(frame, bytes).progress.is_final(),
        _ => Scan::ends_with(frame, bytes) && r == Scan::of(frame, bytes).outcome(),
    }
}

/// The column and the row that an answer to a position request names: each
/// byte counts from `0x41`, the row comes first. Bytes below have no meaning.
pub open spec fn position_of(row: u8, col: u8) -> Result<(u8, u8), Error> {
    if row >= 0x41 && col >= 0x41 {
        Ok(((col - 0x41) as u8, (row - 0x41) as u8))
    } else {
        Err(Error::ProtocolViolation)
    }
}

/// Decodes the two bytes of an answer to a position request to a column and a row.
pub fn position_from_answer(row: u8, col: u8) -> (r: Result<(u8, u8), Error>)
    ensures
        r == position_of(row, col),
{
    if row >= 0x41 && col >= 0x41 {
        Ok((col - 0x41, row - 0x41))
    } else {
        Err(Error::ProtocolViolation)
    }
}

/// The rate that the payload byte of a speed answer names, and
/// `UnknownBaudrate` where it names none.
pub open spec fn speed_of(code: u8) -> Result<Baudrate, Error> {
    match Baudrate::of_code(code) {
        Ok(rate) => Ok(rate),
        Err(_) => Err(Error::UnknownBaudrate),
    }
}

/// Decodes the payload byte of a speed answer.
pub fn speed_from_answer(code: u8) -> (r: Result<Baudrate, Error>)
    ensures
        r == speed_of(code),
{
    match Baudrate::try_from(code) {
        Ok(rate) => Ok(rate),
        Err(_) => Err(Error::UnknownBaudrate),
    }
}

/// What the status byte of a speed answer makes of a change of rate: the
/// rate, where it names the rate asked for; `ProtocolViolation`, where it
/// names another; `UnknownBaudrate`, where it names none.
pub open spec fn confirmed(requested: Baudrate, code: u8) -> Result<Baudrate, Error> {
    match Baudrate::of_code(code) {
        Ok(rate) => if rate == requested {
            Ok(rate)
        } else {
            Err(Error::ProtocolViolation)
        },
        Err(_) => Err(Error::UnknownBaudrate),
    }
}

/// Checks the status byte of the speed answer that confirms a change of rate.
pub fn confirm_speed(requested: Baudrate, code: u8) -> (r: Result<Baudrate, Error>)
    ensures
        r == confirmed(requested, code),
{
    match Baudrate::try_from(code) {
        Ok(rate) => {
            if rate == requested {
                Ok(rate)
            } else {
                Err(Error::ProtocolViolation)
            }
        },
        Err(_) => Err(Error::UnknownBaudrate),
    }
}

} // verus!
