//! A session with one terminal over a byte channel.
//!
//! A [`Minitel`] owns its channel. Beside it, it keeps a record of the
//! bytes that the channel took, of the bytes that the channel gave, of the
//! flushes, of the line rates that were applied and of the probes for the
//! line rate. The record exists for the contracts only: each operation
//! says what it adds to it.

use vstd::prelude::*;
use crate::error::Error;
use crate::glyph::{text_bytes, G2, SIChar};
use crate::negotiate::{successes, Negotiation, SpeedProbe};
use crate::protocol::{
    Baudrate, FunctionMode, Pro1, Pro2, Pro2Resp, Pro3, Pro3Resp, ProtocolMessage, Rom, RoutingRx,
    RoutingTx,
};
use crate::render::codes_bytes;
use crate::reply::{
    confirm_speed, confirmed, expect_byte, position_from_answer, position_of, scanned,
    speed_from_answer, Frame, Scan, Scanner,
};
use crate::stroke::{StrokeState, StrokeStep};
use crate::videotex::{C0, C1, SetPosition, UserInput};
use crate::{IntoSequence, MinitelMessage};

verus! {

/// A source of bytes: the receiving side of a channel.
pub trait MinitelRead {
    /// Fills the buffer with the next bytes of the channel, or fails.
    fn read(&mut self, data: &mut [u8]) -> Result<(), std::io::Error>;
}

/// A sink of bytes: the sending side of a channel.
pub trait MinitelWrite {
    /// Hands the bytes to the channel, all of them and in order, or fails.
    fn send(&mut self, data: &[u8]) -> Result<(), std::io::Error>;

    /// Waits until the channel has let go of what it was handed.
    fn flush(&mut self) -> Result<(), std::io::Error>;
}

/// A channel whose line rate can be changed.
pub trait MinitelBaudrateControl {
    /// Changes the line rate of the channel.
    fn set_baudrate(&mut self, baudrate: Baudrate) -> Result<(), std::io::Error>;
}

/// A session with one terminal.
pub struct Minitel<S> {
    /// The channel to the terminal.
    pub port: S,
    /// Record of the bytes that the channel took.
    pub sent: Ghost<Seq<u8>>,
    /// Record of the bytes that the channel gave.
    pub received: Ghost<Seq<u8>>,
    /// Record of the line rates that were applied.
    pub rates: Ghost<Seq<Baudrate>>,
    /// Record of the probes for the line rate.
    pub probes: Ghost<Seq<(Baudrate, bool)>>,
    /// Record of the flushes.
    pub flushes: Ghost<nat>,
}

impl<S> Minitel<S> {
    /// The bytes that the channel took from this session, oldest first.
    pub open spec fn sent(&self) -> Seq<u8> {
        self.sent@
    }

    /// The bytes that the channel gave to this session, oldest first.
    pub open spec fn received(&self) -> Seq<u8> {
        self.received@
    }

    /// The line rates that this session applied to the channel, oldest first.
    pub open spec fn rates(&self) -> Seq<Baudrate> {
        self.rates@
    }

    /// The probes for the line rate that this session made, oldest first:
    /// for each the candidate rate, and whether a speed answer came under it
    /// that names a rate.
    pub open spec fn probes(&self) -> Seq<(Baudrate, bool)> {
        self.probes@
    }

    /// How many times this session flushed the channel.
    pub open spec fn flushes(&self) -> nat {
        self.flushes@
    }

    /// Whether the line was left alone between two states: no rate was
    /// applied, no probe was made, and the channel was not flushed.
    pub open spec fn same_line(before: Self, after: Self) -> bool {
        &&& after.rates() == before.rates()
        &&& after.probes() == before.probes()
        &&& after.flushes() == before.flushes()
    }

    /// Whether the channel was flushed once between two states, and nothing
    /// else happened.
    pub open spec fn flushed(before: Self, after: Self) -> bool {
        &&& after.sent() == before.sent()
        &&& after.received() == before.received()
        &&& after.rates() == before.rates()
        &&& after.probes() == before.probes()
        &&& after.flushes() == before.flushes() + 1
    }

    /// Whether nothing was added to the record between two states.
    pub open spec fn idle(before: Self, after: Self) -> bool {
        &&& after.sent() == before.sent()
        &&& after.received() == before.received()
        &&& Self::same_line(before, after)
    }

    /// Whether the given bytes were sent between two states, and nothing else happened.
    pub open spec fn wrote(before: Self, after: Self, bytes: Seq<u8>) -> bool {
        &&& after.sent() == before.sent() + bytes
        &&& after.received() == before.received()
        &&& Self::same_line(before, after)
    }

    /// What an attempt to send the given bytes leaves: the bytes sent, or a
    /// failure of the channel and nothing sent.
    pub open spec fn sends(before: Self, after: Self, r: Result<(), Error>, bytes: Seq<u8>) -> bool {
        match r {
            Ok(_) => Self::wrote(before, after, bytes),
            Err(e) => e is Io && Self::idle(before, after),
        }
    }

    /// Opens a session on a channel.
    pub fn new(port: S) -> (minitel: Self)
        ensures
            minitel.port == port,
            minitel.sent() == Seq::<u8>::empty(),
            minitel.received() == Seq::<u8>::empty(),
            minitel.rates() == Seq::<Baudrate>::empty(),
            minitel.probes() == Seq::<(Baudrate, bool)>::empty(),
            minitel.flushes() == 0,
    {
        Minitel {
            port,
            sent: Ghost(Seq::empty()),
            received: Ghost(Seq::empty()),
            rates: Ghost(Seq::empty()),
            probes: Ghost(Seq::empty()),
            flushes: Ghost(0),
        }
    }
}

impl<S: MinitelWrite> Minitel<S> {
    /// Sends raw bytes.
    pub fn write_bytes(&mut self, data: &[u8]) -> (r: Result<(), Error>)
        ensures
            Self::sends(*old(self), *final(self), r, data@),
    {
        match self.port.send(data) {
            Ok(()) => {
                proof {
                    self.sent@ = self.sent@ + data@;
                }
                Ok(())
            },
            Err(e) => Err(Error::Io(e)),
        }
    }

    /// Sends a single byte.
    pub fn write_byte(&mut self, byte: u8) -> (r: Result<(), Error>)
        ensures
            Self::sends(*old(self), *final(self), r, seq![byte]),
    {
        let data = [byte];
        assert(data@ =~= seq![byte]);
        self.write_bytes(&data)
    }

    /// Waits until the channel has let go of what it was handed.
    pub fn flush(&mut self) -> (r: Result<(), Error>)
        ensures
            match r {
                Ok(_) => Self::flushed(*old(self), *final(self)),
                Err(e) => e is Io && Self::idle(*old(self), *final(self)),
            },
    {
        match self.port.flush() {
            Ok(()) => {
                proof {
                    self.flushes@ = self.flushes@ + 1;
                }
                Ok(())
            },
            Err(e) => Err(Error::Io(e)),
        }
    }

    /// Sends a message.
    pub fn send<M: MinitelMessage>(&mut self, message: M) -> (r: Result<(), Error>)
        requires
            message.wf(),
        ensures
            Self::sends(*old(self), *final(self), r, message.bytes()),
    {
        let bytes = message.message();
        self.write_bytes(bytes.as_slice())
    }

    /// Sends a value of a fixed number of bytes.
    pub fn write_sequence<const N: usize, T: IntoSequence<N>>(&mut self, sequence: T) -> (r: Result<
        (),
        Error,
    >)
        ensures
            Self::sends(*old(self), *final(self), r, sequence.wire()),
    {
        let bytes = sequence.sequence();
        self.write_bytes(bytes.as_slice())
    }

    /// Clears the screen and moves the cursor to the first position of the first row.
    pub fn clear_screen(&mut self) -> (r: Result<(), Error>)
        ensures
            Self::sends(*old(self), *final(self), r, seq![0x0Cu8]),
    {
        self.write_byte(C0::FF.to_byte())
    }

    /// Sends an attribute code after its `ESC`.
    pub fn write_c1(&mut self, c1: C1) -> (r: Result<(), Error>)
        ensures
            Self::sends(*old(self), *final(self), r, seq![0x1Bu8, c1.byte()]),
    {
        self.send(c1)
    }

    /// Sends a glyph of the special set after its `SS2`.
    pub fn write_g2(&mut self, g2: G2) -> (r: Result<(), Error>)
        ensures
            Self::sends(*old(self), *final(self), r, seq![0x19u8, g2.byte()]),
    {
        self.send(g2)
    }

    /// Shows the cursor.
    pub fn show_cursor(&mut self) -> (r: Result<(), Error>)
        ensures
            Self::sends(*old(self), *final(self), r, seq![0x11u8]),
    {
        self.write_byte(C0::Con.to_byte())
    }

    /// Hides the cursor.
    pub fn hide_cursor(&mut self) -> (r: Result<(), Error>)
        ensures
            Self::sends(*old(self), *final(self), r, seq![0x14u8]),
    {
        self.write_byte(C0::Coff.to_byte())
    }

    /// Moves the cursor to a column and a row. Columns count from 0; row 0
    /// is the status row.
    pub fn set_pos(&mut self, x: u8, y: u8) -> (r: Result<(), Error>)
        requires
            SetPosition(x, y).wf(),
        ensures
            Self::sends(*old(self), *final(self), r, seq![0x1Fu8, (0x40 + y) as u8, (0x40 + x + 1) as u8]),
    {
        self.send(SetPosition(x, y))
    }

    /// Moves the cursor one row down.
    pub fn cursor_down(&mut self) -> (r: Result<(), Error>)
        ensures
            Self::sends(*old(self), *final(self), r, seq![0x0Au8]),
    {
        self.write_byte(C0::LF.to_byte())
    }

    /// Moves the cursor one row up.
    pub fn cursor_up(&mut self) -> (r: Result<(), Error>)
        ensures
            Self::sends(*old(self), *final(self), r, seq![0x0Bu8]),
    {
        self.write_byte(C0::VT.to_byte())
    }

    /// Moves the cursor one column to the right.
    pub fn cursor_right(&mut self) -> (r: Result<(), Error>)
        ensures
            Self::sends(*old(self), *final(self), r, seq![0x09u8]),
    {
        self.write_byte(C0::HT.to_byte())
    }

    /// Moves the cursor one column to the left.
    pub fn cursor_left(&mut self) -> (r: Result<(), Error>)
        ensures
            Self::sends(*old(self), *final(self), r, seq![0x08u8]),
    {
        self.write_byte(C0::BS.to_byte())
    }

    /// Sends the blank that separates two zones of a row.
    pub fn zone_delimiter(&mut self) -> (r: Result<(), Error>)
        ensures
            Self::sends(*old(self), *final(self), r, seq![0x20u8]),
    {
        self.write_byte(0x20)
    }

    /// Starts a zone: sends the attribute codes of the zone, then the
    /// blank that puts them in force.
    pub fn start_zone(&mut self, funcs: &[C1]) -> (r: Result<(), Error>)
        ensures
            Self::sends(*old(self), *final(self), r, codes_bytes(funcs@) + seq![0x20u8]),
    {
        let mut bytes: Vec<u8> = Vec::new();
        let mut i: usize = 0;
        while i < funcs.len()
            invariant
                i <= funcs.len(),
                bytes@ == codes_bytes(funcs@.take(i as int)),
            decreases funcs.len() - i,
        {
            proof {
                let done = funcs@.take(i + 1);
                assert(done.drop_last() == funcs@.take(i as int));
            }
            bytes.push(C0::ESC.to_byte());
            bytes.push(funcs[i].to_byte());
            i = i + 1;
        }
        proof {
            assert(funcs@.take(funcs@.len() as int) == funcs@);
        }
        bytes.push(0x20);
        assert(bytes@ =~= codes_bytes(funcs@) + seq![0x20u8]);
        self.write_bytes(bytes.as_slice())
    }

    /// Sends a character of the alphabetic mode: an accent before the
    /// glyph that it stands over.
    pub fn si_char(&mut self, c: SIChar) -> (r: Result<(), Error>)
        requires
            MinitelMessage::wf(c),
        ensures
            Self::sends(*old(self), *final(self), r, c.bytes()),
    {
        self.send(c)
    }

    /// Sends a character. A character without a representation is not
    /// sent, and fails with `Unmappable`.
    pub fn write_char(&mut self, c: char) -> (r: Result<(), Error>)
        ensures
            match SIChar::encoding(c) {
                Some(si) => Self::sends(*old(self), *final(self), r, si.bytes()),
                None => r matches Err(Error::Unmappable) && Self::idle(*old(self), *final(self)),
            },
    {
        match SIChar::encode(c) {
            Ok(si) => self.si_char(si),
            Err(_) => Err(Error::Unmappable),
        }
    }

    /// What sending a text leaves: the characters went out one by one, up
    /// to the end of the text, or to the first character without a
    /// representation, which fails with `Unmappable`, or to a character at
    /// which the channel failed.
    pub open spec fn sends_text(before: Self, after: Self, r: Result<(), Error>, text: Seq<char>) -> bool {
        exists|n: int| Self::sends_text_up_to(before, after, r, text, n)
    }

    /// What sending a text leaves where it came to an end after `n` characters.
    pub open spec fn sends_text_up_to(
        before: Self,
        after: Self,
        r: Result<(), Error>,
        text: Seq<char>,
        n: int,
    ) -> bool {
        &&& 0 <= n <= text.len()
        &&& forall|i: int| 0 <= i < n ==> SIChar::encoding(#[trigger] text[i]) is Some
        &&& Self::wrote(before, after, text_bytes(text.take(n)))
        &&& match r {
            Ok(_) => n == text.len(),
            Err(Error::Unmappable) => n < text.len() && SIChar::encoding(text[n]) is None,
            Err(Error::Io(_)) => n < text.len() && SIChar::encoding(text[n]) is Some,
            Err(_) => false,
        }
    }

    /// Sends the characters of a text, and stops at the first failure.
    pub fn write_chars(&mut self, text: &[char]) -> (r: Result<(), Error>)
        ensures
            Self::sends_text(*old(self), *final(self), r, text@),
    {
        let mut i: usize = 0;
        while i < text.len()
            invariant
                i <= text.len(),
                forall|j: int| 0 <= j < i ==> SIChar::encoding(#[trigger] text@[j]) is Some,
                Self::wrote(*old(self), *self, text_bytes(text@.take(i as int))),
            decreases text.len() - i,
        {
            proof {
                let done = text@.take(i + 1);
                assert(done.drop_last() == text@.take(i as int));
            }
            let r = self.write_char(text[i]);
            match r {
                Ok(()) => {
                    assert(self.sent() =~= old(self).sent() + text_bytes(text@.take(i + 1)));
                },
                Err(e) => {
                    assert(Self::sends_text_up_to(*old(self), *self, Err(e), text@, i as int));
                    return Err(e);
                },
            }
            i = i + 1;
        }
        proof {
            assert(Self::sends_text_up_to(*old(self), *self, Ok(()), text@, text@.len() as int));
        }
        Ok(())
    }

    /// Sends a text, and stops at the first failure.
    pub fn write_str(&mut self, s: &str) -> (r: Result<(), Error>)
        ensures
            Self::sends_text(*old(self), *final(self), r, s@),
    {
        let mut text: Vec<char> = Vec::new();
        for c in it: s.chars()
            invariant
                it.seq() == s@,
                text@ == s@.take(it.index()),
        {
            text.push(c);
        }
        assert(text@ =~= s@);
        self.write_chars(text.as_slice())
    }

    /// Sends a text, then a carriage return and a line feed as characters
    /// of the text, and stops at the first failure.
    pub fn writeln(&mut self, s: &str) -> (r: Result<(), Error>)
        ensures
            Self::sends_text(*old(self), *final(self), r, s@.push('\r').push('\n')),
    {
        let mut text: Vec<char> = Vec::new();
        for c in it: s.chars()
            invariant
                it.seq() == s@,
                text@ == s@.take(it.index()),
        {
            text.push(c);
        }
        assert(text@ =~= s@);
        text.push('\r');
        text.push('\n');
        self.write_chars(text.as_slice())
    }

    /// Sends a protocol message with one parameter.
    pub fn pro1(&mut self, x: Pro1) -> (r: Result<(), Error>)
        ensures
            Self::sends(*old(self), *final(self), r, ProtocolMessage::Pro1(x).bytes()),
    {
        self.send(ProtocolMessage::Pro1(x))
    }

    /// Sends a protocol message with two parameters.
    pub fn pro2(&mut self, x: Pro2, y: u8) -> (r: Result<(), Error>)
        ensures
            Self::sends(*old(self), *final(self), r, ProtocolMessage::Pro2(x, y).bytes()),
    {
        self.send(ProtocolMessage::Pro2(x, y))
    }

    /// Sends a protocol message with three parameters.
    pub fn pro3(&mut self, x: Pro3, y: u8, z: u8) -> (r: Result<(), Error>)
        ensures
            Self::sends(*old(self), *final(self), r, ProtocolMessage::Pro3(x, y, z).bytes()),
    {
        self.send(ProtocolMessage::Pro3(x, y, z))
    }
}

impl<S> Minitel<S> {
    /// The bytes that were received between two states.
    pub open spec fn taken(before: Self, after: Self) -> Seq<u8> {
        after.received().skip(before.received().len() as int)
    }

    /// Whether bytes were received between two states, and nothing else happened.
    pub open spec fn took(before: Self, after: Self) -> bool {
        &&& after.sent() == before.sent()
        &&& Self::same_line(before, after)
        &&& after.received() == before.received() + Self::taken(before, after)
    }

    /// Whether the given bytes were received between two states, and nothing else happened.
    pub open spec fn got(before: Self, after: Self, bytes: Seq<u8>) -> bool {
        &&& after.sent() == before.sent()
        &&& Self::same_line(before, after)
        &&& after.received() == before.received() + bytes
    }

    /// What waiting for an answer leaves. The bytes received are those of
    /// the scan: they end where it ends, and the result is its outcome; or
    /// the channel failed before the scan had ended.
    pub open spec fn answers(
        before: Self,
        after: Self,
        frame: Frame,
        r: Result<Seq<u8>, Error>,
    ) -> bool {
        &&& Self::took(before, after)
        &&& scanned(frame, Self::taken(before, after), r)
    }

    /// What a request and the wait for its answer leave: the channel
    /// failed on the request, and nothing happened; or the request went
    /// out, and the bytes received are those of the scan of the answer.
    pub open spec fn exchanges(
        before: Self,
        after: Self,
        request: Seq<u8>,
        frame: Frame,
        r: Result<Seq<u8>, Error>,
    ) -> bool {
        ||| r matches Err(Error::Io(_)) && Self::idle(before, after)
        ||| {
            &&& after.sent() == before.sent() + request
            &&& Self::same_line(before, after)
            &&& after.received() == before.received() + Self::taken(before, after)
            &&& scanned(frame, Self::taken(before, after), r)
        }
    }

    /// The payload of the answer that was received between two states.
    pub open spec fn payload(before: Self, after: Self, frame: Frame) -> Seq<u8> {
        Scan::of(frame, Self::taken(before, after)).payload
    }

    /// What reading a keystroke leaves. The bytes received are those of the
    /// keystroke: they end where it ends, and the result is the keystroke,
    /// or `UnknownCode` where it is invalid; or the channel failed before
    /// the keystroke had ended.
    pub open spec fn strikes(before: Self, after: Self, r: Result<UserInput, Error>) -> bool {
        let bytes = Self::taken(before, after);
        &&& Self::took(before, after)
        &&& match r {
            Err(Error::Io(_)) => !StrokeStep::of(bytes).is_final(),
            _ => StrokeStep::ends_with(bytes) && r == StrokeStep::of(bytes).outcome(),
        }
    }
}

impl<S: MinitelRead> Minitel<S> {
    /// Fills a buffer with the next bytes of the channel.
    pub fn read_bytes(&mut self, data: &mut [u8]) -> (r: Result<(), Error>)
        ensures
            match r {
                Ok(_) => Self::got(*old(self), *final(self), final(data)@),
                Err(e) => e is Io && Self::idle(*old(self), *final(self)),
            },
    {
        match self.port.read(data) {
            Ok(()) => {
                proof {
                    self.received@ = self.received@ + data@;
                }
                Ok(())
            },
            Err(e) => Err(Error::Io(e)),
        }
    }

    /// Reads the next byte of the channel.
    pub fn read_byte(&mut self) -> (r: Result<u8, Error>)
        ensures
            match r {
                Ok(b) => Self::got(*old(self), *final(self), seq![b]),
                Err(e) => e is Io && Self::idle(*old(self), *final(self)),
            },
    {
        let mut data = [0u8; 1];
        match self.port.read(&mut data) {
            Ok(()) => {
                let b = data[0];
                proof {
                    self.received@ = self.received@.push(b);
                    assert(self.received@ =~= old(self).received@ + seq![b]);
                }
                Ok(b)
            },
            Err(e) => Err(Error::Io(e)),
        }
    }

    /// Reads an answer of a given shape, and returns its payload.
    ///
    /// Up to ten bytes that are not the lead byte are passed over; without
    /// a lead byte among them the wait ends with `Timeout`. A byte of the
    /// body that is not the one that the shape fixes ends it with
    /// `ProtocolViolation`.
    pub fn read_answer(&mut self, frame: Frame) -> (r: Result<Vec<u8>, Error>)
        ensures
            match r {
                Ok(payload) => Self::answers(*old(self), *final(self), frame, Ok(payload@)),
                Err(e) => Self::answers(*old(self), *final(self), frame, Err(e)),
            },
    {
        let mut scanner = Scanner::new(frame);
        let ghost mut bytes: Seq<u8> = Seq::empty();
        while !scanner.progress.is_final()
            invariant
                scanner.frame == frame,
                scanner@.wf(frame),
                scanner@ == Scan::of(frame, bytes),
                Self::got(*old(self), *self, bytes),
                bytes.len() > 0 ==> !Scan::of(frame, bytes.drop_last()).progress.is_final(),
            decreases scanner@.room(frame),
        {
            match self.read_byte() {
                Ok(b) => {
                    scanner.feed(b);
                    proof {
                        assert(bytes.push(b).drop_last() =~= bytes);
                        bytes = bytes.push(b);
                        assert(self.received() =~= old(self).received() + bytes);
                    }
                },
                Err(e) => {
                    proof {
                        assert(Self::taken(*old(self), *self) =~= bytes);
                    }
                    return Err(e);
                },
            }
        }
        proof {
            assert(Self::taken(*old(self), *self) =~= bytes);
        }
        scanner.finish()
    }

    /// Passes bytes over until the awaited one comes, ten bytes at most.
    pub fn wait_for(&mut self, byte: u8) -> (r: Result<(), Error>)
        ensures
            match r {
                Ok(_) => Self::answers(*old(self), *final(self), Frame::Byte(byte), Ok(Seq::empty())),
                Err(e) => Self::answers(*old(self), *final(self), Frame::Byte(byte), Err(e)),
            },
    {
        match self.read_answer(Frame::Byte(byte)) {
            Ok(payload) => {
                proof {
                    Scan::lemma_payload_len(Frame::Byte(byte), Self::taken(*old(self), *self));
                    assert(payload@ =~= Seq::empty());
                }
                Ok(())
            },
            Err(e) => Err(e),
        }
    }

    /// Reads one byte, which has to be the expected one.
    pub fn expect_read(&mut self, byte: u8) -> (r: Result<(), Error>)
        ensures
            match r {
                Ok(_) => Self::got(*old(self), *final(self), seq![byte]),
                Err(Error::ProtocolViolation) => exists|got: u8|
                    got != byte && Self::got(*old(self), *final(self), seq![got]),
                Err(Error::Io(_)) => Self::idle(*old(self), *final(self)),
                Err(_) => false,
            },
    {
        let got = self.read_byte()?;
        expect_byte(got, byte)
    }

    /// Reads an acknowledgement with two parameters, and returns its second parameter.
    pub fn read_pro2(&mut self, expected_ack: Pro2Resp) -> (r: Result<u8, Error>)
        ensures
            match r {
                Ok(value) => Self::answers(*old(self), *final(self), Frame::Pro2(expected_ack), Ok(seq![value])),
                Err(e) => Self::answers(*old(self), *final(self), Frame::Pro2(expected_ack), Err(e)),
            },
    {
        let payload = self.read_answer(Frame::Pro2(expected_ack))?;
        proof {
            Scan::lemma_payload_len(Frame::Pro2(expected_ack), Self::taken(*old(self), *self));
        }
        let value = payload[0];
        assert(payload@ =~= seq![value]);
        Ok(value)
    }

    /// Reads an acknowledgement with three parameters, and returns its
    /// second and its third parameter.
    pub fn read_pro3(&mut self, expected_ack: Pro3Resp) -> (r: Result<(u8, u8), Error>)
        ensures
            match r {
                Ok(values) => Self::answers(
                    *old(self),
                    *final(self),
                    Frame::Pro3(expected_ack),
                    Ok(seq![values.0, values.1]),
                ),
                Err(e) => Self::answers(*old(self), *final(self), Frame::Pro3(expected_ack), Err(e)),
            },
    {
        let payload = self.read_answer(Frame::Pro3(expected_ack))?;
        proof {
            Scan::lemma_payload_len(Frame::Pro3(expected_ack), Self::taken(*old(self), *self));
        }
        let values = (payload[0], payload[1]);
        assert(payload@ =~= seq![values.0, values.1]);
        Ok(values)
    }

    /// Waits for a speed answer on a channel whose reads may fail.
    ///
    /// Ten attempts are made to find the header of the answer; a read that
    /// fails ends an attempt like a byte that does not fit. Without a
    /// header the probe fails with `Exhausted`. A status byte that names no
    /// rate fails with `UnknownBaudrate`, and a failure of the channel at
    /// the status byte is handed on.
    pub fn get_speed_blocking(&mut self) -> (r: Result<Baudrate, Error>)
        ensures
            Self::took(*old(self), *final(self)),
            exists|reads: Seq<Option<u8>>|
                {
                    &&& #[trigger] SpeedProbe::ends_with(reads)
                    &&& successes(reads) == Self::taken(*old(self), *final(self))
                    &&& match SpeedProbe::of(reads) {
                        SpeedProbe::Found(rate) => r == Ok::<Baudrate, Error>(rate),
                        SpeedProbe::Unknown => r matches Err(Error::UnknownBaudrate),
                        SpeedProbe::Broken => r matches Err(Error::Io(_)),
                        _ => r matches Err(Error::Exhausted),
                    }
                },
    {
        let mut probe = SpeedProbe::start();
        let ghost mut reads: Seq<Option<u8>> = Seq::empty();
        while !probe.is_final()
            invariant
                probe.wf(),
                probe == SpeedProbe::of(reads),
                !(probe is Broken),
                Self::got(*old(self), *self, successes(reads)),
                reads.len() > 0 ==> !SpeedProbe::of(reads.drop_last()).is_final(),
            decreases probe.room(),
        {
            let ghost before = reads;
            match self.read_byte() {
                Ok(byte) => {
                    probe = probe.feed(Some(byte));
                    proof {
                        reads = reads.push(Some(byte));
                        assert(reads.drop_last() =~= before);
                        assert(self.received() =~= old(self).received() + successes(reads));
                    }
                },
                Err(e) => {
                    probe = probe.feed(None);
                    proof {
                        reads = reads.push(None);
                        assert(reads.drop_last() =~= before);
                    }
                    if let SpeedProbe::Broken = probe {
                        proof {
                            assert(Self::taken(*old(self), *self) =~= successes(reads));
                            assert(SpeedProbe::ends_with(reads));
                        }
                        return Err(e);
                    }
                },
            }
        }
        proof {
            assert(Self::taken(*old(self), *self) =~= successes(reads));
            assert(reads.len() > 0);
            assert(SpeedProbe::ends_with(reads));
        }
        probe.finish()
    }

    /// Reads a keystroke of the alphabetic mode.
    ///
    /// Glyphs of the alphabetic and of the special set come back as the
    /// characters that they show, an accent and its base letter as the
    /// character that they compose to.
    pub fn read_s0_stroke(&mut self) -> (r: Result<UserInput, Error>)
        ensures
            Self::strikes(*old(self), *final(self), r),
    {
        let mut state = StrokeState::Start;
        let ghost mut bytes: Seq<u8> = Seq::empty();
        loop
            invariant
                StrokeStep::of(bytes) == StrokeStep::Pending(state),
                Self::got(*old(self), *self, bytes),
            decreases StrokeStep::Pending(state).room(),
        {
            match self.read_byte() {
                Ok(b) => {
                    let step = StrokeStep::feed(state, b);
                    proof {
                        assert(bytes.push(b).drop_last() =~= bytes);
                        bytes = bytes.push(b);
                        assert(self.received() =~= old(self).received() + bytes);
                        assert(Self::taken(*old(self), *self) =~= bytes);
                    }
                    match step {
                        StrokeStep::Pending(next) => {
                            state = next;
                        },
                        ended => {
                            return ended.finish();
                        },
                    }
                },
                Err(e) => {
                    proof {
                        assert(Self::taken(*old(self), *self) =~= bytes);
                    }
                    return Err(e);
                },
            }
        }
    }
}

impl<S: MinitelRead + MinitelWrite> Minitel<S> {
    /// Sends a request and reads the answer of a given shape.
    pub fn exchange(&mut self, request: &[u8], frame: Frame) -> (r: Result<Vec<u8>, Error>)
        ensures
            match r {
                Ok(payload) => Self::exchanges(*old(self), *final(self), request@, frame, Ok(payload@)),
                Err(e) => Self::exchanges(*old(self), *final(self), request@, frame, Err(e)),
            },
            r matches Ok(payload) ==> payload@.len() == frame.payload_len() && payload@
                == Self::payload(*old(self), *final(self), frame),
    {
        self.write_bytes(request)?;
        let r = self.read_answer(frame);
        proof {
            Scan::lemma_payload_len(frame, Self::taken(*old(self), *self));
        }
        r
    }

    /// Asks the terminal for its identification bytes.
    pub fn read_rom(&mut self) -> (r: Result<Rom, Error>)
        ensures
            match r {
                Ok(rom) => Self::exchanges(
                    *old(self),
                    *final(self),
                    ProtocolMessage::Pro1(Pro1::EnqRom).bytes(),
                    Frame::Rom,
                    Ok(seq![rom.manufacturer, rom.model, rom.version]),
                ),
                Err(e) => Self::exchanges(
                    *old(self),
                    *final(self),
                    ProtocolMessage::Pro1(Pro1::EnqRom).bytes(),
                    Frame::Rom,
                    Err(e),
                ),
            },
    {
        let request = ProtocolMessage::Pro1(Pro1::EnqRom).message();
        let payload = self.exchange(request.as_slice(), Frame::Rom)?;
        let rom = Rom { manufacturer: payload[0], model: payload[1], version: payload[2] };
        assert(payload@ =~= seq![rom.manufacturer, rom.model, rom.version]);
        Ok(rom)
    }

    /// What a question for the cursor leaves: the request for the position
    /// went out, and the answer names the column and the row; or the
    /// exchange failed; or the bytes of the answer lie below `0x41`, which
    /// fails with `ProtocolViolation`.
    pub open spec fn asks_position(before: Self, after: Self, r: Result<(u8, u8), Error>) -> bool {
        let answer = Self::payload(before, after, Frame::Position);
        let whole = Self::exchanges(before, after, C1::EnqCursor.bytes(), Frame::Position, Ok(answer));
        match r {
            Ok(position) => whole && answer.len() == 2 && position_of(answer[0], answer[1]) == Ok::<
                (u8, u8),
                Error,
            >(position),
            Err(e) => {
                ||| Self::exchanges(before, after, C1::EnqCursor.bytes(), Frame::Position, Err(e))
                ||| whole && answer.len() == 2 && position_of(answer[0], answer[1]) is Err
                    && e is ProtocolViolation
            },
        }
    }

    /// Asks the terminal where its cursor is, and returns the column and the row.
    ///
    /// An answer whose bytes lie below `0x41` fails with `ProtocolViolation`.
    pub fn get_pos(&mut self) -> (r: Result<(u8, u8), Error>)
        ensures
            Self::asks_position(*old(self), *final(self), r),
    {
        let request = C1::EnqCursor.message();
        let payload = self.exchange(request.as_slice(), Frame::Position)?;
        position_from_answer(payload[0], payload[1])
    }

    /// Switches a function mode of the terminal on or off, and waits for
    /// the status that acknowledges it.
    pub fn set_function_mode(&mut self, mode: FunctionMode, enable: bool) -> (r: Result<(), Error>)
        ensures
            ({
                let request = ProtocolMessage::Pro2(
                    if enable { Pro2::Start } else { Pro2::Stop },
                    mode.byte(),
                ).bytes();
                let frame = Frame::Pro2(Pro2Resp::RepStatus);
                match r {
                    Ok(_) => Self::exchanges(
                        *old(self),
                        *final(self),
                        request,
                        frame,
                        Ok(Self::payload(*old(self), *final(self), frame)),
                    ),
                    Err(e) => Self::exchanges(*old(self), *final(self), request, frame, Err(e)),
                }
            }),
    {
        let request = ProtocolMessage::function_mode(mode, enable).message();
        let _status = self.exchange(request.as_slice(), Frame::Pro2(Pro2Resp::RepStatus))?;
        Ok(())
    }

    /// Switches the routing from a module that emits to a module that
    /// receives on or off, and waits for the status that acknowledges it.
    pub fn set_routing(&mut self, enable: bool, recepter: RoutingRx, emitter: RoutingTx) -> (r: Result<
        (),
        Error,
    >)
        ensures
            ({
                let request = ProtocolMessage::routing(enable, emitter, recepter).bytes();
                let frame = Frame::Pro3(Pro3Resp::RoutingFrom);
                match r {
                    Ok(_) => Self::exchanges(
                        *old(self),
                        *final(self),
                        request,
                        frame,
                        Ok(Self::payload(*old(self), *final(self), frame)),
                    ),
                    Err(e) => Self::exchanges(*old(self), *final(self), request, frame, Err(e)),
                }
            }),
    {
        let request = ProtocolMessage::aiguillage(enable, emitter, recepter).message();
        let _status = self.exchange(request.as_slice(), Frame::Pro3(Pro3Resp::RoutingFrom))?;
        Ok(())
    }

    /// Asks the terminal for its line rate.
    ///
    /// An answer whose status byte names no rate fails with `UnknownBaudrate`.
    pub fn get_speed(&mut self) -> (r: Result<Baudrate, Error>)
        ensures
            ({
                let request = ProtocolMessage::Pro1(Pro1::EnqSpeed).bytes();
                let frame = Frame::Pro2(Pro2Resp::QuerySpeedAnswer);
                let answer = Self::payload(*old(self), *final(self), frame);
                let whole = Self::exchanges(*old(self), *final(self), request, frame, Ok(answer));
                match r {
                    Ok(rate) => whole && answer == seq![rate.code()],
                    Err(e) => {
                        ||| Self::exchanges(*old(self), *final(self), request, frame, Err(e))
                        ||| whole && answer.len() == 1 && Baudrate::of_code(answer[0]) is Err
                            && e is UnknownBaudrate
                    },
                }
            }),
    {
        let request = ProtocolMessage::Pro1(Pro1::EnqSpeed).message();
        let payload = self.exchange(request.as_slice(), Frame::Pro2(Pro2Resp::QuerySpeedAnswer))?;
        let r = speed_from_answer(payload[0]);
        proof {
            if r is Ok {
                crate::protocol::lemma_baudrate_code_round_trip(r->Ok_0, payload[0]);
            }
        }
        r
    }

    /// Switches screen scrolling on or off.
    pub fn set_rouleau(&mut self, enable: bool) -> (r: Result<(), Error>)
        ensures
            ({
                let request = ProtocolMessage::Pro2(
                    if enable { Pro2::Start } else { Pro2::Stop },
                    FunctionMode::Rouleau.byte(),
                ).bytes();
                let frame = Frame::Pro2(Pro2Resp::RepStatus);
                match r {
                    Ok(_) => Self::exchanges(
                        *old(self),
                        *final(self),
                        request,
                        frame,
                        Ok(Self::payload(*old(self), *final(self), frame)),
                    ),
                    Err(e) => Self::exchanges(*old(self), *final(self), request, frame, Err(e)),
                }
            }),
    {
        self.set_function_mode(FunctionMode::Rouleau, enable)
    }

    /// Switches the error correcting procedure on or off.
    pub fn set_procedure(&mut self, enable: bool) -> (r: Result<(), Error>)
        ensures
            ({
                let request = ProtocolMessage::Pro2(
                    if enable { Pro2::Start } else { Pro2::Stop },
                    FunctionMode::Procedure.byte(),
                ).bytes();
                let frame = Frame::Pro2(Pro2Resp::RepStatus);
                match r {
                    Ok(_) => Self::exchanges(
                        *old(self),
                        *final(self),
                        request,
                        frame,
                        Ok(Self::payload(*old(self), *final(self), frame)),
                    ),
                    Err(e) => Self::exchanges(*old(self), *final(self), request, frame, Err(e)),
                }
            }),
    {
        self.set_function_mode(FunctionMode::Procedure, enable)
    }

    /// Switches the lowercase keyboard on or off.
    pub fn set_minuscule(&mut self, enable: bool) -> (r: Result<(), Error>)
        ensures
            ({
                let request = ProtocolMessage::Pro2(
                    if enable { Pro2::Start } else { Pro2::Stop },
                    FunctionMode::Minuscule.byte(),
                ).bytes();
                let frame = Frame::Pro2(Pro2Resp::RepStatus);
                match r {
                    Ok(_) => Self::exchanges(
                        *old(self),
                        *final(self),
                        request,
                        frame,
                        Ok(Self::payload(*old(self), *final(self), frame)),
                    ),
                    Err(e) => Self::exchanges(*old(self), *final(self), request, frame, Err(e)),
                }
            }),
    {
        self.set_function_mode(FunctionMode::Minuscule, enable)
    }
}

impl<S: MinitelBaudrateControl> Minitel<S> {
    /// Changes the line rate of the channel.
    pub fn set_baudrate(&mut self, baudrate: Baudrate) -> (r: Result<(), Error>)
        ensures
            final(self).sent() == old(self).sent(),
            final(self).received() == old(self).received(),
            final(self).probes() == old(self).probes(),
            final(self).flushes() == old(self).flushes(),
            match r {
                Ok(_) => final(self).rates() == old(self).rates().push(baudrate),
                Err(e) => e is Io && final(self).rates() == old(self).rates(),
            },
    {
        match self.port.set_baudrate(baudrate) {
            Ok(()) => {
                proof {
                    self.rates@ = self.rates@.push(baudrate);
                }
                Ok(())
            },
            Err(e) => Err(Error::Io(e)),
        }
    }
}

impl<S: MinitelRead + MinitelWrite + MinitelBaudrateControl> Minitel<S> {
    /// Whether a speed answer that names a rate came between two states:
    /// the request for the rate went out, and the bytes received are a
    /// complete speed answer whose status byte names a rate.
    pub open spec fn speed_answered(before: Self, after: Self) -> bool {
        let frame = Frame::Pro2(Pro2Resp::QuerySpeedAnswer);
        let bytes = Self::taken(before, after);
        &&& after.sent() == before.sent() + ProtocolMessage::Pro1(Pro1::EnqSpeed).bytes()
        &&& Scan::ends_with(frame, bytes)
        &&& Scan::of(frame, bytes).progress is Done
        &&& Scan::of(frame, bytes).payload.len() == 1
        &&& Baudrate::of_code(Scan::of(frame, bytes).payload[0]) is Ok
    }

    /// Probes a candidate for the line rate: flushes the channel, applies
    /// the candidate, and asks the terminal for its rate. Returns whether a
    /// speed answer came that names a rate.
    ///
    /// A failure of the flush or of the change of rate fails the probe;
    /// whatever happens after them is its outcome.
    pub fn probe_speed(&mut self, candidate: Baudrate) -> (r: Result<bool, Error>)
        ensures
            match r {
                Ok(answered) => {
                    &&& final(self).flushes() == old(self).flushes() + 1
                    &&& final(self).rates() == old(self).rates().push(candidate)
                    &&& final(self).probes() == old(self).probes().push((candidate, answered))
                    &&& final(self).received() == old(self).received() + Self::taken(
                        *old(self),
                        *final(self),
                    )
                    &&& answered == Self::speed_answered(*old(self), *final(self))
                    &&& !answered ==> final(self).sent() == old(self).sent() || final(self).sent()
                        == old(self).sent() + ProtocolMessage::Pro1(Pro1::EnqSpeed).bytes()
                },
                Err(e) => e is Io && (Self::idle(*old(self), *final(self)) || Self::flushed(
                    *old(self),
                    *final(self),
                )),
            },
    {
        self.flush()?;
        self.set_baudrate(candidate)?;
        let answered = self.get_speed().is_ok();
        proof {
            Scan::lemma_payload_len(Frame::Pro2(Pro2Resp::QuerySpeedAnswer), Self::taken(*old(self), *self));
            self.probes@ = self.probes@.push((candidate, answered));
        }
        Ok(answered)
    }

    /// The probes that were made between two states.
    pub open spec fn probed(before: Self, after: Self) -> Seq<(Baudrate, bool)> {
        after.probes().skip(before.probes().len() as int)
    }

    /// What a search for the line rate leaves: the candidates were probed
    /// in their order, each under its own rate and after a flush, and none
    /// after one that was answered. A probe that failed with the channel
    /// may have flushed it, and is not counted.
    pub open spec fn searched(before: Self, after: Self) -> bool {
        let probes = Self::probed(before, after);
        &&& after.probes() == before.probes() + probes
        &&& probes.len() <= Baudrate::spec_speeds().len()
        &&& after.rates() == before.rates() + Baudrate::spec_speeds().take(probes.len() as int)
        &&& after.flushes() == before.flushes() + probes.len() || after.flushes() == before.flushes()
            + probes.len() + 1
        &&& forall|i: int| 0 <= i < probes.len() ==> (#[trigger] probes[i]).0 == Baudrate::spec_speeds()[i]
        &&& forall|i: int| 0 <= i < probes.len() - 1 ==> !(#[trigger] probes[i]).1
    }

    /// Finds the line rate of the terminal.
    ///
    /// The candidates are probed in their order. The first candidate under
    /// which a speed answer comes that names a rate is the line rate, and
    /// ends the search. A failure of a flush or of a change of rate ends
    /// the search too; a search in which no candidate gets an answer fails
    /// with `Exhausted`.
    pub fn search_speed(&mut self) -> (r: Result<Baudrate, Error>)
        ensures
            Self::searched(*old(self), *final(self)),
            ({
                let probes = Self::probed(*old(self), *final(self));
                let flushes = final(self).flushes() - old(self).flushes();
                match r {
                    Ok(rate) => probes.len() > 0 && probes.last() == (rate, true) && flushes
                        == probes.len(),
                    Err(Error::Exhausted) => probes.len() == Baudrate::spec_speeds().len()
                        && !probes.last().1 && flushes == probes.len(),
                    Err(Error::Io(_)) => probes.len() < Baudrate::spec_speeds().len() && (probes.len()
                        > 0 ==> !probes.last().1),
                    Err(_) => false,
                }
            }),
    {
        let mut state = Negotiation::start();
        let ghost mut probes: Seq<(Baudrate, bool)> = Seq::empty();
        loop
            invariant
                state.wf(),
                self.probes() == old(self).probes() + probes,
                probes.len() <= Baudrate::spec_speeds().len(),
                self.rates() == old(self).rates() + Baudrate::spec_speeds().take(probes.len() as int),
                self.flushes() == old(self).flushes() + probes.len(),
                forall|i: int|
                    0 <= i < probes.len() ==> (#[trigger] probes[i]).0 == Baudrate::spec_speeds()[i],
                forall|i: int| 0 <= i < probes.len() - 1 ==> !(#[trigger] probes[i]).1,
                state matches Negotiation::Probing(tried) ==> tried == probes.len() && (probes.len() > 0
                    ==> !probes.last().1),
                state matches Negotiation::Found(rate) ==> probes.len() > 0 && probes.last() == (
                    rate,
                    true,
                ),
                state is Exhausted ==> probes.len() == Baudrate::spec_speeds().len()
                    && !probes.last().1,
            ensures
                state.candidate() is None,
            decreases
                    Baudrate::spec_speeds().len() - probes.len() + (if state is Probing {
                        1int
                    } else {
                        0
                    }),
        {
            match state.candidate() {
                None => {
                    break ;
                },
                Some(rate) => {
                    let ghost n = probes.len() as int;
                    match self.probe_speed(rate) {
                        Ok(answered) => {
                            proof {
                                probes = probes.push((rate, answered));
                                assert(Baudrate::spec_speeds().take(n + 1) =~= Baudrate::spec_speeds().take(
                                    n,
                                ).push(rate));
                                assert(self.rates() =~= old(self).rates() + Baudrate::spec_speeds().take(
                                    n + 1,
                                ));
                            }
                            state = state.advance(answered);
                        },
                        Err(e) => {
                            proof {
                                assert(Self::probed(*old(self), *self) =~= probes);
                            }
                            return Err(e);
                        },
                    }
                },
            }
        }
        proof {
            assert(Self::probed(*old(self), *self) =~= probes);
        }
        match state {
            Negotiation::Found(rate) => Ok(rate),
            _ => Err(Error::Exhausted),
        }
    }

    /// What a change of the line rate leaves where the request went out:
    /// the channel failed at the flush or at the change of its rate; or the
    /// channel was flushed, the rate was applied, and the bytes received
    /// are those of the scan of the answer.
    pub open spec fn switched(
        before: Self,
        after: Self,
        baudrate: Baudrate,
        r: Result<Seq<u8>, Error>,
    ) -> bool {
        &&& after.sent() == before.sent() + ProtocolMessage::Pro2(Pro2::Prog, baudrate.code()).bytes()
        &&& after.received() == before.received() + Self::taken(before, after)
        &&& after.probes() == before.probes()
        &&& {
            ||| {
                &&& r matches Err(Error::Io(_))
                &&& after.rates() == before.rates()
                &&& after.received() == before.received()
                &&& after.flushes() == before.flushes() || after.flushes() == before.flushes() + 1
            }
            ||| {
                &&& after.flushes() == before.flushes() + 1
                &&& after.rates() == before.rates().push(baudrate)
                &&& scanned(Frame::Pro2(Pro2Resp::QuerySpeedAnswer), Self::taken(before, after), r)
            }
        }
    }

    /// Changes the line rate of the terminal and of the channel.
    ///
    /// The terminal is told the rate, the channel is flushed and switched,
    /// and the terminal then confirms with a speed answer. An answer that
    /// names another rate than the one asked for fails with
    /// `ProtocolViolation`, one that names none with `UnknownBaudrate`.
    pub fn set_speed(&mut self, baudrate: Baudrate) -> (r: Result<Baudrate, Error>)
        ensures
            ({
                let answer = Self::payload(
                    *old(self),
                    *final(self),
                    Frame::Pro2(Pro2Resp::QuerySpeedAnswer),
                );
                ||| r matches Err(Error::Io(_)) && Self::idle(*old(self), *final(self))
                ||| r matches Err(e) && Self::switched(*old(self), *final(self), baudrate, Err(e))
                ||| {
                    &&& Self::switched(*old(self), *final(self), baudrate, Ok(answer))
                    &&& answer.len() == 1
                    &&& r == confirmed(baudrate, answer[0])
                }
            }),
    {
        self.pro2(Pro2::Prog, baudrate.code())?;
        if let Err(e) = self.flush() {
            return Err(e);
        }
        if let Err(e) = self.set_baudrate(baudrate) {
            return Err(e);
        }
        let answer = self.read_pro2(Pro2Resp::QuerySpeedAnswer);
        proof {
            Scan::lemma_payload_len(Frame::Pro2(Pro2Resp::QuerySpeedAnswer), Self::taken(*old(self), *self));
        }
        let code = answer?;
        confirm_speed(baudrate, code)
    }
}

} // verus!
