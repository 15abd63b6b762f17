//! Finding the line rate of a terminal by trying the candidates in turn.
//!
//! A probe applies a candidate rate to the channel and asks the terminal
//! for its rate. The terminal answers in a readable way only where the
//! candidate is its rate. The negotiation decides what to try next; the
//! session makes the probes.

use vstd::prelude::*;
use crate::error::Error;
use crate::protocol::{Baudrate, Pro2Resp, Protocol};
use crate::videotex::C0;

verus! {

/// The state of a negotiation.
#[derive(Debug, Clone, Copy, PartialEq, Eq, Structural)]
pub enum Negotiation {
    /// Candidates are left, with the number of those that got no answer.
    Probing(usize),
    /// A candidate got an answer, and is the rate of the line.
    Found(Baudrate),
    /// No candidate got an answer.
    Exhausted,
}

impl Negotiation {
    /// Whether the state can occur: a negotiation that is still probing has a candidate left.
    pub open spec fn wf(self) -> bool {
        self matches Negotiation::Probing(tried) ==> tried < Baudrate::spec_speeds().len()
    }

    /// The rate to probe next, if the negotiation goes on.
    pub open spec fn spec_candidate(self) -> Option<Baudrate> {
        match self {
            Negotiation::Probing(tried) => if tried < Baudrate::spec_speeds().len() {
                Some(Baudrate::spec_speeds()[tried as int])
            } else {
                None
            },
            _ => None,
        }
    }

    /// The state after a probe of the candidate: found where the terminal
    /// answered, on to the next candidate where it did not, exhausted after
    /// the last one. A negotiation that has ended stays as it is.
    pub open spec fn spec_advance(self, answered: bool) -> Negotiation {
        match self {
            Negotiation::Probing(tried) => if tried >= Baudrate::spec_speeds().len() {
                Negotiation::Exhausted
            } else if answered {
                Negotiation::Found(Baudrate::spec_speeds()[tried as int])
            } else if tried + 1 < Baudrate::spec_speeds().len() {
                Negotiation::Probing((tried + 1) as usize)
            } else {
                Negotiation::Exhausted
            },
            ended => ended,
        }
    }

    /// The state after a sequence of probes, given for each whether the terminal answered.
    pub open spec fn after(self, answers: Seq<bool>) -> Negotiation
        decreases answers.len(),
    {
        if answers.len() == 0 {
            self
        } else {
            self.after(answers.drop_last()).spec_advance(answers.last())
        }
    }

    /// A negotiation before its first probe.
    pub fn start() -> (n: Negotiation)
        ensures
            n == Negotiation::Probing(0),
            n.wf(),
    {
        Negotiation::Probing(0)
    }

    /// The rate to probe next, if the negotiation goes on.
    #[verifier::when_used_as_spec(spec_candidate)]
    pub fn candidate(self) -> (c: Option<Baudrate>)
        ensures
            c == self.spec_candidate(),
    {
        match self {
            Negotiation::Probing(tried) => {
                let speeds = Baudrate::speeds();
                if tried < speeds.len() {
                    Some(speeds[tried])
                } else {
                    None
                }
            },
            _ => None,
        }
    }

    /// Takes the outcome of a probe of the candidate.
    #[verifier::when_used_as_spec(spec_advance)]
    pub fn advance(self, answered: bool) -> (n: Negotiation)
        ensures
            n == self.spec_advance(answered),
            n.wf(),
    {
        match self {
            Negotiation::Probing(tried) => {
                let speeds = Baudrate::speeds();
                if tried >= speeds.len() {
                    Negotiation::Exhausted
                } else if answered {
                    Negotiation::Found(speeds[tried])
                } else if tried + 1 < speeds.len() {
                    Negotiation::Probing(tried + 1)
                } else {
                    Negotiation::Exhausted
                }
            },
            ended => ended,
        }
    }
}

/// The sequence of `n` probes without an answer.
pub open spec fn silence(n: nat) -> Seq<bool> {
    Seq::new(n, |i: int| false)
}

/// While the terminal stays silent, the candidates are probed in their order.
pub proof fn lemma_silence_moves_on(n: nat)
    requires
        n < Baudrate::spec_speeds().len(),
    ensures
        Negotiation::Probing(0).after(silence(n)) == Negotiation::Probing(n as usize),
        Negotiation::Probing(0).after(silence(n)).candidate() == Some(Baudrate::spec_speeds()[n as int]),
    decreases n,
{
    if n > 0 {
        lemma_silence_moves_on((n - 1) as nat);
        assert(silence(n).drop_last() =~= silence((n - 1) as nat));
    }
}

/// The first candidate that gets an answer is adopted, and nothing is
/// probed after it: after `n` probes without an answer and one with an
/// answer, the rate found is the candidate of that probe, no candidate is
/// left, and further outcomes change nothing.
pub proof fn lemma_first_answer_is_adopted(n: nat, later: bool)
    requires
        n < Baudrate::spec_speeds().len(),
    ensures
        ({
            let found = Negotiation::Probing(0).after(silence(n).push(true));
            &&& found == Negotiation::Found(Baudrate::spec_speeds()[n as int])
            &&& found.candidate() is None
            &&& found.advance(later) == found
        }),
{
    lemma_silence_moves_on(n);
    assert(silence(n).push(true).drop_last() =~= silence(n));
}

/// Where no candidate gets an answer, the negotiation is exhausted after
/// the last one, and nothing is probed after it.
pub proof fn lemma_silence_exhausts()
    ensures
        ({
            let end = Negotiation::Probing(0).after(silence(Baudrate::spec_speeds().len()));
            &&& end == Negotiation::Exhausted
            &&& end.candidate() is None
        }),
{
    let n = Baudrate::spec_speeds().len();
    lemma_silence_moves_on((n - 1) as nat);
    assert(silence(n).drop_last() =~= silence((n - 1) as nat));
}

/// The bytes of the reads of a sequence that did not fail, in order.
pub open spec fn successes(reads: Seq<Option<u8>>) -> Seq<u8>
    decreases reads.len(),
{
    if reads.len() == 0 {
        Seq::empty()
    } else {
        match reads.last() {
            Some(byte) => successes(reads.drop_last()).push(byte),
            None => successes(reads.drop_last()),
        }
    }
}

/// How many times a probe starts over before it gives up.
pub const PROBE_ATTEMPTS: u8 = 10;

/// A probe for a speed answer on a channel whose reads may fail.
///
/// The probe looks for `ESC`, the selector of two parameters and the
/// acknowledgement of a speed request, one after the other. A read that
/// fails, or a byte that is not the next of the three, ends an attempt, and
/// the next attempt starts with the read after it. After the three bytes
/// comes the status byte.
#[derive(Debug, Clone, Copy, PartialEq, Eq, Structural)]
pub enum SpeedProbe {
    /// Looking for the header, with the number of attempts that came to
    /// nothing and the number of bytes of the header found in this one.
    Header(u8, u8),
    /// The header is complete, the status byte comes next.
    Status,
    /// The status byte names a rate.
    Found(Baudrate),
    /// The status byte names no rate.
    Unknown,
    /// The read of the status byte failed.
    Broken,
    /// No attempt found the header.
    Silent,
}

impl SpeedProbe {
    /// The byte of the header at an index.
    pub open spec fn header(index: int) -> u8 {
        if index == 0 {
            C0::ESC.byte()
        } else if index == 1 {
            Protocol::Pro2.byte()
        } else {
            Pro2Resp::QuerySpeedAnswer.byte()
        }
    }

    /// Whether the state can occur.
    pub open spec fn wf(self) -> bool {
        self matches SpeedProbe::Header(attempts, found) ==> attempts < PROBE_ATTEMPTS && found < 3
    }

    /// Whether the probe has ended, one way or another.
    pub open spec fn spec_is_final(self) -> bool {
        !(self is Header) && !(self is Status)
    }

    /// The state after one more read, given as the byte read, or `None`
    /// where the read failed. A probe that has ended stays as it is.
    pub open spec fn fed(self, read: Option<u8>) -> SpeedProbe {
        match self {
            SpeedProbe::Header(attempts, found) => if read == Some(Self::header(found as int)) {
                if found >= 2 {
                    SpeedProbe::Status
                } else {
                    SpeedProbe::Header(attempts, (found + 1) as u8)
                }
            } else if attempts + 1 >= PROBE_ATTEMPTS {
                SpeedProbe::Silent
            } else {
                SpeedProbe::Header((attempts + 1) as u8, 0)
            },
            SpeedProbe::Status => match read {
                Some(code) => match Baudrate::of_code(code) {
                    Ok(rate) => SpeedProbe::Found(rate),
                    Err(_) => SpeedProbe::Unknown,
                },
                None => SpeedProbe::Broken,
            },
            ended => ended,
        }
    }

    /// The state after a sequence of reads, from the start.
    pub open spec fn of(reads: Seq<Option<u8>>) -> SpeedProbe
        decreases reads.len(),
    {
        if reads.len() == 0 {
            SpeedProbe::Header(0, 0)
        } else {
            Self::of(reads.drop_last()).fed(reads.last())
        }
    }

    /// Whether a sequence of reads ends where its probe does.
    pub open spec fn ends_with(reads: Seq<Option<u8>>) -> bool {
        &&& reads.len() > 0
        &&& !Self::of(reads.drop_last()).spec_is_final()
        &&& Self::of(reads).spec_is_final()
    }

    /// A probe before its first read.
    pub fn start() -> (probe: SpeedProbe)
        ensures
            probe == SpeedProbe::Header(0, 0),
            probe.wf(),
    {
        SpeedProbe::Header(0, 0)
    }

    /// Whether the probe has ended, one way or another.
    #[verifier::when_used_as_spec(spec_is_final)]
    pub fn is_final(self) -> (b: bool)
        ensures
            b == self.spec_is_final(),
    {
        match self {
            SpeedProbe::Header(_, _) | SpeedProbe::Status => false,
            _ => true,
        }
    }

    /// The outcome of a probe that came to an end by itself: the rate
    /// found, `UnknownBaudrate` where the status byte names none, and
    /// `Exhausted` where no attempt found the header.
    pub open spec fn outcome(self) -> Result<Baudrate, Error> {
        match self {
            SpeedProbe::Found(rate) => Ok(rate),
            SpeedProbe::Unknown => Err(Error::UnknownBaudrate),
            _ => Err(Error::Exhausted),
        }
    }

    /// The outcome of a probe that came to an end by itself. Where the read
    /// of the status byte failed, the failure of the channel is the outcome.
    pub fn finish(self) -> (r: Result<Baudrate, Error>)
        requires
            self.is_final(),
            !(self is Broken),
        ensures
            r == self.outcome(),
    {
        match self {
            SpeedProbe::Found(rate) => Ok(rate),
            SpeedProbe::Unknown => Err(Error::UnknownBaudrate),
            _ => Err(Error::Exhausted),
        }
    }

    /// Takes the outcome of the next read.
    pub fn feed(self, read: Option<u8>) -> (probe: SpeedProbe)
        requires
            self.wf(),
        ensures
            probe == self.fed(read),
            probe.wf(),
    {
        match self {
            SpeedProbe::Header(attempts, found) => {
                let expected = if found == 0 {
                    C0::ESC.to_byte()
                } else if found == 1 {
                    Protocol::Pro2.to_byte()
                } else {
                    Pro2Resp::QuerySpeedAnswer.to_byte()
                };
                let hit = match read {
                    Some(byte) => byte == expected,
                    None => false,
                };
                if hit {
                    if found >= 2 {
                        SpeedProbe::Status
                    } else {
                        SpeedProbe::Header(attempts, found + 1)
                    }
                } else if attempts + 1 >= PROBE_ATTEMPTS {
                    SpeedProbe::Silent
                } else {
                    SpeedProbe::Header(attempts + 1, 0)
                }
            },
            SpeedProbe::Status => match read {
                Some(code) => match Baudrate::try_from(code) {
                    Ok(rate) => SpeedProbe::Found(rate),
                    Err(_) => SpeedProbe::Unknown,
                },
                None => SpeedProbe::Broken,
            },
            ended => ended,
        }
    }

    /// How many more reads a probe can take at most.
    pub open spec fn room(self) -> int {
        match self {
            SpeedProbe::Header(attempts, found) => 3 * (PROBE_ATTEMPTS - attempts) - found + 1,
            SpeedProbe::Status => 1,
            _ => 0,
        }
    }
}

/// A probe takes a bounded number of reads: while it has not ended, the
/// reads taken and the reads that it can still take stay within three for
/// each attempt and one for the status byte.
pub proof fn lemma_probe_room(reads: Seq<Option<u8>>)
    ensures
        SpeedProbe::of(reads).wf(),
        !SpeedProbe::of(reads).is_final() ==> reads.len() + SpeedProbe::of(reads).room() <= 3
            * PROBE_ATTEMPTS + 1,
        !SpeedProbe::of(reads).is_final() ==> SpeedProbe::of(reads).room() > 0,
    decreases reads.len(),
{
    if reads.len() > 0 {
        lemma_probe_room(reads.drop_last());
    }
}

/// No probe goes on for ever: after three reads for each attempt and one
/// for the status byte it has ended.
pub proof fn lemma_probe_ends(reads: Seq<Option<u8>>)
    requires
        reads.len() >= 3 * PROBE_ATTEMPTS + 1,
    ensures
        SpeedProbe::of(reads).is_final(),
{
    lemma_probe_room(reads);
}

} // verus!
