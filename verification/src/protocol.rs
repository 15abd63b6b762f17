//! Protocol messages exchanged with the modules of the terminal.

use vstd::prelude::*;
use vstd::std_specs::convert::{FromSpecImpl, TryFromSpecImpl};
use crate::videotex::C0;
use crate::MinitelMessage;

verus! {

/// Emission code of a module of the terminal.
#[derive(Debug, Clone, Copy, PartialEq, Eq, Structural)]
pub enum RoutingTx {
    Screen,
    Keyboard,
    Modem,
    Prise,
}

impl RoutingTx {
    /// The byte that stands for this code on the wire.
    pub open spec fn byte(self) -> u8 {
        match self {
            RoutingTx::Screen => 0x50,
            RoutingTx::Keyboard => 0x51,
            RoutingTx::Modem => 0x52,
            RoutingTx::Prise => 0x53,
        }
    }

    /// Encodes this code as its byte.
    pub fn to_byte(self) -> (b: u8)
        ensures
            b == self.byte(),
    {
        match self {
            RoutingTx::Screen => 0x50,
            RoutingTx::Keyboard => 0x51,
            RoutingTx::Modem => 0x52,
            RoutingTx::Prise => 0x53,
        }
    }

    /// The code that a byte stands for, if it stands for one.
    pub open spec fn of_byte(b: u8) -> Option<RoutingTx> {
        match b {
            0x50 => Some(RoutingTx::Screen),
            0x51 => Some(RoutingTx::Keyboard),
            0x52 => Some(RoutingTx::Modem),
            0x53 => Some(RoutingTx::Prise),
            _ => None,
        }
    }

    /// Decodes a byte: the one code whose byte it is, and `None` where no code has it.
    pub fn from_byte(b: u8) -> (r: Option<RoutingTx>)
        ensures
            r == Self::of_byte(b),
            r matches Some(c) ==> c.byte() == b,
            forall|c: RoutingTx| c.byte() == b ==> r == Some(c),
    {
        match b {
            0x50 => Some(RoutingTx::Screen),
            0x51 => Some(RoutingTx::Keyboard),
            0x52 => Some(RoutingTx::Modem),
            0x53 => Some(RoutingTx::Prise),
            _ => None,
        }
    }
}

/// Reception code of a module of the terminal.
#[derive(Debug, Clone, Copy, PartialEq, Eq, Structural)]
pub enum RoutingRx {
    Screen,
    Keyboard,
    Modem,
    Prise,
}

impl RoutingRx {
    /// The byte that stands for this code on the wire.
    pub open spec fn byte(self) -> u8 {
        match self {
            RoutingRx::Screen => 0x58,
            RoutingRx::Keyboard => 0x59,
            RoutingRx::Modem => 0x5A,
            RoutingRx::Prise => 0x5B,
        }
    }

    /// Encodes this code as its byte.
    pub fn to_byte(self) -> (b: u8)
        ensures
            b == self.byte(),
    {
        match self {
            RoutingRx::Screen => 0x58,
            RoutingRx::Keyboard => 0x59,
            RoutingRx::Modem => 0x5A,
            RoutingRx::Prise => 0x5B,
        }
    }

    /// The code that a byte stands for, if it stands for one.
    pub open spec fn of_byte(b: u8) -> Option<RoutingRx> {
        match b {
            0x58 => Some(RoutingRx::Screen),
            0x59 => Some(RoutingRx::Keyboard),
            0x5A => Some(RoutingRx::Modem),
            0x5B => Some(RoutingRx::Prise),
            _ => None,
        }
    }

    /// Decodes a byte: the one code whose byte it is, and `None` where no code has it.
    pub fn from_byte(b: u8) -> (r: Option<RoutingRx>)
        ensures
            r == Self::of_byte(b),
            r matches Some(c) ==> c.byte() == b,
            forall|c: RoutingRx| c.byte() == b ==> r == Some(c),
    {
        match b {
            0x58 => Some(RoutingRx::Screen),
            0x59 => Some(RoutingRx::Keyboard),
            0x5A => Some(RoutingRx::Modem),
            0x5B => Some(RoutingRx::Prise),
            _ => None,
        }
    }
}

/// Selector that opens a protocol message, sent after `ESC`.
#[derive(Debug, Clone, Copy, PartialEq, Eq, Structural)]
pub enum Protocol {
    /// Message with one parameter.
    Pro1,
    /// Message with two parameters.
    Pro2,
    /// Message with three parameters.
    Pro3,
}

impl Protocol {
    /// The byte that stands for this code on the wire.
    pub open spec fn byte(self) -> u8 {
        match self {
            Protocol::Pro1 => 0x39,
            Protocol::Pro2 => 0x3A,
            Protocol::Pro3 => 0x3B,
        }
    }

    /// Encodes this code as its byte.
    pub fn to_byte(self) -> (b: u8)
        ensures
            b == self.byte(),
    {
        match self {
            Protocol::Pro1 => 0x39,
            Protocol::Pro2 => 0x3A,
            Protocol::Pro3 => 0x3B,
        }
    }

    /// The code that a byte stands for, if it stands for one.
    pub open spec fn of_byte(b: u8) -> Option<Protocol> {
        match b {
            0x39 => Some(Protocol::Pro1),
            0x3A => Some(Protocol::Pro2),
            0x3B => Some(Protocol::Pro3),
            _ => None,
        }
    }

    /// Decodes a byte: the one code whose byte it is, and `None` where no code has it.
    pub fn from_byte(b: u8) -> (r: Option<Protocol>)
        ensures
            r == Self::of_byte(b),
            r matches Some(c) ==> c.byte() == b,
            forall|c: Protocol| c.byte() == b ==> r == Some(c),
    {
        match b {
            0x39 => Some(Protocol::Pro1),
            0x3A => Some(Protocol::Pro2),
            0x3B => Some(Protocol::Pro3),
            _ => None,
        }
    }
}

/// Commands of a message with one parameter.
#[derive(Debug, Clone, Copy, PartialEq, Eq, Structural)]
pub enum Pro1 {
    /// Ask for the line rate.
    EnqSpeed,
    /// Ask for the identification bytes.
    EnqRom,
}

impl Pro1 {
    /// The byte that stands for this code on the wire.
    pub open spec fn byte(self) -> u8 {
        match self {
            Pro1::EnqSpeed => 0x74,
            Pro1::EnqRom => 0x7B,
        }
    }

    /// Encodes this code as its byte.
    pub fn to_byte(self) -> (b: u8)
        ensures
            b == self.byte(),
    {
        match self {
            Pro1::EnqSpeed => 0x74,
            Pro1::EnqRom => 0x7B,
        }
    }

    /// The code that a byte stands for, if it stands for one.
    pub open spec fn of_byte(b: u8) -> Option<Pro1> {
        match b {
            0x74 => Some(Pro1::EnqSpeed),
            0x7B => Some(Pro1::EnqRom),
            _ => None,
        }
    }

    /// Decodes a byte: the one code whose byte it is, and `None` where no code has it.
    pub fn from_byte(b: u8) -> (r: Option<Pro1>)
        ensures
            r == Self::of_byte(b),
            r matches Some(c) ==> c.byte() == b,
            forall|c: Pro1| c.byte() == b ==> r == Some(c),
    {
        match b {
            0x74 => Some(Pro1::EnqSpeed),
            0x7B => Some(Pro1::EnqRom),
            _ => None,
        }
    }
}

/// Commands of a message with two parameters.
#[derive(Debug, Clone, Copy, PartialEq, Eq, Structural)]
pub enum Pro2 {
    RoutingTo,
    /// Switch a function mode on.
    Start,
    /// Switch a function mode off.
    Stop,
    /// Program the line rate.
    Prog,
}

impl Pro2 {
    /// The byte that stands for this code on the wire.
    pub open spec fn byte(self) -> u8 {
        match self {
            Pro2::RoutingTo => 0x62,
            Pro2::Start => 0x69,
            Pro2::Stop => 0x6A,
            Pro2::Prog => 0x6B,
        }
    }

    /// Encodes this code as its byte.
    pub fn to_byte(self) -> (b: u8)
        ensures
            b == self.byte(),
    {
        match self {
            Pro2::RoutingTo => 0x62,
            Pro2::Start => 0x69,
            Pro2::Stop => 0x6A,
            Pro2::Prog => 0x6B,
        }
    }

    /// The code that a byte stands for, if it stands for one.
    pub open spec fn of_byte(b: u8) -> Option<Pro2> {
        match b {
            0x62 => Some(Pro2::RoutingTo),
            0x69 => Some(Pro2::Start),
            0x6A => Some(Pro2::Stop),
            0x6B => Some(Pro2::Prog),
            _ => None,
        }
    }

    /// Decodes a byte: the one code whose byte it is, and `None` where no code has it.
    pub fn from_byte(b: u8) -> (r: Option<Pro2>)
        ensures
            r == Self::of_byte(b),
            r matches Some(c) ==> c.byte() == b,
            forall|c: Pro2| c.byte() == b ==> r == Some(c),
    {
        match b {
            0x62 => Some(Pro2::RoutingTo),
            0x69 => Some(Pro2::Start),
            0x6A => Some(Pro2::Stop),
            0x6B => Some(Pro2::Prog),
            _ => None,
        }
    }
}

/// Commands of a message with three parameters.
#[derive(Debug, Clone, Copy, PartialEq, Eq, Structural)]
pub enum Pro3 {
    RoutingOff,
    RoutingOn,
}

impl Pro3 {
    /// The byte that stands for this code on the wire.
    pub open spec fn byte(self) -> u8 {
        match self {
            Pro3::RoutingOff => 0x60,
            Pro3::RoutingOn => 0x61,
        }
    }

    /// Encodes this code as its byte.
    pub fn to_byte(self) -> (b: u8)
        ensures
            b == self.byte(),
    {
        match self {
            Pro3::RoutingOff => 0x60,
            Pro3::RoutingOn => 0x61,
        }
    }

    /// The code that a byte stands for, if it stands for one.
    pub open spec fn of_byte(b: u8) -> Option<Pro3> {
        match b {
            0x60 => Some(Pro3::RoutingOff),
            0x61 => Some(Pro3::RoutingOn),
            _ => None,
        }
    }

    /// Decodes a byte: the one code whose byte it is, and `None` where no code has it.
    pub fn from_byte(b: u8) -> (r: Option<Pro3>)
        ensures
            r == Self::of_byte(b),
            r matches Some(c) ==> c.byte() == b,
            forall|c: Pro3| c.byte() == b ==> r == Some(c),
    {
        match b {
            0x60 => Some(Pro3::RoutingOff),
            0x61 => Some(Pro3::RoutingOn),
            _ => None,
        }
    }
}

/// Acknowledgements with two parameters.
#[derive(Debug, Clone, Copy, PartialEq, Eq, Structural)]
pub enum Pro2Resp {
    RepStatus,
    QuerySpeedAnswer,
}

impl Pro2Resp {
    /// The byte that stands for this code on the wire.
    pub open spec fn byte(self) -> u8 {
        match self {
            Pro2Resp::RepStatus => 0x73,
            Pro2Resp::QuerySpeedAnswer => 0x75,
        }
    }

    /// Encodes this code as its byte.
    pub fn to_byte(self) -> (b: u8)
        ensures
            b == self.byte(),
    {
        match self {
            Pro2Resp::RepStatus => 0x73,
            Pro2Resp::QuerySpeedAnswer => 0x75,
        }
    }

    /// The code that a byte stands for, if it stands for one.
    pub open spec fn of_byte(b: u8) -> Option<Pro2Resp> {
        match b {
            0x73 => Some(Pro2Resp::RepStatus),
            0x75 => Some(Pro2Resp::QuerySpeedAnswer),
            _ => None,
        }
    }

    /// Decodes a byte: the one code whose byte it is, and `None` where no code has it.
    pub fn from_byte(b: u8) -> (r: Option<Pro2Resp>)
        ensures
            r == Self::of_byte(b),
            r matches Some(c) ==> c.byte() == b,
            forall|c: Pro2Resp| c.byte() == b ==> r == Some(c),
    {
        match b {
            0x73 => Some(Pro2Resp::RepStatus),
            0x75 => Some(Pro2Resp::QuerySpeedAnswer),
            _ => None,
        }
    }
}

/// Acknowledgements with three parameters.
#[derive(Debug, Clone, Copy, PartialEq, Eq, Structural)]
pub enum Pro3Resp {
    RoutingFrom,
}

impl Pro3Resp {
    /// The byte that stands for this code on the wire.
    pub open spec fn byte(self) -> u8 {
        match self {
            Pro3Resp::RoutingFrom => 0x63,
        }
    }

    /// Encodes this code as its byte.
    pub fn to_byte(self) -> (b: u8)
        ensures
            b == self.byte(),
    {
        match self {
            Pro3Resp::RoutingFrom => 0x63,
        }
    }

    /// The code that a byte stands for, if it stands for one.
    pub open spec fn of_byte(b: u8) -> Option<Pro3Resp> {
        match b {
            0x63 => Some(Pro3Resp::RoutingFrom),
            _ => None,
        }
    }

    /// Decodes a byte: the one code whose byte it is, and `None` where no code has it.
    pub fn from_byte(b: u8) -> (r: Option<Pro3Resp>)
        ensures
            r == Self::of_byte(b),
            r matches Some(c) ==> c.byte() == b,
            forall|c: Pro3Resp| c.byte() == b ==> r == Some(c),
    {
        match b {
            0x63 => Some(Pro3Resp::RoutingFrom),
            _ => None,
        }
    }
}

/// Function modes of the terminal.
#[derive(Debug, Clone, Copy, PartialEq, Eq, Structural)]
pub enum FunctionMode {
    /// Screen scrolling.
    Rouleau,
    /// Error correcting procedure.
    Procedure,
    /// Lowercase keyboard.
    Minuscule,
}

impl FunctionMode {
    /// The byte that stands for this code on the wire.
    pub open spec fn byte(self) -> u8 {
        match self {
            FunctionMode::Rouleau => 0x43,
            FunctionMode::Procedure => 0x44,
            FunctionMode::Minuscule => 0x45,
        }
    }

    /// Encodes this code as its byte.
    pub fn to_byte(self) -> (b: u8)
        ensures
            b == self.byte(),
    {
        match self {
            FunctionMode::Rouleau => 0x43,
            FunctionMode::Procedure => 0x44,
            FunctionMode::Minuscule => 0x45,
        }
    }

    /// The code that a byte stands for, if it stands for one.
    pub open spec fn of_byte(b: u8) -> Option<FunctionMode> {
        match b {
            0x43 => Some(FunctionMode::Rouleau),
            0x44 => Some(FunctionMode::Procedure),
            0x45 => Some(FunctionMode::Minuscule),
            _ => None,
        }
    }

    /// Decodes a byte: the one code whose byte it is, and `None` where no code has it.
    pub fn from_byte(b: u8) -> (r: Option<FunctionMode>)
        ensures
            r == Self::of_byte(b),
            r matches Some(c) ==> c.byte() == b,
            forall|c: FunctionMode| c.byte() == b ==> r == Some(c),
    {
        match b {
            0x43 => Some(FunctionMode::Rouleau),
            0x44 => Some(FunctionMode::Procedure),
            0x45 => Some(FunctionMode::Minuscule),
            _ => None,
        }
    }
}

impl Protocol {
    /// The bytes of a message with one parameter.
    pub fn pro1(x: Pro1) -> (m: [u8; 3])
        ensures
            m@ == seq![C0::ESC.byte(), Protocol::Pro1.byte(), x.byte()],
    {
        [C0::ESC.to_byte(), Protocol::Pro1.to_byte(), x.to_byte()]
    }

    /// The bytes of a message with two parameters.
    pub fn pro2(x: Pro2, y: u8) -> (m: [u8; 4])
        ensures
            m@ == seq![C0::ESC.byte(), Protocol::Pro2.byte(), x.byte(), y],
    {
        [C0::ESC.to_byte(), Protocol::Pro2.to_byte(), x.to_byte(), y]
    }

    /// The bytes of a message with three parameters.
    pub fn pro3(x: Pro3, y: u8, z: u8) -> (m: [u8; 5])
        ensures
            m@ == seq![C0::ESC.byte(), Protocol::Pro3.byte(), x.byte(), y, z],
    {
        [C0::ESC.to_byte(), Protocol::Pro3.to_byte(), x.to_byte(), y, z]
    }

    /// The bytes of the message that switches the routing from a module
    /// that emits to a module that receives on or off.
    pub fn aiguillage(enable: bool, from: RoutingTx, to: RoutingRx) -> (m: [u8; 5])
        ensures
            m@ == ProtocolMessage::routing(enable, from, to).bytes(),
    {
        Self::pro3(if enable { Pro3::RoutingOn } else { Pro3::RoutingOff }, to.to_byte(), from.to_byte())
    }
}

/// A protocol message of one, two or three parameters.
#[derive(Debug, Clone, Copy, PartialEq, Eq, Structural)]
pub enum ProtocolMessage {
    Pro1(Pro1),
    Pro2(Pro2, u8),
    Pro3(Pro3, u8, u8),
}

impl MinitelMessage for ProtocolMessage {
    open spec fn wf(self) -> bool {
        true
    }

    /// `ESC`, the selector of the number of parameters, then the parameters.
    open spec fn bytes(self) -> Seq<u8> {
        match self {
            ProtocolMessage::Pro1(x) => seq![C0::ESC.byte(), Protocol::Pro1.byte(), x.byte()],
            ProtocolMessage::Pro2(x, y) => seq![C0::ESC.byte(), Protocol::Pro2.byte(), x.byte(), y],
            ProtocolMessage::Pro3(x, y, z) => seq![
                C0::ESC.byte(),
                Protocol::Pro3.byte(),
                x.byte(),
                y,
                z,
            ],
        }
    }

    fn is_wf(&self) -> (b: bool) {
        true
    }

    fn message(self) -> (m: Vec<u8>) {
        match self {
            ProtocolMessage::Pro1(x) => vec![C0::ESC.to_byte(), Protocol::Pro1.to_byte(), x.to_byte()],
            ProtocolMessage::Pro2(x, y) => vec![
                C0::ESC.to_byte(),
                Protocol::Pro2.to_byte(),
                x.to_byte(),
                y,
            ],
            ProtocolMessage::Pro3(x, y, z) => vec![
                C0::ESC.to_byte(),
                Protocol::Pro3.to_byte(),
                x.to_byte(),
                y,
                z,
            ],
        }
    }
}

impl ProtocolMessage {
    /// The message that switches a routing on or off: the module that
    /// receives goes before the module that emits.
    pub open spec fn routing(enable: bool, from: RoutingTx, to: RoutingRx) -> ProtocolMessage {
        ProtocolMessage::Pro3(
            if enable { Pro3::RoutingOn } else { Pro3::RoutingOff },
            to.byte(),
            from.byte(),
        )
    }

    /// The message that switches the routing from a module that emits to a
    /// module that receives on or off.
    pub fn aiguillage(enable: bool, from: RoutingTx, to: RoutingRx) -> (m: ProtocolMessage)
        ensures
            m == Self::routing(enable, from, to),
    {
        ProtocolMessage::Pro3(
            if enable { Pro3::RoutingOn } else { Pro3::RoutingOff },
            to.to_byte(),
            from.to_byte(),
        )
    }

    /// The message that programs the line rate.
    pub fn set_speed(speed: Baudrate) -> (m: ProtocolMessage)
        ensures
            m == ProtocolMessage::Pro2(Pro2::Prog, speed.code()),
    {
        ProtocolMessage::Pro2(Pro2::Prog, speed.code())
    }

    /// The message that switches a function mode on or off.
    pub fn function_mode(mode: FunctionMode, enable: bool) -> (m: ProtocolMessage)
        ensures
            m == ProtocolMessage::Pro2(if enable { Pro2::Start } else { Pro2::Stop }, mode.byte()),
    {
        ProtocolMessage::Pro2(if enable { Pro2::Start } else { Pro2::Stop }, mode.to_byte())
    }
}

/// The message that switches the routing from a module that emits to a
/// module that receives on or off.
pub fn aiguillage(enable: bool, from: RoutingTx, to: RoutingRx) -> (m: ProtocolMessage)
    ensures
        m == ProtocolMessage::routing(enable, from, to),
{
    ProtocolMessage::aiguillage(enable, from, to)
}

/// Which modules a routing status byte names.
#[derive(Debug, Clone, Copy, PartialEq, Eq, Structural)]
pub struct RoutingStatus {
    pub prise: bool,
    pub modem: bool,
    pub keyboard: bool,
    pub screen: bool,
}

impl From<u8> for RoutingStatus {
    fn from(status: u8) -> (r: RoutingStatus) {
        RoutingStatus {
            prise: status & 0b1000 != 0,
            modem: status & 0b0100 != 0,
            keyboard: status & 0b0010 != 0,
            screen: status & 0b0001 != 0,
        }
    }
}

impl FromSpecImpl<u8> for RoutingStatus {
    open spec fn obeys_from_spec() -> bool {
        true
    }

    /// One module for each of the four low bits, the screen lowest.
    open spec fn from_spec(status: u8) -> RoutingStatus {
        RoutingStatus {
            prise: status & 0b1000 != 0,
            modem: status & 0b0100 != 0,
            keyboard: status & 0b0010 != 0,
            screen: status & 0b0001 != 0,
        }
    }
}

/// Serial line rates that the terminal supports.
#[derive(Debug, Clone, Copy, PartialEq, Eq, Structural)]
pub enum Baudrate {
    B300,
    B1200,
    B4800,
    B9600,
}

impl Baudrate {
    /// The rate in bits per second.
    pub open spec fn spec_hertz(&self) -> u32 {
        match self {
            Baudrate::B300 => 300,
            Baudrate::B1200 => 1200,
            Baudrate::B4800 => 4800,
            Baudrate::B9600 => 9600,
        }
    }

    /// The status byte of the rate: a parity bit, a set bit, then the rate
    /// of emission and the rate of reception on three bits each, which are
    /// the same.
    pub open spec fn spec_code(&self) -> u8 {
        match self {
            Baudrate::B300 => 0b01_010_010,
            Baudrate::B1200 => 0b01_100_100,
            Baudrate::B4800 => 0b01_110_110,
            Baudrate::B9600 => 0b01_111_111,
        }
    }

    /// The rates in the order in which they are tried: the rate that a
    /// terminal starts with first.
    pub open spec fn spec_speeds() -> Seq<Baudrate> {
        seq![Baudrate::B1200, Baudrate::B300, Baudrate::B4800, Baudrate::B9600]
    }

    /// The rate in bits per second.
    #[verifier::when_used_as_spec(spec_hertz)]
    pub fn hertz(&self) -> (r: u32)
        ensures
            r == self.spec_hertz(),
    {
        match self {
            Baudrate::B300 => 300,
            Baudrate::B1200 => 1200,
            Baudrate::B4800 => 4800,
            Baudrate::B9600 => 9600,
        }
    }

    /// The status byte of the rate.
    #[verifier::when_used_as_spec(spec_code)]
    pub fn code(&self) -> (c: u8)
        ensures
            c == self.spec_code(),
    {
        match self {
            Baudrate::B300 => 0b01_010_010,
            Baudrate::B1200 => 0b01_100_100,
            Baudrate::B4800 => 0b01_110_110,
            Baudrate::B9600 => 0b01_111_111,
        }
    }

    /// The rate that a status byte names; a byte that names none comes back as it is.
    pub open spec fn of_code(value: u8) -> Result<Baudrate, u8> {
        if value == Baudrate::B300.code() {
            Ok(Baudrate::B300)
        } else if value == Baudrate::B1200.code() {
            Ok(Baudrate::B1200)
        } else if value == Baudrate::B4800.code() {
            Ok(Baudrate::B4800)
        } else if value == Baudrate::B9600.code() {
            Ok(Baudrate::B9600)
        } else {
            Err(value)
        }
    }

    /// The rates in the order in which they are tried.
    pub fn speeds() -> (s: [Baudrate; 4])
        ensures
            s@ == Self::spec_speeds(),
    {
        [Baudrate::B1200, Baudrate::B300, Baudrate::B4800, Baudrate::B9600]
    }
}

impl TryFrom<u8> for Baudrate {
    type Error = u8;

    fn try_from(value: u8) -> (r: Result<Baudrate, u8>) {
        match value {
            0b01_010_010 => Ok(Baudrate::B300),
            0b01_100_100 => Ok(Baudrate::B1200),
            0b01_110_110 => Ok(Baudrate::B4800),
            0b01_111_111 => Ok(Baudrate::B9600),
            _ => Err(value),
        }
    }
}

impl TryFromSpecImpl<u8> for Baudrate {
    open spec fn obeys_try_from_spec() -> bool {
        true
    }

    open spec fn try_from_spec(value: u8) -> Result<Baudrate, u8> {
        Baudrate::of_code(value)
    }
}

/// The status byte of a rate names that rate, and a byte that is the status
/// byte of no rate names none.
pub proof fn lemma_baudrate_code_round_trip(rate: Baudrate, value: u8)
    ensures
        Baudrate::of_code(rate.code()) == Ok::<Baudrate, u8>(rate),
        Baudrate::of_code(value) matches Ok(r) ==> r.code() == value,
        (forall|r: Baudrate| r.code() != value) ==> Baudrate::of_code(value) == Err::<Baudrate, u8>(
            value,
        ),
{
}

/// The identification bytes of the terminal.
#[derive(Debug, Clone, Copy, PartialEq, Eq, Structural)]
pub struct Rom {
    pub manufacturer: u8,
    pub model: u8,
    pub version: u8,
}

impl From<[u8; 3]> for Rom {
    fn from(rom: [u8; 3]) -> (r: Rom) {
        Rom { manufacturer: rom[0], model: rom[1], version: rom[2] }
    }
}

impl FromSpecImpl<[u8; 3]> for Rom {
    open spec fn obeys_from_spec() -> bool {
        true
    }

    /// The manufacturer, the model and the version, in that order.
    open spec fn from_spec(rom: [u8; 3]) -> Rom {
        Rom { manufacturer: rom[0], model: rom[1], version: rom[2] }
    }
}

} // verus!
