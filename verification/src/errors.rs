//! Error enums, status flags and the parity calculation

use vstd::prelude::*;

verus! {

/// The number of set bits among the lowest `n` bits of `v`.
pub open spec fn ones_below(v: u16, n: nat) -> nat
    decreases n,
{
    if n == 0 {
        0
    } else {
        ones_below(v, (n - 1) as nat) + if (v >> ((n - 1) as u16)) & 1 == 1 {
            1nat
        } else {
            0nat
        }
    }
}

/// The number of set bits of a 16-bit value.
pub open spec fn count_ones(v: u16) -> nat {
    ones_below(v, 16)
}

/// The odd parity bit of a 16-bit value: 1 when the number of
/// set bits is even, 0 when it is odd.
pub open spec fn parity_of(v: u16) -> u8 {
    if count_ones(v) % 2 == 0 {
        1
    } else {
        0
    }
}

/// Calculate a parity bit given a u16 word value
///
/// MIL STD 1553B uses an odd parity bit (1 if the
/// bit count of the data is even, 0 if not).
pub fn parity(v: u16) -> (p: u8)
    ensures
        p == parity_of(v),
{
    let mut count: u32 = 0;
    let mut i: u16 = 0;
    while i < 16
        invariant
            i <= 16,
            count <= i,
            count == ones_below(v, i as nat),
        decreases 16 - i,
    {
        if (v >> i) & 1 == 1 {
            count = count + 1;
        }
        i = i + 1;
    }
    if count % 2 == 0 {
        1
    } else {
        0
    }
}


/// A result type which uses the [Error] enum as the error type.
pub type Result<T> = core::result::Result<T, Error>;

/// An error deriving from the software itself, rather than a terminal.
///
/// These errors occur during parsing or other calculations when those
/// calculations fail. The [Error::SystemError] variant
/// contains any errors generated by the 1553 bus.
#[derive(Copy, Clone, Eq, PartialEq, Structural, Ord, PartialOrd, Hash, Debug)]
pub enum Error {
    /// An index was out of bounds for the data structure
    OutOfBounds,
    /// An unexpected or invalid ModeCode was found
    InvalidCode,
    /// This word is not a ModeCode command word
    NotModeCode,
    /// A malformed packet was given while building a message
    PacketIsInvalid,
    /// A word was found to be invalid while building a message
    WordIsInvalid,
    /// An array could not be created from a given slice
    FromSliceError,
    /// A byte array could not be converted to a string
    StringIsInvalid,
    /// An invalid StatusWord was given while building a message
    InvalidStatusWord,
    /// An invalid CommandWord was given while building a message
    InvalidCommandWord,
    /// A message cannot begin with a data word
    FirstWordIsData,
    /// A message cannot add new words because it is full
    MessageIsFull,
    /// A message cannot add a status word if it isn't empty
    StatusWordNotFirst,
    /// A message cannot add a command word if it isn't empty
    CommandWordNotFirst,
    /// The reserved bits of a word were used
    ReservedUsed,
    /// The requested resource was not found
    NotFound,
    /// The message has an unrecognizeable configuration
    InvalidMessage,
    /// An error from a terminal elsewhere in the system (see [SystemError])
    SystemError(SystemError),
}

/// The error core gives when a slice does not have the length of the array
/// it is converted to, carried through as an opaque value.
#[verifier::external_type_specification]
#[verifier::external_body]
pub struct ExTryFromSliceError(core::array::TryFromSliceError);

impl From<core::array::TryFromSliceError> for Error {
    fn from(value: core::array::TryFromSliceError) -> (r: Self)
        ensures
            r == Error::FromSliceError,
    {
        Error::FromSliceError
    }
}

impl vstd::std_specs::convert::FromSpecImpl<core::array::TryFromSliceError> for Error {
    open spec fn obeys_from_spec() -> bool {
        true
    }

    open spec fn from_spec(v: core::array::TryFromSliceError) -> Self {
        Error::FromSliceError
    }
}

/// An error deriving from a remote terminal or bus controller.
///
/// These errors are generated during runtime by terminals and
/// provided in messages on the bus.
#[derive(Copy, Clone, Eq, PartialEq, Structural, Ord, PartialOrd, Hash, Debug)]
pub enum SystemError {
    /// No error
    NoError,
    /// A terminal error (see [TerminalError] for more information)
    Terminal(TerminalError),
    /// A subsystem error (see [SubsystemError] for more information)
    Subsystem(SubsystemError),
    /// A message error (see [MessageError] for more information)
    Message(MessageError),
}

/// This flag is to inform the bus controller of faults in a remote terminal
///
/// The error bit flag defined here maps to the Terminal Flag bit at bit
/// time 19 (index 15). It is used to notify the bus controller of a fault
/// or failure within the *entire* remote terminal, rather than only the
/// channel on which the error was received.
#[derive(Copy, Clone, Eq, PartialEq, Structural, Ord, PartialOrd, Hash, Debug)]
pub enum TerminalError {
    /// No error
    NoError,
    /// An error has occurred
    Error,
}

impl TerminalError {
    /// The flag read from a single bit: 1 is an error, anything else is none.
    pub open spec fn spec_from_u8(value: u8) -> Self {
        if value == 1 {
            Self::Error
        } else {
            Self::NoError
        }
    }

    /// The bit that stands for this flag.
    pub open spec fn spec_into_u8(self) -> u8 {
        match self {
            Self::Error => 1,
            Self::NoError => 0,
        }
    }

    /// Check if the enum is the 'NoError' variant
    pub fn is_none(&self) -> (r: bool)
        ensures
            r == (*self is NoError),
    {
        matches!(self, Self::NoError)
    }

    /// Check if the enum is the 'Error' variant
    pub fn is_error(&self) -> (r: bool)
        ensures
            r == (*self is Error),
    {
        matches!(self, Self::Error)
    }
}

impl From<u8> for TerminalError {
    fn from(value: u8) -> (r: Self) {
        match value {
            1 => Self::Error,
            _ => Self::NoError,
        }
    }
}

impl vstd::std_specs::convert::FromSpecImpl<u8> for TerminalError {
    open spec fn obeys_from_spec() -> bool {
        true
    }

    open spec fn from_spec(v: u8) -> Self {
        Self::spec_from_u8(v)
    }
}

impl From<TerminalError> for u8 {
    fn from(value: TerminalError) -> (r: Self) {
        match value {
            TerminalError::Error => 1,
            TerminalError::NoError => 0,
        }
    }
}

impl vstd::std_specs::convert::FromSpecImpl<TerminalError> for u8 {
    open spec fn obeys_from_spec() -> bool {
        true
    }

    open spec fn from_spec(v: TerminalError) -> Self {
        v.spec_into_u8()
    }
}

/// This flag provides health data regarding subsystems of a remote terminal.
///
/// The Subsystem Flag bit located at bit time 17 (index 13) is used to provide
/// "health" data regarding the subsystems to which the remote terminal is connected.
#[derive(Copy, Clone, Eq, PartialEq, Structural, Ord, PartialOrd, Hash, Debug)]
pub enum SubsystemError {
    /// No error
    NoError,
    /// An error has occurred
    Error,
}

impl SubsystemError {
    /// The flag read from a single bit: 1 is an error, anything else is none.
    pub open spec fn spec_from_u8(value: u8) -> Self {
        if value == 1 {
            Self::Error
        } else {
            Self::NoError
        }
    }

    /// The bit that stands for this flag.
    pub open spec fn spec_into_u8(self) -> u8 {
        match self {
            Self::Error => 1,
            Self::NoError => 0,
        }
    }

    /// Check if the enum is the 'NoError' variant
    pub fn is_none(&self) -> (r: bool)
        ensures
            r == (*self is NoError),
    {
        matches!(self, Self::NoError)
    }

    /// Check if the enum is the 'Error' variant
    pub fn is_error(&self) -> (r: bool)
        ensures
            r == (*self is Error),
    {
        matches!(self, Self::Error)
    }
}

impl From<u8> for SubsystemError {
    fn from(value: u8) -> (r: Self) {
        match value {
            1 => Self::Error,
            _ => Self::NoError,
        }
    }
}

impl vstd::std_specs::convert::FromSpecImpl<u8> for SubsystemError {
    open spec fn obeys_from_spec() -> bool {
        true
    }

    open spec fn from_spec(v: u8) -> Self {
        Self::spec_from_u8(v)
    }
}

impl From<SubsystemError> for u8 {
    fn from(value: SubsystemError) -> (r: Self) {
        match value {
            SubsystemError::Error => 1,
            SubsystemError::NoError => 0,
        }
    }
}

impl vstd::std_specs::convert::FromSpecImpl<SubsystemError> for u8 {
    open spec fn obeys_from_spec() -> bool {
        true
    }

    open spec fn from_spec(v: SubsystemError) -> Self {
        v.spec_into_u8()
    }
}

/// This flag is set when a receiving terminal detects an error in a message.
///
/// The error may have occurred in any of the data words within the message, and
/// when a terminal receives this flag in a message, it will ignore all data
/// words in the containing message.
#[derive(Copy, Clone, Eq, PartialEq, Structural, Ord, PartialOrd, Hash, Debug)]
pub enum MessageError {
    /// No error
    NoError,
    /// An error has occurred
    Error,
}

impl MessageError {
    /// The flag read from a single bit: 1 is an error, anything else is none.
    pub open spec fn spec_from_u8(value: u8) -> Self {
        if value == 1 {
            Self::Error
        } else {
            Self::NoError
        }
    }

    /// The bit that stands for this flag.
    pub open spec fn spec_into_u8(self) -> u8 {
        match self {
            Self::Error => 1,
            Self::NoError => 0,
        }
    }

    /// Check if the enum is the 'NoError' variant
    pub fn is_none(&self) -> (r: bool)
        ensures
            r == (*self is NoError),
    {
        matches!(self, Self::NoError)
    }

    /// Check if the enum is the 'Error' variant
    pub fn is_error(&self) -> (r: bool)
        ensures
            r == (*self is Error),
    {
        matches!(self, Self::Error)
    }
}

impl From<u8> for MessageError {
    fn from(value: u8) -> (r: Self) {
        match value {
            1 => Self::Error,
            _ => Self::NoError,
        }
    }
}

impl vstd::std_specs::convert::FromSpecImpl<u8> for MessageError {
    open spec fn obeys_from_spec() -> bool {
        true
    }

    open spec fn from_spec(v: u8) -> Self {
        Self::spec_from_u8(v)
    }
}

impl From<MessageError> for u8 {
    fn from(value: MessageError) -> (r: Self) {
        match value {
            MessageError::Error => 1,
            MessageError::NoError => 0,
        }
    }
}

impl vstd::std_specs::convert::FromSpecImpl<MessageError> for u8 {
    open spec fn obeys_from_spec() -> bool {
        true
    }

    open spec fn from_spec(v: MessageError) -> Self {
        v.spec_into_u8()
    }
}


/// The parity bit makes the number of ones in the data bits and the parity
/// bit together odd.
pub proof fn law_parity_is_odd(v: u16)
    ensures
        (count_ones(v) + parity_of(v)) % 2 == 1,
        parity_of(v) <= 1,
{
}

/// Converting a terminal error flag to its bit and back gives the same flag;
/// a value converts to `Error` when it is 1 and to `NoError` otherwise.
pub proof fn law_terminal_error_roundtrip(flag: TerminalError, value: u8)
    ensures
        TerminalError::spec_from_u8(flag.spec_into_u8()) == flag,
        TerminalError::spec_from_u8(value) == if value == 1 {
            TerminalError::Error
        } else {
            TerminalError::NoError
        },
{
}

/// Converting a subsystem error flag to its bit and back gives the same flag;
/// a value converts to `Error` when it is 1 and to `NoError` otherwise.
pub proof fn law_subsystem_error_roundtrip(flag: SubsystemError, value: u8)
    ensures
        SubsystemError::spec_from_u8(flag.spec_into_u8()) == flag,
        SubsystemError::spec_from_u8(value) == if value == 1 {
            SubsystemError::Error
        } else {
            SubsystemError::NoError
        },
{
}

/// Converting a message error flag to its bit and back gives the same flag;
/// a value converts to `Error` when it is 1 and to `NoError` otherwise.
pub proof fn law_message_error_roundtrip(flag: MessageError, value: u8)
    ensures
        MessageError::spec_from_u8(flag.spec_into_u8()) == flag,
        MessageError::spec_from_u8(value) == if value == 1 {
            MessageError::Error
        } else {
            MessageError::NoError
        },
{
}

} // verus!
