//! The container enum for the kinds of words

use vstd::prelude::*;

use crate::word::{high_byte, low_byte, CommandWord, DataWord, StatusWord, Word};

verus! {

/// Container enum for the different kinds of words
#[derive(Debug, Clone, Copy, PartialEq, Eq)]
pub enum WordType {
    /// No contained word
    Empty,
    /// Command word
    Command(CommandWord),
    /// Status word
    Status(StatusWord),
    /// Data word
    Data(DataWord),
}

impl WordType {
    /// The 16-bit value of the contained word, or 0 if there is none
    pub open spec fn spec_value(self) -> u16 {
        match self {
            WordType::Command(w) => w.spec_value(),
            WordType::Status(w) => w.spec_value(),
            WordType::Data(w) => w.spec_value(),
            WordType::Empty => 0,
        }
    }

    /// The parity bit of the contained word, or 0 if there is none
    pub open spec fn spec_parity(self) -> u8 {
        match self {
            WordType::Command(w) => w.spec_parity(),
            WordType::Status(w) => w.spec_parity(),
            WordType::Data(w) => w.spec_parity(),
            WordType::Empty => 0,
        }
    }

    /// Check if contained word is command
    pub fn is_command(&self) -> (r: bool)
        ensures
            r == (*self is Command),
    {
        matches!(self, Self::Command(_))
    }

    /// Check if contained word is status
    pub fn is_status(&self) -> (r: bool)
        ensures
            r == (*self is Status),
    {
        matches!(self, Self::Status(_))
    }

    /// Check if contained word is data
    pub fn is_data(&self) -> (r: bool)
        ensures
            r == (*self is Data),
    {
        matches!(self, Self::Data(_))
    }

    /// Check if there is a contained word
    pub fn is_some(&self) -> (r: bool)
        ensures
            r == !(*self is Empty),
    {
        !self.is_none()
    }

    /// Check if there is no contained word
    pub fn is_none(&self) -> (r: bool)
        ensures
            r == (*self is Empty),
    {
        matches!(self, Self::Empty)
    }

    /// Get the word as a byte array
    pub fn bytes(&self) -> (b: [u8; 2])
        ensures
            b[0] == high_byte(self.spec_value()),
            b[1] == low_byte(self.spec_value()),
    {
        match self {
            Self::Command(w) => w.as_bytes(),
            Self::Status(w) => w.as_bytes(),
            Self::Data(w) => w.as_bytes(),
            _ => [0, 0],
        }
    }

    /// Get the parity bit of the word
    pub fn parity(&self) -> (p: u8)
        ensures
            p == self.spec_parity(),
    {
        match self {
            Self::Command(w) => w.parity(),
            Self::Status(w) => w.parity(),
            Self::Data(w) => w.parity(),
            _ => 0,
        }
    }
}

impl From<CommandWord> for WordType {
    fn from(value: CommandWord) -> (r: Self) {
        WordType::Command(value)
    }
}

impl vstd::std_specs::convert::FromSpecImpl<CommandWord> for WordType {
    open spec fn obeys_from_spec() -> bool {
        true
    }

    open spec fn from_spec(v: CommandWord) -> Self {
        WordType::Command(v)
    }
}

impl From<StatusWord> for WordType {
    fn from(value: StatusWord) -> (r: Self) {
        WordType::Status(value)
    }
}

impl vstd::std_specs::convert::FromSpecImpl<StatusWord> for WordType {
    open spec fn obeys_from_spec() -> bool {
        true
    }

    open spec fn from_spec(v: StatusWord) -> Self {
        WordType::Status(v)
    }
}

impl From<DataWord> for WordType {
    fn from(value: DataWord) -> (r: Self) {
        WordType::Data(value)
    }
}

impl vstd::std_specs::convert::FromSpecImpl<DataWord> for WordType {
    open spec fn obeys_from_spec() -> bool {
        true
    }

    open spec fn from_spec(v: DataWord) -> Self {
        WordType::Data(v)
    }
}

} // verus!
