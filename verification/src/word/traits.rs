//! Traits shared by the word types

use vstd::prelude::*;

use crate::errors::{parity_of, Error, Result};
use crate::word::WordType;

verus! {

/// The 16-bit value of two bytes in big-endian order.
pub open spec fn be_value(bytes: [u8; 2]) -> u16 {
    (bytes[0] as int * 256 + bytes[1] as int) as u16
}

/// The high (first) byte of a 16-bit value in big-endian order.
pub open spec fn high_byte(value: u16) -> u8 {
    (value / 256) as u8
}

/// The low (second) byte of a 16-bit value in big-endian order.
pub open spec fn low_byte(value: u16) -> u8 {
    (value % 256) as u8
}

/// Common functionality for service words
pub trait Header: Sized {
    /// The number of data words that follow the word, where it says so
    spec fn spec_count(&self) -> Option<usize>;

    /// The number of data words expected
    fn count(&self) -> (r: Option<usize>)
        ensures
            r == self.spec_count(),
    ;
}

/// Common functionality for all words
///
/// A word is modelled by its 16-bit value and its parity bit.
pub trait Word: Sized {
    /// The 16-bit data of the word
    spec fn spec_value(&self) -> u16;

    /// The parity bit stored with the word
    spec fn spec_parity(&self) -> u8;

    /// The word held in the container enum
    spec fn spec_word_type(&self) -> WordType;

    /// Create an empty word
    fn new() -> (w: Self)
        ensures
            w.spec_value() == 0,
            w.spec_parity() == 1,
    ;

    /// Constructor method to set the word from a u16
    fn with_value(self, data: u16) -> (w: Self)
        ensures
            w.spec_value() == data,
            w.spec_parity() == parity_of(data),
    ;

    /// Constructor method to set the word from bytes
    fn with_bytes(self, data: [u8; 2]) -> (w: Self)
        ensures
            w.spec_value() == be_value(data),
            w.spec_parity() == parity_of(be_value(data)),
    ;

    /// Constructor method to explicitly set the parity
    fn with_parity(self, parity: u8) -> (w: Self)
        ensures
            w.spec_value() == self.spec_value(),
            w.spec_parity() == parity,
    ;

    /// Constructor method to calculate a parity bit
    fn with_calculated_parity(self) -> (w: Self)
        ensures
            w.spec_value() == self.spec_value(),
            w.spec_parity() == parity_of(self.spec_value()),
    ;

    /// Finish and validate construction of a word
    ///
    /// Fails with [Error::WordIsInvalid] if the parity bit is wrong.
    fn build(self) -> (r: Result<Self>)
        ensures
            (self.spec_parity() == parity_of(self.spec_value())) ==> r == Ok::<Self, Error>(self),
            (self.spec_parity() != parity_of(self.spec_value())) ==> r == Err::<Self, Error>(
                Error::WordIsInvalid,
            ),
    ;

    /// Create a word from a u16
    fn from_value(data: u16) -> (w: Self)
        ensures
            w.spec_value() == data,
            w.spec_parity() == parity_of(data),
    ;

    /// Create a word from two bytes
    fn from_bytes(data: [u8; 2]) -> (w: Self)
        ensures
            w.spec_value() == be_value(data),
            w.spec_parity() == parity_of(be_value(data)),
    ;

    /// Get the internal data as a byte array
    fn as_bytes(&self) -> (b: [u8; 2])
        ensures
            b[0] == high_byte(self.spec_value()),
            b[1] == low_byte(self.spec_value()),
    ;

    /// Get the internal data as u16
    fn as_value(&self) -> (v: u16)
        ensures
            v == self.spec_value(),
    ;

    /// Set the internal data from a byte array
    fn set_bytes(&mut self, data: [u8; 2])
        ensures
            final(self).spec_value() == be_value(data),
            final(self).spec_parity() == parity_of(be_value(data)),
    ;

    /// Set the internal data as u16
    fn set_value(&mut self, data: u16)
        ensures
            final(self).spec_value() == data,
            final(self).spec_parity() == parity_of(data),
    ;

    /// Get the current parity bit
    fn parity(&self) -> (p: u8)
        ensures
            p == self.spec_parity(),
    ;

    /// Set the current parity bit
    fn set_parity(&mut self, parity: u8)
        ensures
            final(self).spec_value() == old(self).spec_value(),
            final(self).spec_parity() == parity,
    ;

    /// Get a calculated parity bit
    fn calculate_parity(&self) -> (p: u8)
        ensures
            p == parity_of(self.spec_value()),
    ;

    /// Check if the current parity bit is correct
    fn check_parity(&self) -> (r: bool)
        ensures
            r == (self.spec_parity() == parity_of(self.spec_value())),
    ;

    /// Wrap the word in the container enum
    fn into_word_type(self) -> (r: WordType)
        ensures
            r == self.spec_word_type(),
    ;
}

} // verus!
