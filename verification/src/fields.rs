//! Fields found in command and status words

use vstd::prelude::*;

use crate::errors::parity_of;
use crate::word::Word;

verus! {

/// Represents a field inside of a 16-bit word
///
/// Given a mask and offset, the Field struct can get
/// or set between 1 and 8 bits in a u16 word.
#[derive(Copy, Clone, Eq, PartialEq, Structural, Ord, PartialOrd, Hash, Debug)]
pub struct Field {
    /// The mask used to isolate the value
    mask: u16,
    /// The offset used to shift the value to a single byte
    offset: u32,
}

/// The value a field with this mask and offset reads from a word value.
pub open spec fn field_value(mask: u16, offset: u32, word: u16) -> u8 {
    ((word & mask) >> offset) as u8
}

/// The word value after a field with this mask and offset is written with `value`.
pub open spec fn field_update(mask: u16, offset: u32, word: u16, value: u8) -> u16 {
    (word & !mask) | (((value as u16) << offset) & mask)
}

impl Field {
    /// The mask of the field
    pub closed spec fn spec_mask(&self) -> u16 {
        self.mask
    }

    /// The offset of the field
    pub closed spec fn spec_offset(&self) -> u32 {
        self.offset
    }

    /// Create a new field
    pub fn new() -> (f: Self)
        ensures
            f.spec_mask() == 0,
            f.spec_offset() == 0,
    {
        Self { mask: 0, offset: 0 }
    }

    /// Constructor method to add a mask to the field
    pub fn with_mask(self, mask: u16) -> (f: Self)
        ensures
            f.spec_mask() == mask,
            f.spec_offset() == self.spec_offset(),
    {
        let mut f = self;
        f.mask = mask;
        f
    }

    /// Constructor method to calculate an offset
    ///
    /// The offset is the number of trailing zeros of the mask.
    pub fn with_offset(self) -> (f: Self)
        ensures
            f.spec_mask() == self.spec_mask(),
            f.spec_offset() == vstd::std_specs::bits::u16_trailing_zeros(self.spec_mask()),
    {
        let mut f = self;
        f.offset = f.mask.trailing_zeros();
        f
    }

    /// Create a new field from a mask
    pub fn from(mask: u16) -> (f: Self)
        ensures
            f.spec_mask() == mask,
            f.spec_offset() == vstd::std_specs::bits::u16_trailing_zeros(mask),
    {
        Self::new().with_mask(mask).with_offset()
    }

    /// The mask used to isolate the value
    pub fn mask(&self) -> (m: u16)
        ensures
            m == self.spec_mask(),
    {
        self.mask
    }

    /// The offset used to shift the value to a single byte
    pub fn offset(&self) -> (o: u32)
        ensures
            o == self.spec_offset(),
    {
        self.offset
    }

    /// Read the value of the field from a data word
    pub fn get<T: Word>(&self, word: &T) -> (v: u8)
        requires
            self.spec_offset() < 16,
        ensures
            v == field_value(self.spec_mask(), self.spec_offset(), word.spec_value()),
    {
        let value = word.as_value() & self.mask;
        (value >> self.offset) as u8
    }

    /// Write the value of the field to a data word
    pub fn set<T: Word>(&self, word: &mut T, value: u8)
        requires
            self.spec_offset() < 16,
        ensures
            final(word).spec_value() == field_update(
                self.spec_mask(),
                self.spec_offset(),
                old(word).spec_value(),
                value,
            ),
            final(word).spec_parity() == parity_of(final(word).spec_value()),
    {
        let value = (value as u16) << self.offset;
        let data = word.as_value() & !self.mask;
        word.set_value(data | (value & self.mask));
    }
}


/// Mask for parsing the terminal address of a command word.
pub const COMMAND_ADDRESS: u16 = 0b1111100000000000;

/// Field definition for the terminal address of a command word.
pub(crate) fn command_address_field() -> (f: Field)
    ensures
        f.spec_mask() == COMMAND_ADDRESS,
        f.spec_offset() == 11,
{
    Field { mask: COMMAND_ADDRESS, offset: 11 }
}

/// Mask for parsing the transmit/receive flag of a command word.
pub const COMMAND_TRANSMIT_RECEIVE: u16 = 0b0000010000000000;

/// Field definition for the transmit/receive flag of a command word.
pub(crate) fn command_transmit_receive_field() -> (f: Field)
    ensures
        f.spec_mask() == COMMAND_TRANSMIT_RECEIVE,
        f.spec_offset() == 10,
{
    Field { mask: COMMAND_TRANSMIT_RECEIVE, offset: 10 }
}

/// Mask for parsing the terminal subaddress of a command word.
pub const COMMAND_SUBADDRESS: u16 = 0b0000001111100000;

/// Field definition for the terminal subaddress of a command word.
pub(crate) fn command_subaddress_field() -> (f: Field)
    ensures
        f.spec_mask() == COMMAND_SUBADDRESS,
        f.spec_offset() == 5,
{
    Field { mask: COMMAND_SUBADDRESS, offset: 5 }
}

/// Mask for parsing the mode code of a command word.
pub const COMMAND_MODE_CODE: u16 = 0b0000000000011111;

/// Field definition for the mode code of a command word.
pub(crate) fn command_mode_code_field() -> (f: Field)
    ensures
        f.spec_mask() == COMMAND_MODE_CODE,
        f.spec_offset() == 0,
{
    Field { mask: COMMAND_MODE_CODE, offset: 0 }
}

/// Mask for parsing the word count of a command word.
pub const COMMAND_WORD_COUNT: u16 = 0b0000000000011111;

/// Field definition for the word count of a command word.
pub(crate) fn command_word_count_field() -> (f: Field)
    ensures
        f.spec_mask() == COMMAND_WORD_COUNT,
        f.spec_offset() == 0,
{
    Field { mask: COMMAND_WORD_COUNT, offset: 0 }
}

/// Mask for parsing the terminal address of a status word.
pub const STATUS_ADDRESS: u16 = 0b1111100000000000;

/// Field definition for the terminal address of a status word.
pub(crate) fn status_address_field() -> (f: Field)
    ensures
        f.spec_mask() == STATUS_ADDRESS,
        f.spec_offset() == 11,
{
    Field { mask: STATUS_ADDRESS, offset: 11 }
}

/// Mask for parsing the error flag of a status word.
pub const STATUS_MESSAGE_ERROR: u16 = 0b0000010000000000;

/// Field definition for the error flag of a status word.
pub(crate) fn status_message_error_field() -> (f: Field)
    ensures
        f.spec_mask() == STATUS_MESSAGE_ERROR,
        f.spec_offset() == 10,
{
    Field { mask: STATUS_MESSAGE_ERROR, offset: 10 }
}

/// Mask for parsing the instrumentation flag of a status word.
pub const STATUS_INSTRUMENTATION: u16 = 0b0000001000000000;

/// Field definition for the instrumentation flag of a status word.
pub(crate) fn status_instrumentation_field() -> (f: Field)
    ensures
        f.spec_mask() == STATUS_INSTRUMENTATION,
        f.spec_offset() == 9,
{
    Field { mask: STATUS_INSTRUMENTATION, offset: 9 }
}

/// Mask for parsing the service request flag of a status word.
pub const STATUS_SERVICE_REQUEST: u16 = 0b0000000100000000;

/// Field definition for the service request flag of a status word.
pub(crate) fn status_service_request_field() -> (f: Field)
    ensures
        f.spec_mask() == STATUS_SERVICE_REQUEST,
        f.spec_offset() == 8,
{
    Field { mask: STATUS_SERVICE_REQUEST, offset: 8 }
}

/// Mask for parsing the reserved bits of a status word.
pub const STATUS_RESERVED: u16 = 0b0000000011100000;

/// Field definition for the reserved bits of a status word.
pub(crate) fn status_reserved_field() -> (f: Field)
    ensures
        f.spec_mask() == STATUS_RESERVED,
        f.spec_offset() == 5,
{
    Field { mask: STATUS_RESERVED, offset: 5 }
}

/// Mask for parsing the broadcast received flag of a status word.
pub const STATUS_BROADCAST_RECEIVED: u16 = 0b0000000000010000;

/// Field definition for the broadcast received flag of a status word.
pub(crate) fn status_broadcast_received_field() -> (f: Field)
    ensures
        f.spec_mask() == STATUS_BROADCAST_RECEIVED,
        f.spec_offset() == 4,
{
    Field { mask: STATUS_BROADCAST_RECEIVED, offset: 4 }
}

/// Mask for parsing the busy flag of the status word.
pub const STATUS_TERMINAL_BUSY: u16 = 0b0000000000001000;

/// Field definition for the busy flag of the status word.
pub(crate) fn status_terminal_busy_field() -> (f: Field)
    ensures
        f.spec_mask() == STATUS_TERMINAL_BUSY,
        f.spec_offset() == 3,
{
    Field { mask: STATUS_TERMINAL_BUSY, offset: 3 }
}

/// Mask for parsing the subsystem flag of the status word.
pub const STATUS_SUBSYSTEM_ERROR: u16 = 0b0000000000000100;

/// Field definition for the subsystem flag of the status word.
pub(crate) fn status_subsystem_error_field() -> (f: Field)
    ensures
        f.spec_mask() == STATUS_SUBSYSTEM_ERROR,
        f.spec_offset() == 2,
{
    Field { mask: STATUS_SUBSYSTEM_ERROR, offset: 2 }
}

/// Mask for parsing the bus control accept flag of the status word.
pub const STATUS_DYNAMIC_BUS_ACCEPTANCE: u16 = 0b0000000000000010;

/// Field definition for the bus control accept flag of the status word.
pub(crate) fn status_dynamic_bus_acceptance_field() -> (f: Field)
    ensures
        f.spec_mask() == STATUS_DYNAMIC_BUS_ACCEPTANCE,
        f.spec_offset() == 1,
{
    Field { mask: STATUS_DYNAMIC_BUS_ACCEPTANCE, offset: 1 }
}

/// Mask for parsing the terminal flag of the status word.
pub const STATUS_TERMINAL_ERROR: u16 = 0b0000000000000001;

/// Field definition for the terminal flag of the status word.
pub(crate) fn status_terminal_error_field() -> (f: Field)
    ensures
        f.spec_mask() == STATUS_TERMINAL_ERROR,
        f.spec_offset() == 0,
{
    Field { mask: STATUS_TERMINAL_ERROR, offset: 0 }
}


/// Reading a field of a word gives back what was last written to it, cut to
/// the bits of the mask, and writing a field leaves the bits of the word
/// outside the mask as they were. This holds of every field whose offset is
/// less than 16, whatever its mask.
pub proof fn law_field_write_read(field: Field, word: u16, value: u8)
    requires
        field.spec_offset() < 16,
    ensures
        field_value(
            field.spec_mask(),
            field.spec_offset(),
            field_update(field.spec_mask(), field.spec_offset(), word, value),
        ) == value & ((field.spec_mask() >> field.spec_offset()) as u8),
        field_update(field.spec_mask(), field.spec_offset(), word, value) & !field.spec_mask()
            == word & !field.spec_mask(),
{
    let mask = field.spec_mask();
    let offset = field.spec_offset();
    assert(field_value(mask, offset, field_update(mask, offset, word, value)) == value & ((mask
        >> offset) as u8)) by (bit_vector)
        requires
            offset < 16,
    ;
    assert(field_update(mask, offset, word, value) & !mask == word & !mask) by (bit_vector);
}

/// The fields of the command and status words: reading one gives back what
/// was last written to it, cut to its width, and writing it leaves the other
/// bits of the word as they were.
pub(crate) proof fn lemma_field_write_read(mask: u16, offset: u32, width: u8, word: u16, value: u8)
    by (bit_vector)
    requires
        ({
            ||| mask == 0b1111100000000000 && offset == 11 && width == 31
            ||| mask == 0b0000010000000000 && offset == 10 && width == 1
            ||| mask == 0b0000001111100000 && offset == 5 && width == 31
            ||| mask == 0b0000000000011111 && offset == 0 && width == 31
            ||| mask == 0b0000001000000000 && offset == 9 && width == 1
            ||| mask == 0b0000000100000000 && offset == 8 && width == 1
            ||| mask == 0b0000000011100000 && offset == 5 && width == 7
            ||| mask == 0b0000000000010000 && offset == 4 && width == 1
            ||| mask == 0b0000000000001000 && offset == 3 && width == 1
            ||| mask == 0b0000000000000100 && offset == 2 && width == 1
            ||| mask == 0b0000000000000010 && offset == 1 && width == 1
            ||| mask == 0b0000000000000001 && offset == 0 && width == 1
        }),
    ensures
        field_value(mask, offset, field_update(mask, offset, word, value)) == value & width,
        field_update(mask, offset, word, value) & !mask == word & !mask,
{
}
} // verus!
