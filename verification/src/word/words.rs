//! The command, status and data words

use vstd::prelude::*;
use vstd::string::StringSliceAdditionalSpecFns;

use crate::errors::{count_ones, parity, parity_of, Error, MessageError, Result, SubsystemError, TerminalError};
use crate::fields::{
    command_address_field, command_mode_code_field, command_subaddress_field,
    command_transmit_receive_field, command_word_count_field, field_update, field_value,
    lemma_field_write_read, status_address_field, status_broadcast_received_field,
    status_dynamic_bus_acceptance_field, status_instrumentation_field, status_message_error_field,
    status_reserved_field, status_service_request_field, status_subsystem_error_field,
    status_terminal_busy_field, status_terminal_error_field, COMMAND_ADDRESS, COMMAND_MODE_CODE,
    COMMAND_SUBADDRESS, COMMAND_TRANSMIT_RECEIVE, COMMAND_WORD_COUNT, STATUS_ADDRESS,
    STATUS_BROADCAST_RECEIVED, STATUS_DYNAMIC_BUS_ACCEPTANCE, STATUS_INSTRUMENTATION,
    STATUS_MESSAGE_ERROR, STATUS_RESERVED, STATUS_SERVICE_REQUEST, STATUS_SUBSYSTEM_ERROR,
    STATUS_TERMINAL_BUSY, STATUS_TERMINAL_ERROR,
};
use crate::flags::{
    Address, BroadcastReceived, DynamicBusAcceptance, Instrumentation, ModeCode, Reserved,
    ServiceRequest, SubAddress, TerminalBusy, TransmitReceive,
};
use crate::message::Packet;
use crate::word::{be_value, high_byte, low_byte, Header, Word, WordType};

verus! {

/// Specifies the function that a remote terminal is to perform
///
/// This word is parsed from a packet that includes an initial service
/// sync flag. Only the active bus controller emits this word.
#[derive(Debug, Clone, Copy, PartialEq, Eq)]
pub struct CommandWord {
    /// Data of the word
    data: [u8; 2],
    /// Parity of the word
    parity: u8,
}

/// Sent in response to a valid message from the bus controller
///
/// This word is parsed from a packet that includes an initial service
/// sync flag. Status words are only transmitted by a remote terminal
/// in response to a message from the bus controller.
#[derive(Debug, Clone, Copy, PartialEq, Eq)]
pub struct StatusWord {
    /// Data of the word
    data: [u8; 2],
    /// Parity of the word
    parity: u8,
}

/// Contains data that is being transmitted in a message.
///
/// This word is parsed from a packet that includes an initial data
/// sync flag. Data words can be transmitted by either a remote terminal
/// (transmit command) or a bus controller (receive command) and contain
/// two bytes of data each.
#[derive(Debug, Clone, Copy, PartialEq, Eq)]
pub struct DataWord {
    /// Data of the word
    data: [u8; 2],
    /// Parity of the word
    parity: u8,
}

impl CommandWord {
    /// Get the terminal address of this word
    pub fn address(&self) -> (r: Address)
        ensures
            r == Address::spec_from_u8(field_value(COMMAND_ADDRESS, 11, self.spec_value())),
    {
        Address::from(command_address_field().get(self))
    }

    /// Set the terminal address of this word
    pub fn set_address(&mut self, value: Address)
        ensures
            final(self).spec_value() == field_update(COMMAND_ADDRESS, 11, old(self).spec_value(), value.spec_into_u8()),
            final(self).spec_parity() == parity_of(final(self).spec_value()),
    {
        command_address_field().set(self, u8::from(value));
    }

    /// Constructor method to set the terminal address
    pub fn with_address(self, value: Address) -> (r: Self)
        ensures
            r.spec_value() == field_update(COMMAND_ADDRESS, 11, self.spec_value(), value.spec_into_u8()),
            r.spec_parity() == parity_of(r.spec_value()),
    {
        let mut r = self;
        r.set_address(value);
        r
    }

    /// Get the subaddress of this word
    pub fn subaddress(&self) -> (r: SubAddress)
        ensures
            r == SubAddress::spec_from_u8(field_value(COMMAND_SUBADDRESS, 5, self.spec_value())),
    {
        SubAddress::from(command_subaddress_field().get(self))
    }

    /// Set the subaddress of this word
    pub fn set_subaddress(&mut self, value: SubAddress)
        ensures
            final(self).spec_value() == field_update(COMMAND_SUBADDRESS, 5, old(self).spec_value(), value.spec_into_u8()),
            final(self).spec_parity() == parity_of(final(self).spec_value()),
    {
        command_subaddress_field().set(self, u8::from(value));
    }

    /// Constructor method to set the subaddress
    pub fn with_subaddress(self, value: SubAddress) -> (r: Self)
        ensures
            r.spec_value() == field_update(COMMAND_SUBADDRESS, 5, self.spec_value(), value.spec_into_u8()),
            r.spec_parity() == parity_of(r.spec_value()),
    {
        let mut r = self;
        r.set_subaddress(value);
        r
    }

    /// Get the direction of transmission of this word
    pub fn transmit_receive(&self) -> (r: TransmitReceive)
        ensures
            r == TransmitReceive::spec_from_u8(field_value(COMMAND_TRANSMIT_RECEIVE, 10, self.spec_value())),
    {
        TransmitReceive::from(command_transmit_receive_field().get(self))
    }

    /// Set the direction of transmission of this word
    pub fn set_transmit_receive(&mut self, value: TransmitReceive)
        ensures
            final(self).spec_value() == field_update(COMMAND_TRANSMIT_RECEIVE, 10, old(self).spec_value(), value.spec_into_u8()),
            final(self).spec_parity() == parity_of(final(self).spec_value()),
    {
        command_transmit_receive_field().set(self, u8::from(value));
    }

    /// Constructor method to set the direction of transmission
    pub fn with_transmit_receive(self, value: TransmitReceive) -> (r: Self)
        ensures
            r.spec_value() == field_update(COMMAND_TRANSMIT_RECEIVE, 10, self.spec_value(), value.spec_into_u8()),
            r.spec_parity() == parity_of(r.spec_value()),
    {
        let mut r = self;
        r.set_transmit_receive(value);
        r
    }

    /// Get the mode code of this word
    pub fn mode_code(&self) -> (r: ModeCode)
        ensures
            r == ModeCode::spec_from_u8(field_value(COMMAND_MODE_CODE, 0, self.spec_value())),
    {
        ModeCode::from(command_mode_code_field().get(self))
    }

    /// Set the mode code of this word
    pub fn set_mode_code(&mut self, value: ModeCode)
        ensures
            final(self).spec_value() == field_update(COMMAND_MODE_CODE, 0, old(self).spec_value(), value.spec_into_u8()),
            final(self).spec_parity() == parity_of(final(self).spec_value()),
    {
        command_mode_code_field().set(self, u8::from(value));
    }

    /// Constructor method to set the mode code
    pub fn with_mode_code(self, value: ModeCode) -> (r: Self)
        ensures
            r.spec_value() == field_update(COMMAND_MODE_CODE, 0, self.spec_value(), value.spec_into_u8()),
            r.spec_parity() == parity_of(r.spec_value()),
    {
        let mut r = self;
        r.set_mode_code(value);
        r
    }

    /// The number of data words a word count field value stands for
    pub open spec fn spec_word_count(field: u8) -> u8 {
        if field == 0 {
            32
        } else {
            field
        }
    }

    /// Get the number of data words associated with this word
    ///
    /// The word count is a value between 1 and 32 in command words
    /// that are not mode code commands; a field value of 0 stands for 32.
    pub fn word_count(&self) -> (r: u8)
        ensures
            r == Self::spec_word_count(field_value(COMMAND_WORD_COUNT, 0, self.spec_value())),
    {
        match command_word_count_field().get(self) {
            0 => 32,
            k => k,
        }
    }

    /// Set the number of data words associated with this command
    ///
    /// Setting this field to `0` will indicate 32 data words. Any
    /// value given greater than 31 will be converted to `0`.
    pub fn set_word_count(&mut self, value: u8)
        ensures
            final(self).spec_value() == field_update(
                COMMAND_WORD_COUNT,
                0,
                old(self).spec_value(),
                if value > 31 { 0u8 } else { value },
            ),
            final(self).spec_parity() == parity_of(final(self).spec_value()),
    {
        let mut value = value;
        if value > 31 {
            value = 0;
        }
        command_word_count_field().set(self, value);
    }

    /// Constructor method to set the number of data words
    pub fn with_word_count(self, value: u8) -> (r: Self)
        ensures
            r.spec_value() == field_update(
                COMMAND_WORD_COUNT,
                0,
                self.spec_value(),
                if value > 31 { 0u8 } else { value },
            ),
            r.spec_parity() == parity_of(r.spec_value()),
    {
        let mut r = self;
        r.set_word_count(value);
        r
    }

    /// Check if this word contains a mode code value
    pub fn is_mode_code(&self) -> (r: bool)
        ensures
            r == (SubAddress::spec_from_u8(field_value(COMMAND_SUBADDRESS, 5, self.spec_value())) is ModeCode),
    {
        self.subaddress().is_mode_code()
    }

    /// Check if this word is being transmitted to a terminal
    pub fn is_transmit(&self) -> (r: bool)
        ensures
            r == (field_value(COMMAND_TRANSMIT_RECEIVE, 10, self.spec_value()) != 0),
    {
        self.transmit_receive().is_transmit()
    }

    /// Check if this word is being received by a terminal
    pub fn is_receive(&self) -> (r: bool)
        ensures
            r == (field_value(COMMAND_TRANSMIT_RECEIVE, 10, self.spec_value()) == 0),
    {
        self.transmit_receive().is_receive()
    }

    /// Get the data word count of the command word
    pub fn count(&self) -> (r: usize)
        ensures
            r == Self::spec_word_count(field_value(COMMAND_WORD_COUNT, 0, self.spec_value())),
    {
        self.word_count() as usize
    }
}

impl StatusWord {
    /// Get the terminal address of this word
    pub fn address(&self) -> (r: Address)
        ensures
            r == Address::spec_from_u8(field_value(STATUS_ADDRESS, 11, self.spec_value())),
    {
        Address::from(status_address_field().get(self))
    }

    /// Set the terminal address of this word
    pub fn set_address(&mut self, value: Address)
        ensures
            final(self).spec_value() == field_update(STATUS_ADDRESS, 11, old(self).spec_value(), value.spec_into_u8()),
            final(self).spec_parity() == parity_of(final(self).spec_value()),
    {
        status_address_field().set(self, u8::from(value));
    }

    /// Constructor method to set the terminal address
    pub fn with_address(self, value: Address) -> (r: Self)
        ensures
            r.spec_value() == field_update(STATUS_ADDRESS, 11, self.spec_value(), value.spec_into_u8()),
            r.spec_parity() == parity_of(r.spec_value()),
    {
        let mut r = self;
        r.set_address(value);
        r
    }

    /// Get the instrumentation flag of this word
    pub fn instrumentation(&self) -> (r: Instrumentation)
        ensures
            r == Instrumentation::spec_from_u8(field_value(STATUS_INSTRUMENTATION, 9, self.spec_value())),
    {
        Instrumentation::from(status_instrumentation_field().get(self))
    }

    /// Set the instrumentation flag of this word
    pub fn set_instrumentation(&mut self, value: Instrumentation)
        ensures
            final(self).spec_value() == field_update(STATUS_INSTRUMENTATION, 9, old(self).spec_value(), value.spec_into_u8()),
            final(self).spec_parity() == parity_of(final(self).spec_value()),
    {
        status_instrumentation_field().set(self, u8::from(value));
    }

    /// Constructor method to set the instrumentation flag
    pub fn with_instrumentation(self, value: Instrumentation) -> (r: Self)
        ensures
            r.spec_value() == field_update(STATUS_INSTRUMENTATION, 9, self.spec_value(), value.spec_into_u8()),
            r.spec_parity() == parity_of(r.spec_value()),
    {
        let mut r = self;
        r.set_instrumentation(value);
        r
    }

    /// Get the service request flag of this word
    pub fn service_request(&self) -> (r: ServiceRequest)
        ensures
            r == ServiceRequest::spec_from_u8(field_value(STATUS_SERVICE_REQUEST, 8, self.spec_value())),
    {
        ServiceRequest::from(status_service_request_field().get(self))
    }

    /// Set the service request flag of this word
    pub fn set_service_request(&mut self, value: ServiceRequest)
        ensures
            final(self).spec_value() == field_update(STATUS_SERVICE_REQUEST, 8, old(self).spec_value(), value.spec_into_u8()),
            final(self).spec_parity() == parity_of(final(self).spec_value()),
    {
        status_service_request_field().set(self, u8::from(value));
    }

    /// Constructor method to set the service request flag
    pub fn with_service_request(self, value: ServiceRequest) -> (r: Self)
        ensures
            r.spec_value() == field_update(STATUS_SERVICE_REQUEST, 8, self.spec_value(), value.spec_into_u8()),
            r.spec_parity() == parity_of(r.spec_value()),
    {
        let mut r = self;
        r.set_service_request(value);
        r
    }

    /// Get the reserved bits of this word
    pub fn reserved(&self) -> (r: Reserved)
        ensures
            r == Reserved::spec_from_u8(field_value(STATUS_RESERVED, 5, self.spec_value())),
    {
        Reserved::from(status_reserved_field().get(self))
    }

    /// Set the reserved bits of this word
    pub fn set_reserved(&mut self, value: Reserved)
        ensures
            final(self).spec_value() == field_update(STATUS_RESERVED, 5, old(self).spec_value(), value.spec_into_u8()),
            final(self).spec_parity() == parity_of(final(self).spec_value()),
    {
        status_reserved_field().set(self, u8::from(value));
    }

    /// Constructor method to set the reserved bits
    pub fn with_reserved(self, value: Reserved) -> (r: Self)
        ensures
            r.spec_value() == field_update(STATUS_RESERVED, 5, self.spec_value(), value.spec_into_u8()),
            r.spec_parity() == parity_of(r.spec_value()),
    {
        let mut r = self;
        r.set_reserved(value);
        r
    }

    /// Get the broadcast received flag of this word
    pub fn broadcast_received(&self) -> (r: BroadcastReceived)
        ensures
            r == BroadcastReceived::spec_from_u8(field_value(STATUS_BROADCAST_RECEIVED, 4, self.spec_value())),
    {
        BroadcastReceived::from(status_broadcast_received_field().get(self))
    }

    /// Set the broadcast received flag of this word
    pub fn set_broadcast_received(&mut self, value: BroadcastReceived)
        ensures
            final(self).spec_value() == field_update(STATUS_BROADCAST_RECEIVED, 4, old(self).spec_value(), value.spec_into_u8()),
            final(self).spec_parity() == parity_of(final(self).spec_value()),
    {
        status_broadcast_received_field().set(self, u8::from(value));
    }

    /// Constructor method to set the broadcast received flag
    pub fn with_broadcast_received(self, value: BroadcastReceived) -> (r: Self)
        ensures
            r.spec_value() == field_update(STATUS_BROADCAST_RECEIVED, 4, self.spec_value(), value.spec_into_u8()),
            r.spec_parity() == parity_of(r.spec_value()),
    {
        let mut r = self;
        r.set_broadcast_received(value);
        r
    }

    /// Get the busy flag of this word
    pub fn terminal_busy(&self) -> (r: TerminalBusy)
        ensures
            r == TerminalBusy::spec_from_u8(field_value(STATUS_TERMINAL_BUSY, 3, self.spec_value())),
    {
        TerminalBusy::from(status_terminal_busy_field().get(self))
    }

    /// Set the busy flag of this word
    pub fn set_terminal_busy(&mut self, value: TerminalBusy)
        ensures
            final(self).spec_value() == field_update(STATUS_TERMINAL_BUSY, 3, old(self).spec_value(), value.spec_into_u8()),
            final(self).spec_parity() == parity_of(final(self).spec_value()),
    {
        status_terminal_busy_field().set(self, u8::from(value));
    }

    /// Constructor method to set the busy flag
    pub fn with_terminal_busy(self, value: TerminalBusy) -> (r: Self)
        ensures
            r.spec_value() == field_update(STATUS_TERMINAL_BUSY, 3, self.spec_value(), value.spec_into_u8()),
            r.spec_parity() == parity_of(r.spec_value()),
    {
        let mut r = self;
        r.set_terminal_busy(value);
        r
    }

    /// Get the dynamic bus control acceptance flag of this word
    pub fn dynamic_bus_acceptance(&self) -> (r: DynamicBusAcceptance)
        ensures
            r == DynamicBusAcceptance::spec_from_u8(field_value(STATUS_DYNAMIC_BUS_ACCEPTANCE, 1, self.spec_value())),
    {
        DynamicBusAcceptance::from(status_dynamic_bus_acceptance_field().get(self))
    }

    /// Set the dynamic bus control acceptance flag of this word
    pub fn set_dynamic_bus_acceptance(&mut self, value: DynamicBusAcceptance)
        ensures
            final(self).spec_value() == field_update(STATUS_DYNAMIC_BUS_ACCEPTANCE, 1, old(self).spec_value(), value.spec_into_u8()),
            final(self).spec_parity() == parity_of(final(self).spec_value()),
    {
        status_dynamic_bus_acceptance_field().set(self, u8::from(value));
    }

    /// Constructor method to set the dynamic bus control acceptance flag
    pub fn with_dynamic_bus_acceptance(self, value: DynamicBusAcceptance) -> (r: Self)
        ensures
            r.spec_value() == field_update(STATUS_DYNAMIC_BUS_ACCEPTANCE, 1, self.spec_value(), value.spec_into_u8()),
            r.spec_parity() == parity_of(r.spec_value()),
    {
        let mut r = self;
        r.set_dynamic_bus_acceptance(value);
        r
    }

    /// Get the message error flag of this word
    pub fn message_error(&self) -> (r: MessageError)
        ensures
            r == MessageError::spec_from_u8(field_value(STATUS_MESSAGE_ERROR, 10, self.spec_value())),
    {
        MessageError::from(status_message_error_field().get(self))
    }

    /// Set the message error flag of this word
    pub fn set_message_error(&mut self, value: MessageError)
        ensures
            final(self).spec_value() == field_update(STATUS_MESSAGE_ERROR, 10, old(self).spec_value(), value.spec_into_u8()),
            final(self).spec_parity() == parity_of(final(self).spec_value()),
    {
        status_message_error_field().set(self, u8::from(value));
    }

    /// Constructor method to set the message error flag
    pub fn with_message_error(self, value: MessageError) -> (r: Self)
        ensures
            r.spec_value() == field_update(STATUS_MESSAGE_ERROR, 10, self.spec_value(), value.spec_into_u8()),
            r.spec_parity() == parity_of(r.spec_value()),
    {
        let mut r = self;
        r.set_message_error(value);
        r
    }

    /// Get the subsystem error flag of this word
    pub fn subsystem_error(&self) -> (r: SubsystemError)
        ensures
            r == SubsystemError::spec_from_u8(field_value(STATUS_SUBSYSTEM_ERROR, 2, self.spec_value())),
    {
        SubsystemError::from(status_subsystem_error_field().get(self))
    }

    /// Set the subsystem error flag of this word
    pub fn set_subsystem_error(&mut self, value: SubsystemError)
        ensures
            final(self).spec_value() == field_update(STATUS_SUBSYSTEM_ERROR, 2, old(self).spec_value(), value.spec_into_u8()),
            final(self).spec_parity() == parity_of(final(self).spec_value()),
    {
        status_subsystem_error_field().set(self, u8::from(value));
    }

    /// Constructor method to set the subsystem error flag
    pub fn with_subsystem_error(self, value: SubsystemError) -> (r: Self)
        ensures
            r.spec_value() == field_update(STATUS_SUBSYSTEM_ERROR, 2, self.spec_value(), value.spec_into_u8()),
            r.spec_parity() == parity_of(r.spec_value()),
    {
        let mut r = self;
        r.set_subsystem_error(value);
        r
    }

    /// Get the terminal error flag of this word
    pub fn terminal_error(&self) -> (r: TerminalError)
        ensures
            r == TerminalError::spec_from_u8(field_value(STATUS_TERMINAL_ERROR, 0, self.spec_value())),
    {
        TerminalError::from(status_terminal_error_field().get(self))
    }

    /// Set the terminal error flag of this word
    pub fn set_terminal_error(&mut self, value: TerminalError)
        ensures
            final(self).spec_value() == field_update(STATUS_TERMINAL_ERROR, 0, old(self).spec_value(), value.spec_into_u8()),
            final(self).spec_parity() == parity_of(final(self).spec_value()),
    {
        status_terminal_error_field().set(self, u8::from(value));
    }

    /// Constructor method to set the terminal error flag
    pub fn with_terminal_error(self, value: TerminalError) -> (r: Self)
        ensures
            r.spec_value() == field_update(STATUS_TERMINAL_ERROR, 0, self.spec_value(), value.spec_into_u8()),
            r.spec_parity() == parity_of(r.spec_value()),
    {
        let mut r = self;
        r.set_terminal_error(value);
        r
    }

    /// Check if any of the error flags are set
    pub fn is_error(&self) -> (r: bool)
        ensures
            r == (field_value(STATUS_MESSAGE_ERROR, 10, self.spec_value()) == 1
                || field_value(STATUS_SUBSYSTEM_ERROR, 2, self.spec_value()) == 1
                || field_value(STATUS_TERMINAL_ERROR, 0, self.spec_value()) == 1),
    {
        self.message_error().is_error() || self.subsystem_error().is_error()
            || self.terminal_error().is_error()
    }

    /// Check if the busy flag is set
    pub fn is_busy(&self) -> (r: bool)
        ensures
            r == (field_value(STATUS_TERMINAL_BUSY, 3, self.spec_value()) != 0),
    {
        self.terminal_busy().is_busy()
    }
}

impl Header for CommandWord {
    open spec fn spec_count(&self) -> Option<usize> {
        Some(Self::spec_word_count(field_value(COMMAND_WORD_COUNT, 0, self.spec_value())) as usize)
    }

    fn count(&self) -> (r: Option<usize>) {
        Some(self.word_count() as usize)
    }
}

impl Header for StatusWord {
    open spec fn spec_count(&self) -> Option<usize> {
        None
    }

    fn count(&self) -> (r: Option<usize>) {
        None
    }
}

impl Word for CommandWord {
    closed spec fn spec_value(&self) -> u16 {
        be_value(self.data)
    }

    closed spec fn spec_parity(&self) -> u8 {
        self.parity
    }

    open spec fn spec_word_type(&self) -> WordType {
        WordType::Command(*self)
    }

    fn new() -> (w: Self) {
        Self { data: [0, 0], parity: 1 }
    }

    fn with_value(self, data: u16) -> (w: Self) {
        let mut w = self;
        w.set_value(data);
        w
    }

    fn with_bytes(self, data: [u8; 2]) -> (w: Self) {
        let mut w = self;
        w.set_bytes(data);
        w
    }

    fn with_parity(self, parity: u8) -> (w: Self) {
        let mut w = self;
        w.set_parity(parity);
        w
    }

    fn with_calculated_parity(self) -> (w: Self) {
        let mut w = self;
        w.parity = w.calculate_parity();
        w
    }

    fn build(self) -> (r: Result<Self>) {
        if self.check_parity() {
            Ok(self)
        } else {
            Err(Error::WordIsInvalid)
        }
    }

    fn from_value(data: u16) -> (w: Self) {
        Self::new().with_value(data).with_calculated_parity()
    }

    fn from_bytes(data: [u8; 2]) -> (w: Self) {
        Self::new().with_bytes(data)
    }

    fn as_bytes(&self) -> (b: [u8; 2]) {
        self.data
    }

    fn as_value(&self) -> (v: u16) {
        (self.data[0] as u16) * 256 + (self.data[1] as u16)
    }

    fn set_value(&mut self, data: u16) {
        self.data = [(data / 256) as u8, (data % 256) as u8];
        self.parity = parity(data);
    }

    fn set_bytes(&mut self, data: [u8; 2]) {
        self.data = data;
        self.parity = self.calculate_parity();
    }

    fn parity(&self) -> (p: u8) {
        self.parity
    }

    fn set_parity(&mut self, parity: u8) {
        self.parity = parity;
    }

    fn calculate_parity(&self) -> (p: u8) {
        parity(self.as_value())
    }

    fn check_parity(&self) -> (r: bool) {
        self.parity() == self.calculate_parity()
    }

    fn into_word_type(self) -> (r: WordType) {
        WordType::Command(self)
    }
}

impl Word for StatusWord {
    closed spec fn spec_value(&self) -> u16 {
        be_value(self.data)
    }

    closed spec fn spec_parity(&self) -> u8 {
        self.parity
    }

    open spec fn spec_word_type(&self) -> WordType {
        WordType::Status(*self)
    }

    fn new() -> (w: Self) {
        Self { data: [0, 0], parity: 1 }
    }

    fn with_value(self, data: u16) -> (w: Self) {
        let mut w = self;
        w.set_value(data);
        w
    }

    fn with_bytes(self, data: [u8; 2]) -> (w: Self) {
        let mut w = self;
        w.set_bytes(data);
        w
    }

    fn with_parity(self, parity: u8) -> (w: Self) {
        let mut w = self;
        w.set_parity(parity);
        w
    }

    fn with_calculated_parity(self) -> (w: Self) {
        let mut w = self;
        w.parity = w.calculate_parity();
        w
    }

    fn build(self) -> (r: Result<Self>) {
        if self.check_parity() {
            Ok(self)
        } else {
            Err(Error::WordIsInvalid)
        }
    }

    fn from_value(data: u16) -> (w: Self) {
        Self::new().with_value(data)
    }

    fn from_bytes(data: [u8; 2]) -> (w: Self) {
        Self::new().with_bytes(data)
    }

    fn as_bytes(&self) -> (b: [u8; 2]) {
        self.data
    }

    fn as_value(&self) -> (v: u16) {
        (self.data[0] as u16) * 256 + (self.data[1] as u16)
    }

    fn set_value(&mut self, data: u16) {
        self.data = [(data / 256) as u8, (data % 256) as u8];
        self.parity = parity(data);
    }

    fn set_bytes(&mut self, data: [u8; 2]) {
        self.data = data;
        self.parity = self.calculate_parity();
    }

    fn parity(&self) -> (p: u8) {
        self.parity
    }

    fn set_parity(&mut self, parity: u8) {
        self.parity = parity;
    }

    fn calculate_parity(&self) -> (p: u8) {
        parity(self.as_value())
    }

    fn check_parity(&self) -> (r: bool) {
        self.parity() == self.calculate_parity()
    }

    fn into_word_type(self) -> (r: WordType) {
        WordType::Status(self)
    }
}

impl Word for DataWord {
    closed spec fn spec_value(&self) -> u16 {
        be_value(self.data)
    }

    closed spec fn spec_parity(&self) -> u8 {
        self.parity
    }

    open spec fn spec_word_type(&self) -> WordType {
        WordType::Data(*self)
    }

    fn new() -> (w: Self) {
        Self { data: [0, 0], parity: 1 }
    }

    fn with_value(self, data: u16) -> (w: Self) {
        let mut w = self;
        w.set_value(data);
        w
    }

    fn with_bytes(self, data: [u8; 2]) -> (w: Self) {
        let mut w = self;
        w.set_bytes(data);
        w
    }

    fn with_parity(self, parity: u8) -> (w: Self) {
        let mut w = self;
        w.set_parity(parity);
        w
    }

    fn with_calculated_parity(self) -> (w: Self) {
        let mut w = self;
        w.parity = w.calculate_parity();
        w
    }

    fn build(self) -> (r: Result<Self>) {
        if self.check_parity() {
            Ok(self)
        } else {
            Err(Error::WordIsInvalid)
        }
    }

    fn from_value(data: u16) -> (w: Self) {
        Self::new().with_value(data)
    }

    fn from_bytes(data: [u8; 2]) -> (w: Self) {
        Self::new().with_bytes(data)
    }

    fn as_bytes(&self) -> (b: [u8; 2]) {
        self.data
    }

    fn as_value(&self) -> (v: u16) {
        (self.data[0] as u16) * 256 + (self.data[1] as u16)
    }

    fn set_value(&mut self, data: u16) {
        self.data = [(data / 256) as u8, (data % 256) as u8];
        self.parity = parity(data);
    }

    fn set_bytes(&mut self, data: [u8; 2]) {
        self.data = data;
        self.parity = self.calculate_parity();
    }

    fn parity(&self) -> (p: u8) {
        self.parity
    }

    fn set_parity(&mut self, parity: u8) {
        self.parity = parity;
    }

    fn calculate_parity(&self) -> (p: u8) {
        parity(self.as_value())
    }

    fn check_parity(&self) -> (r: bool) {
        self.parity() == self.calculate_parity()
    }

    fn into_word_type(self) -> (r: WordType) {
        WordType::Data(self)
    }
}


/// A value below 32 is unchanged by the five bit mask, a value below 8 by
/// the three bit mask, and a value below 2 by the one bit mask.
proof fn lemma_small_values_fit(v: u8)
    by (bit_vector)
    ensures
        v < 32 ==> v & 31 == v,
        v < 8 ==> v & 7 == v,
        v < 2 ==> v & 1 == v,
{
}

/// Writing the terminal address of a command word and reading it back gives the
/// value written for every canonical value, and the write leaves the other bits of the word unchanged.
pub proof fn law_command_address_write_read(word: CommandWord, value: Address)
    requires
        value.spec_is_canonical(),
    ensures
        Address::spec_from_u8(
            field_value(COMMAND_ADDRESS, 11, field_update(COMMAND_ADDRESS, 11, word.spec_value(), value.spec_into_u8())),
        ) == value,
        field_update(COMMAND_ADDRESS, 11, word.spec_value(), value.spec_into_u8()) & !COMMAND_ADDRESS == word.spec_value() & !COMMAND_ADDRESS,
{
    lemma_field_write_read(COMMAND_ADDRESS, 11, 31, word.spec_value(), value.spec_into_u8());
    lemma_small_values_fit(value.spec_into_u8());
}

/// Writing the subaddress of a command word and reading it back gives the
/// value written for every canonical value, and the write leaves the other bits of the word unchanged.
pub proof fn law_command_subaddress_write_read(word: CommandWord, value: SubAddress)
    requires
        value.spec_is_canonical(),
    ensures
        SubAddress::spec_from_u8(
            field_value(COMMAND_SUBADDRESS, 5, field_update(COMMAND_SUBADDRESS, 5, word.spec_value(), value.spec_into_u8())),
        ) == value,
        field_update(COMMAND_SUBADDRESS, 5, word.spec_value(), value.spec_into_u8()) & !COMMAND_SUBADDRESS == word.spec_value() & !COMMAND_SUBADDRESS,
{
    lemma_field_write_read(COMMAND_SUBADDRESS, 5, 31, word.spec_value(), value.spec_into_u8());
    lemma_small_values_fit(value.spec_into_u8());
}

/// Writing the transmit/receive flag of a command word and reading it back gives the
/// value written, and the write leaves the other bits of the word unchanged.
pub proof fn law_command_transmit_receive_write_read(word: CommandWord, value: TransmitReceive)
    ensures
        TransmitReceive::spec_from_u8(
            field_value(COMMAND_TRANSMIT_RECEIVE, 10, field_update(COMMAND_TRANSMIT_RECEIVE, 10, word.spec_value(), value.spec_into_u8())),
        ) == value,
        field_update(COMMAND_TRANSMIT_RECEIVE, 10, word.spec_value(), value.spec_into_u8()) & !COMMAND_TRANSMIT_RECEIVE == word.spec_value() & !COMMAND_TRANSMIT_RECEIVE,
{
    lemma_field_write_read(COMMAND_TRANSMIT_RECEIVE, 10, 1, word.spec_value(), value.spec_into_u8());
    lemma_small_values_fit(value.spec_into_u8());
}

/// Writing the mode code of a command word and reading it back gives the
/// value written for every canonical value, and the write leaves the other bits of the word unchanged.
pub proof fn law_command_mode_code_write_read(word: CommandWord, value: ModeCode)
    requires
        value.spec_is_canonical(),
    ensures
        ModeCode::spec_from_u8(
            field_value(COMMAND_MODE_CODE, 0, field_update(COMMAND_MODE_CODE, 0, word.spec_value(), value.spec_into_u8())),
        ) == value,
        field_update(COMMAND_MODE_CODE, 0, word.spec_value(), value.spec_into_u8()) & !COMMAND_MODE_CODE == word.spec_value() & !COMMAND_MODE_CODE,
{
    lemma_field_write_read(COMMAND_MODE_CODE, 0, 31, word.spec_value(), value.spec_into_u8());
    lemma_small_values_fit(value.spec_into_u8());
}

/// Writing the terminal address of a status word and reading it back gives the
/// value written for every canonical value, and the write leaves the other bits of the word unchanged.
pub proof fn law_status_address_write_read(word: StatusWord, value: Address)
    requires
        value.spec_is_canonical(),
    ensures
        Address::spec_from_u8(
            field_value(STATUS_ADDRESS, 11, field_update(STATUS_ADDRESS, 11, word.spec_value(), value.spec_into_u8())),
        ) == value,
        field_update(STATUS_ADDRESS, 11, word.spec_value(), value.spec_into_u8()) & !STATUS_ADDRESS == word.spec_value() & !STATUS_ADDRESS,
{
    lemma_field_write_read(STATUS_ADDRESS, 11, 31, word.spec_value(), value.spec_into_u8());
    lemma_small_values_fit(value.spec_into_u8());
}

/// Writing the instrumentation flag of a status word and reading it back gives the
/// value written, and the write leaves the other bits of the word unchanged.
pub proof fn law_status_instrumentation_write_read(word: StatusWord, value: Instrumentation)
    ensures
        Instrumentation::spec_from_u8(
            field_value(STATUS_INSTRUMENTATION, 9, field_update(STATUS_INSTRUMENTATION, 9, word.spec_value(), value.spec_into_u8())),
        ) == value,
        field_update(STATUS_INSTRUMENTATION, 9, word.spec_value(), value.spec_into_u8()) & !STATUS_INSTRUMENTATION == word.spec_value() & !STATUS_INSTRUMENTATION,
{
    lemma_field_write_read(STATUS_INSTRUMENTATION, 9, 1, word.spec_value(), value.spec_into_u8());
    lemma_small_values_fit(value.spec_into_u8());
}

/// Writing the service request flag of a status word and reading it back gives the
/// value written, and the write leaves the other bits of the word unchanged.
pub proof fn law_status_service_request_write_read(word: StatusWord, value: ServiceRequest)
    ensures
        ServiceRequest::spec_from_u8(
            field_value(STATUS_SERVICE_REQUEST, 8, field_update(STATUS_SERVICE_REQUEST, 8, word.spec_value(), value.spec_into_u8())),
        ) == value,
        field_update(STATUS_SERVICE_REQUEST, 8, word.spec_value(), value.spec_into_u8()) & !STATUS_SERVICE_REQUEST == word.spec_value() & !STATUS_SERVICE_REQUEST,
{
    lemma_field_write_read(STATUS_SERVICE_REQUEST, 8, 1, word.spec_value(), value.spec_into_u8());
    lemma_small_values_fit(value.spec_into_u8());
}

/// Writing the reserved bits of a status word and reading it back gives the
/// value written for every canonical value, and the write leaves the other bits of the word unchanged.
pub proof fn law_status_reserved_write_read(word: StatusWord, value: Reserved)
    requires
        value.spec_is_canonical(),
    ensures
        Reserved::spec_from_u8(
            field_value(STATUS_RESERVED, 5, field_update(STATUS_RESERVED, 5, word.spec_value(), value.spec_into_u8())),
        ) == value,
        field_update(STATUS_RESERVED, 5, word.spec_value(), value.spec_into_u8()) & !STATUS_RESERVED == word.spec_value() & !STATUS_RESERVED,
{
    lemma_field_write_read(STATUS_RESERVED, 5, 7, word.spec_value(), value.spec_into_u8());
    lemma_small_values_fit(value.spec_into_u8());
}

/// Writing the broadcast received flag of a status word and reading it back gives the
/// value written, and the write leaves the other bits of the word unchanged.
pub proof fn law_status_broadcast_received_write_read(word: StatusWord, value: BroadcastReceived)
    ensures
        BroadcastReceived::spec_from_u8(
            field_value(STATUS_BROADCAST_RECEIVED, 4, field_update(STATUS_BROADCAST_RECEIVED, 4, word.spec_value(), value.spec_into_u8())),
        ) == value,
        field_update(STATUS_BROADCAST_RECEIVED, 4, word.spec_value(), value.spec_into_u8()) & !STATUS_BROADCAST_RECEIVED == word.spec_value() & !STATUS_BROADCAST_RECEIVED,
{
    lemma_field_write_read(STATUS_BROADCAST_RECEIVED, 4, 1, word.spec_value(), value.spec_into_u8());
    lemma_small_values_fit(value.spec_into_u8());
}

/// Writing the busy flag of a status word and reading it back gives the
/// value written, and the write leaves the other bits of the word unchanged.
pub proof fn law_status_terminal_busy_write_read(word: StatusWord, value: TerminalBusy)
    ensures
        TerminalBusy::spec_from_u8(
            field_value(STATUS_TERMINAL_BUSY, 3, field_update(STATUS_TERMINAL_BUSY, 3, word.spec_value(), value.spec_into_u8())),
        ) == value,
        field_update(STATUS_TERMINAL_BUSY, 3, word.spec_value(), value.spec_into_u8()) & !STATUS_TERMINAL_BUSY == word.spec_value() & !STATUS_TERMINAL_BUSY,
{
    lemma_field_write_read(STATUS_TERMINAL_BUSY, 3, 1, word.spec_value(), value.spec_into_u8());
    lemma_small_values_fit(value.spec_into_u8());
}

/// Writing the dynamic bus acceptance flag of a status word and reading it back gives the
/// value written, and the write leaves the other bits of the word unchanged.
pub proof fn law_status_dynamic_bus_acceptance_write_read(word: StatusWord, value: DynamicBusAcceptance)
    ensures
        DynamicBusAcceptance::spec_from_u8(
            field_value(STATUS_DYNAMIC_BUS_ACCEPTANCE, 1, field_update(STATUS_DYNAMIC_BUS_ACCEPTANCE, 1, word.spec_value(), value.spec_into_u8())),
        ) == value,
        field_update(STATUS_DYNAMIC_BUS_ACCEPTANCE, 1, word.spec_value(), value.spec_into_u8()) & !STATUS_DYNAMIC_BUS_ACCEPTANCE == word.spec_value() & !STATUS_DYNAMIC_BUS_ACCEPTANCE,
{
    lemma_field_write_read(STATUS_DYNAMIC_BUS_ACCEPTANCE, 1, 1, word.spec_value(), value.spec_into_u8());
    lemma_small_values_fit(value.spec_into_u8());
}

/// Writing the message error flag of a status word and reading it back gives the
/// value written, and the write leaves the other bits of the word unchanged.
pub proof fn law_status_message_error_write_read(word: StatusWord, value: MessageError)
    ensures
        MessageError::spec_from_u8(
            field_value(STATUS_MESSAGE_ERROR, 10, field_update(STATUS_MESSAGE_ERROR, 10, word.spec_value(), value.spec_into_u8())),
        ) == value,
        field_update(STATUS_MESSAGE_ERROR, 10, word.spec_value(), value.spec_into_u8()) & !STATUS_MESSAGE_ERROR == word.spec_value() & !STATUS_MESSAGE_ERROR,
{
    lemma_field_write_read(STATUS_MESSAGE_ERROR, 10, 1, word.spec_value(), value.spec_into_u8());
    lemma_small_values_fit(value.spec_into_u8());
}

/// Writing the subsystem error flag of a status word and reading it back gives the
/// value written, and the write leaves the other bits of the word unchanged.
pub proof fn law_status_subsystem_error_write_read(word: StatusWord, value: SubsystemError)
    ensures
        SubsystemError::spec_from_u8(
            field_value(STATUS_SUBSYSTEM_ERROR, 2, field_update(STATUS_SUBSYSTEM_ERROR, 2, word.spec_value(), value.spec_into_u8())),
        ) == value,
        field_update(STATUS_SUBSYSTEM_ERROR, 2, word.spec_value(), value.spec_into_u8()) & !STATUS_SUBSYSTEM_ERROR == word.spec_value() & !STATUS_SUBSYSTEM_ERROR,
{
    lemma_field_write_read(STATUS_SUBSYSTEM_ERROR, 2, 1, word.spec_value(), value.spec_into_u8());
    lemma_small_values_fit(value.spec_into_u8());
}

/// Writing the terminal error flag of a status word and reading it back gives the
/// value written, and the write leaves the other bits of the word unchanged.
pub proof fn law_status_terminal_error_write_read(word: StatusWord, value: TerminalError)
    ensures
        TerminalError::spec_from_u8(
            field_value(STATUS_TERMINAL_ERROR, 0, field_update(STATUS_TERMINAL_ERROR, 0, word.spec_value(), value.spec_into_u8())),
        ) == value,
        field_update(STATUS_TERMINAL_ERROR, 0, word.spec_value(), value.spec_into_u8()) & !STATUS_TERMINAL_ERROR == word.spec_value() & !STATUS_TERMINAL_ERROR,
{
    lemma_field_write_read(STATUS_TERMINAL_ERROR, 0, 1, word.spec_value(), value.spec_into_u8());
    lemma_small_values_fit(value.spec_into_u8());
}

/// Writing a word count and reading it back gives the count written, where
/// 0 and any count above 31 read back as 32; the other bits are unchanged.
pub proof fn law_command_word_count_write_read(word: CommandWord, count: u8)
    ensures
        CommandWord::spec_word_count(
            field_value(
                COMMAND_WORD_COUNT,
                0,
                field_update(COMMAND_WORD_COUNT, 0, word.spec_value(), if count > 31 { 0u8 } else { count }),
            ),
        ) == if count == 0 || count > 31 {
            32
        } else {
            count
        },
        field_update(COMMAND_WORD_COUNT, 0, word.spec_value(), if count > 31 { 0u8 } else { count })
            & !COMMAND_WORD_COUNT == word.spec_value() & !COMMAND_WORD_COUNT,
{
    let v: u8 = if count > 31 { 0u8 } else { count };
    lemma_field_write_read(COMMAND_WORD_COUNT, 0, 31, word.spec_value(), v);
    lemma_small_values_fit(v);
}


/// The two bytes a slice of at most two bytes fills, padded with zero bytes
pub open spec fn padded_bytes(bytes: Seq<u8>) -> [u8; 2] {
    [
        if bytes.len() > 0 {
            bytes[0]
        } else {
            0u8
        },
        if bytes.len() > 1 {
            bytes[1]
        } else {
            0u8
        },
    ]
}

/// The two bytes a slice of at most two bytes fills, padded with zero bytes
fn padded_slice(bytes: &[u8]) -> (r: [u8; 2])
    ensures
        r == padded_bytes(bytes@),
{
    let b0: u8 = if bytes.len() > 0 {
        bytes[0]
    } else {
        0
    };
    let b1: u8 = if bytes.len() > 1 {
        bytes[1]
    } else {
        0
    };
    let r = [b0, b1];
    assert(r =~= padded_bytes(bytes@));
    r
}

/// Checks a byte slice for UTF-8 with `core::str::from_utf8`.
///
/// Trusted: claims that std accepts the bytes exactly when they are valid
/// UTF-8 as vstd's `valid_utf8` defines it, and that the string it returns
/// is made of those same bytes, as the documentation of `from_utf8` says.
#[verifier::external_body]
fn str_from_utf8(bytes: &[u8]) -> (r: Option<&str>)
    ensures
        r is Some <==> vstd::utf8::valid_utf8(bytes@),
        r matches Some(s) ==> s.spec_bytes() == bytes@,
{
    core::str::from_utf8(bytes).ok()
}

/// Gives `From::from` of a type into itself, the conversion core provides
/// for every type, a contract.
///
/// Trusted: claims that the conversion returns its argument unchanged, as
/// the documentation of `impl<T> From<T> for T` says.
pub assume_specification<A>[ <A as core::convert::From<A>>::from ](t: A) -> (r: A)
    ensures
        r == t,
;

impl DataWord {
    /// Constructor method to set the data from a string of at most two bytes
    ///
    /// A string shorter than two bytes is padded with zero bytes. Fails with
    /// [Error::FromSliceError] if the UTF-8 encoding of the string is more
    /// than two bytes long.
    pub fn with_string(self, data: &str) -> (r: Result<Self>)
        ensures
            data.spec_bytes().len() <= 2 ==> (r matches Ok(w) && w.spec_value() == be_value(
                padded_bytes(data.spec_bytes()),
            ) && w.spec_parity() == parity_of(w.spec_value())),
            data.spec_bytes().len() > 2 ==> r == Err::<Self, Error>(Error::FromSliceError),
    {
        let mut w = self;
        match w.set_string(data) {
            Ok(()) => Ok(w),
            Err(e) => Err(e),
        }
    }

    /// Set the data from a string of at most two bytes
    ///
    /// A string shorter than two bytes is padded with zero bytes. Fails with
    /// [Error::FromSliceError], leaving the word unchanged, if the UTF-8
    /// encoding of the string is more than two bytes long.
    pub fn set_string(&mut self, data: &str) -> (r: Result<()>)
        ensures
            data.spec_bytes().len() <= 2 ==> r is Ok && final(self).spec_value() == be_value(
                padded_bytes(data.spec_bytes()),
            ) && final(self).spec_parity() == parity_of(final(self).spec_value()),
            data.spec_bytes().len() > 2 ==> r == Err::<(), Error>(Error::FromSliceError)
                && *final(self) == *old(self),
    {
        let bytes = data.as_bytes();
        if bytes.len() <= 2 {
            self.data = padded_slice(bytes);
            self.parity = self.calculate_parity();
            Ok(())
        } else {
            Err(Error::FromSliceError)
        }
    }

    /// Get the data as a string
    ///
    /// Fails with [Error::StringIsInvalid] if the two bytes are not valid UTF-8.
    pub fn as_string(&self) -> (r: Result<&str>)
        ensures
            r is Ok <==> vstd::utf8::valid_utf8(seq![high_byte(self.spec_value()), low_byte(self.spec_value())]),
            r matches Ok(s) ==> s.spec_bytes() == seq![high_byte(self.spec_value()), low_byte(self.spec_value())],
            r matches Err(e) ==> e == Error::StringIsInvalid,
    {
        proof {
            assert(self.data@ =~= seq![high_byte(self.spec_value()), low_byte(self.spec_value())]);
        }
        match str_from_utf8(self.data.as_slice()) {
            Some(s) => Ok(s),
            None => Err(Error::StringIsInvalid),
        }
    }
}


/// A two-byte string set into a data word reads back as that string: when
/// the high and low bytes of a word are the UTF-8 bytes of a two-byte
/// string, those bytes are valid UTF-8, they are the bytes of the string,
/// and they decode to its characters.
pub proof fn law_data_string_write_read(text: &str, word: DataWord)
    requires
        text.spec_bytes().len() == 2,
        high_byte(word.spec_value()) == text.spec_bytes()[0],
        low_byte(word.spec_value()) == text.spec_bytes()[1],
    ensures
        vstd::utf8::valid_utf8(seq![high_byte(word.spec_value()), low_byte(word.spec_value())]),
        seq![high_byte(word.spec_value()), low_byte(word.spec_value())] == text.spec_bytes(),
        vstd::utf8::decode_utf8(seq![high_byte(word.spec_value()), low_byte(word.spec_value())])
            == text@,
{
    broadcast use vstd::utf8::encode_utf8_valid_utf8, vstd::utf8::encode_utf8_decode_utf8;

    assert(seq![high_byte(word.spec_value()), low_byte(word.spec_value())] =~= text.spec_bytes());
}


impl Default for CommandWord {
    fn default() -> (r: Self)
        ensures
            r.spec_value() == 0,
            r.spec_parity() == 1,
    {
        Self::new()
    }
}

impl From<u16> for CommandWord {
    fn from(value: u16) -> (r: Self)
        ensures
            r.spec_value() == value,
            r.spec_parity() == parity_of(value),
    {
        Self { data: [(value / 256) as u8, (value % 256) as u8], parity: parity(value) }
    }
}

impl vstd::std_specs::convert::FromSpecImpl<u16> for CommandWord {
    open spec fn obeys_from_spec() -> bool {
        true
    }

    open spec fn from_spec(v: u16) -> Self {
        Self::spec_with([high_byte(v), low_byte(v)], parity_of(v))
    }
}

impl From<[u8; 2]> for CommandWord {
    fn from(value: [u8; 2]) -> (r: Self)
        ensures
            r.spec_value() == be_value(value),
            r.spec_parity() == parity_of(be_value(value)),
    {
        Self { data: value, parity: parity((value[0] as u16) * 256 + (value[1] as u16)) }
    }
}

impl vstd::std_specs::convert::FromSpecImpl<[u8; 2]> for CommandWord {
    open spec fn obeys_from_spec() -> bool {
        true
    }

    open spec fn from_spec(v: [u8; 2]) -> Self {
        Self::spec_with(v, parity_of(be_value(v)))
    }
}

impl From<&CommandWord> for [u8; 2] {
    fn from(value: &CommandWord) -> (r: Self)
        ensures
            r == [high_byte(value.spec_value()), low_byte(value.spec_value())],
    {
        value.data
    }
}

impl vstd::std_specs::convert::FromSpecImpl<&CommandWord> for [u8; 2] {
    open spec fn obeys_from_spec() -> bool {
        true
    }

    open spec fn from_spec(v: &CommandWord) -> Self {
        [high_byte(v.spec_value()), low_byte(v.spec_value())]
    }
}

impl From<CommandWord> for [u8; 2] {
    fn from(value: CommandWord) -> (r: Self)
        ensures
            r == [high_byte(value.spec_value()), low_byte(value.spec_value())],
    {
        value.data
    }
}

impl vstd::std_specs::convert::FromSpecImpl<CommandWord> for [u8; 2] {
    open spec fn obeys_from_spec() -> bool {
        true
    }

    open spec fn from_spec(v: CommandWord) -> Self {
        [high_byte(v.spec_value()), low_byte(v.spec_value())]
    }
}

impl From<&CommandWord> for u16 {
    fn from(value: &CommandWord) -> (r: Self) {
        value.as_value()
    }
}

impl vstd::std_specs::convert::FromSpecImpl<&CommandWord> for u16 {
    open spec fn obeys_from_spec() -> bool {
        true
    }

    open spec fn from_spec(v: &CommandWord) -> Self {
        v.spec_value()
    }
}

impl From<CommandWord> for u16 {
    fn from(value: CommandWord) -> (r: Self) {
        value.as_value()
    }
}

impl vstd::std_specs::convert::FromSpecImpl<CommandWord> for u16 {
    open spec fn obeys_from_spec() -> bool {
        true
    }

    open spec fn from_spec(v: CommandWord) -> Self {
        v.spec_value()
    }
}

impl Default for StatusWord {
    fn default() -> (r: Self)
        ensures
            r.spec_value() == 0,
            r.spec_parity() == 1,
    {
        Self::new()
    }
}

impl From<u16> for StatusWord {
    fn from(value: u16) -> (r: Self)
        ensures
            r.spec_value() == value,
            r.spec_parity() == parity_of(value),
    {
        Self { data: [(value / 256) as u8, (value % 256) as u8], parity: parity(value) }
    }
}

impl vstd::std_specs::convert::FromSpecImpl<u16> for StatusWord {
    open spec fn obeys_from_spec() -> bool {
        true
    }

    open spec fn from_spec(v: u16) -> Self {
        Self::spec_with([high_byte(v), low_byte(v)], parity_of(v))
    }
}

impl From<[u8; 2]> for StatusWord {
    fn from(value: [u8; 2]) -> (r: Self)
        ensures
            r.spec_value() == be_value(value),
            r.spec_parity() == parity_of(be_value(value)),
    {
        Self { data: value, parity: parity((value[0] as u16) * 256 + (value[1] as u16)) }
    }
}

impl vstd::std_specs::convert::FromSpecImpl<[u8; 2]> for StatusWord {
    open spec fn obeys_from_spec() -> bool {
        true
    }

    open spec fn from_spec(v: [u8; 2]) -> Self {
        Self::spec_with(v, parity_of(be_value(v)))
    }
}

impl From<&StatusWord> for [u8; 2] {
    fn from(value: &StatusWord) -> (r: Self)
        ensures
            r == [high_byte(value.spec_value()), low_byte(value.spec_value())],
    {
        value.data
    }
}

impl vstd::std_specs::convert::FromSpecImpl<&StatusWord> for [u8; 2] {
    open spec fn obeys_from_spec() -> bool {
        true
    }

    open spec fn from_spec(v: &StatusWord) -> Self {
        [high_byte(v.spec_value()), low_byte(v.spec_value())]
    }
}

impl From<StatusWord> for [u8; 2] {
    fn from(value: StatusWord) -> (r: Self)
        ensures
            r == [high_byte(value.spec_value()), low_byte(value.spec_value())],
    {
        value.data
    }
}

impl vstd::std_specs::convert::FromSpecImpl<StatusWord> for [u8; 2] {
    open spec fn obeys_from_spec() -> bool {
        true
    }

    open spec fn from_spec(v: StatusWord) -> Self {
        [high_byte(v.spec_value()), low_byte(v.spec_value())]
    }
}

impl From<&StatusWord> for u16 {
    fn from(value: &StatusWord) -> (r: Self) {
        value.as_value()
    }
}

impl vstd::std_specs::convert::FromSpecImpl<&StatusWord> for u16 {
    open spec fn obeys_from_spec() -> bool {
        true
    }

    open spec fn from_spec(v: &StatusWord) -> Self {
        v.spec_value()
    }
}

impl From<StatusWord> for u16 {
    fn from(value: StatusWord) -> (r: Self) {
        value.as_value()
    }
}

impl vstd::std_specs::convert::FromSpecImpl<StatusWord> for u16 {
    open spec fn obeys_from_spec() -> bool {
        true
    }

    open spec fn from_spec(v: StatusWord) -> Self {
        v.spec_value()
    }
}

impl Default for DataWord {
    fn default() -> (r: Self)
        ensures
            r.spec_value() == 0,
            r.spec_parity() == 1,
    {
        Self::new()
    }
}

impl From<u16> for DataWord {
    fn from(value: u16) -> (r: Self)
        ensures
            r.spec_value() == value,
            r.spec_parity() == parity_of(value),
    {
        Self { data: [(value / 256) as u8, (value % 256) as u8], parity: parity(value) }
    }
}

impl vstd::std_specs::convert::FromSpecImpl<u16> for DataWord {
    open spec fn obeys_from_spec() -> bool {
        true
    }

    open spec fn from_spec(v: u16) -> Self {
        Self::spec_with([high_byte(v), low_byte(v)], parity_of(v))
    }
}

impl From<[u8; 2]> for DataWord {
    fn from(value: [u8; 2]) -> (r: Self)
        ensures
            r.spec_value() == be_value(value),
            r.spec_parity() == parity_of(be_value(value)),
    {
        Self { data: value, parity: parity((value[0] as u16) * 256 + (value[1] as u16)) }
    }
}

impl vstd::std_specs::convert::FromSpecImpl<[u8; 2]> for DataWord {
    open spec fn obeys_from_spec() -> bool {
        true
    }

    open spec fn from_spec(v: [u8; 2]) -> Self {
        Self::spec_with(v, parity_of(be_value(v)))
    }
}

impl From<&DataWord> for [u8; 2] {
    fn from(value: &DataWord) -> (r: Self)
        ensures
            r == [high_byte(value.spec_value()), low_byte(value.spec_value())],
    {
        value.data
    }
}

impl vstd::std_specs::convert::FromSpecImpl<&DataWord> for [u8; 2] {
    open spec fn obeys_from_spec() -> bool {
        true
    }

    open spec fn from_spec(v: &DataWord) -> Self {
        [high_byte(v.spec_value()), low_byte(v.spec_value())]
    }
}

impl From<DataWord> for [u8; 2] {
    fn from(value: DataWord) -> (r: Self)
        ensures
            r == [high_byte(value.spec_value()), low_byte(value.spec_value())],
    {
        value.data
    }
}

impl vstd::std_specs::convert::FromSpecImpl<DataWord> for [u8; 2] {
    open spec fn obeys_from_spec() -> bool {
        true
    }

    open spec fn from_spec(v: DataWord) -> Self {
        [high_byte(v.spec_value()), low_byte(v.spec_value())]
    }
}

impl From<&DataWord> for u16 {
    fn from(value: &DataWord) -> (r: Self) {
        value.as_value()
    }
}

impl vstd::std_specs::convert::FromSpecImpl<&DataWord> for u16 {
    open spec fn obeys_from_spec() -> bool {
        true
    }

    open spec fn from_spec(v: &DataWord) -> Self {
        v.spec_value()
    }
}

impl From<DataWord> for u16 {
    fn from(value: DataWord) -> (r: Self)
        ensures
            r == value.spec_value(),
    {
        value.as_value()
    }
}

impl vstd::std_specs::convert::FromSpecImpl<DataWord> for u16 {
    open spec fn obeys_from_spec() -> bool {
        true
    }

    open spec fn from_spec(v: DataWord) -> Self {
        v.spec_value()
    }
}

impl From<DataWord> for i16 {
    fn from(value: DataWord) -> (r: Self)
        ensures
            r as u16 == value.spec_value(),
    {
        let v = value.as_value();
        let r = v as i16;
        assert(r as u16 == v) by (bit_vector)
            requires
                r == v as i16,
        ;
        r
    }
}

impl vstd::std_specs::convert::FromSpecImpl<DataWord> for i16 {
    open spec fn obeys_from_spec() -> bool {
        true
    }

    open spec fn from_spec(v: DataWord) -> Self {
        v.spec_value() as i16
    }
}

impl From<DataWord> for u32 {
    fn from(value: DataWord) -> (r: Self)
        ensures
            r as int == value.spec_value() as int,
    {
        value.as_value() as u32
    }
}

impl vstd::std_specs::convert::FromSpecImpl<DataWord> for u32 {
    open spec fn obeys_from_spec() -> bool {
        true
    }

    open spec fn from_spec(v: DataWord) -> Self {
        v.spec_value() as u32
    }
}

impl From<DataWord> for i32 {
    fn from(value: DataWord) -> (r: Self)
        ensures
            r as int == value.spec_value() as int,
    {
        value.as_value() as i32
    }
}

impl vstd::std_specs::convert::FromSpecImpl<DataWord> for i32 {
    open spec fn obeys_from_spec() -> bool {
        true
    }

    open spec fn from_spec(v: DataWord) -> Self {
        v.spec_value() as i32
    }
}

impl From<DataWord> for u64 {
    fn from(value: DataWord) -> (r: Self)
        ensures
            r as int == value.spec_value() as int,
    {
        value.as_value() as u64
    }
}

impl vstd::std_specs::convert::FromSpecImpl<DataWord> for u64 {
    open spec fn obeys_from_spec() -> bool {
        true
    }

    open spec fn from_spec(v: DataWord) -> Self {
        v.spec_value() as u64
    }
}

impl From<DataWord> for i64 {
    fn from(value: DataWord) -> (r: Self)
        ensures
            r as int == value.spec_value() as int,
    {
        value.as_value() as i64
    }
}

impl vstd::std_specs::convert::FromSpecImpl<DataWord> for i64 {
    open spec fn obeys_from_spec() -> bool {
        true
    }

    open spec fn from_spec(v: DataWord) -> Self {
        v.spec_value() as i64
    }
}


impl TryFrom<&str> for DataWord {
    type Error = Error;

    fn try_from(value: &str) -> (r: Result<Self>)
        ensures
            value.spec_bytes().len() <= 2 ==> (r matches Ok(w) && w.spec_value() == be_value(
                padded_bytes(value.spec_bytes()),
            ) && w.spec_parity() == parity_of(w.spec_value())),
            value.spec_bytes().len() > 2 ==> r == Err::<Self, Error>(Error::FromSliceError),
    {
        let r = DataWord::new().with_string(value);
        proof {
            if let Ok(w) = r {
                let data = padded_bytes(value.spec_bytes());
                DataWord::lemma_spec_with(data, parity_of(be_value(data)), w);
            }
        }
        r
    }
}

impl vstd::std_specs::convert::TryFromSpecImpl<&str> for DataWord {
    open spec fn obeys_try_from_spec() -> bool {
        true
    }

    open spec fn try_from_spec(v: &str) -> Result<Self> {
        if v.spec_bytes().len() <= 2 {
            let data = padded_bytes(v.spec_bytes());
            Ok(DataWord::spec_with(data, parity_of(be_value(data))))
        } else {
            Err(Error::FromSliceError)
        }
    }
}

impl<'a> TryFrom<&'a DataWord> for &'a str {
    type Error = Error;

    fn try_from(value: &'a DataWord) -> (r: Result<Self>)
        ensures
            r is Ok <==> vstd::utf8::valid_utf8(seq![high_byte(value.spec_value()), low_byte(value.spec_value())]),
            r matches Ok(s) ==> s.spec_bytes() == seq![high_byte(value.spec_value()), low_byte(value.spec_value())],
            r matches Err(e) ==> e == Error::StringIsInvalid,
    {
        value.as_string()
    }
}

impl<'a> vstd::std_specs::convert::TryFromSpecImpl<&'a DataWord> for &'a str {
    open spec fn obeys_try_from_spec() -> bool {
        false
    }

    open spec fn try_from_spec(v: &'a DataWord) -> Result<Self> {
        Err(Error::StringIsInvalid)
    }
}


/// The two bytes of a 16-bit value read back in big-endian order give the
/// value, and the value of two bytes splits back into those bytes.
pub proof fn law_bytes_value_roundtrip(bytes: [u8; 2], value: u16)
    ensures
        high_byte(be_value(bytes)) == bytes[0],
        low_byte(be_value(bytes)) == bytes[1],
        high_byte(value) as int * 256 + low_byte(value) as int == value,
{
}

impl CommandWord {
    /// The word made of these two bytes and this parity bit
    pub closed spec fn spec_with(data: [u8; 2], parity: u8) -> Self {
        Self { data, parity }
    }

    /// A word made of two bytes and a parity bit has the value of the bytes
    /// and that parity bit; two words with the same value and parity are equal.
    pub proof fn lemma_spec_with(data: [u8; 2], parity: u8, other: Self)
        ensures
            Self::spec_with(data, parity).spec_value() == be_value(data),
            Self::spec_with(data, parity).spec_parity() == parity,
            (other.spec_value() == be_value(data) && other.spec_parity() == parity) ==> other
                == Self::spec_with(data, parity),
    {
        if other.spec_value() == be_value(data) && other.spec_parity() == parity {
            law_bytes_value_roundtrip(data, 0);
            law_bytes_value_roundtrip(other.data, 0);
            assert(other.data =~= data);
        }
    }
}

impl TryFrom<Packet> for CommandWord {
    type Error = Error;

    fn try_from(value: Packet) -> (r: Result<Self>) {
        if value.is_service() {
            let r = value.as_word();
            proof {
                if let Ok(w) = r {
                    Self::lemma_spec_with(value.body, value.parity, w);
                }
            }
            r
        } else {
            Err(Error::PacketIsInvalid)
        }
    }
}

impl vstd::std_specs::convert::TryFromSpecImpl<Packet> for CommandWord {
    open spec fn obeys_try_from_spec() -> bool {
        true
    }

    open spec fn try_from_spec(value: Packet) -> Result<Self> {
        Self::spec_from_packet(value)
    }
}

impl CommandWord {
    /// The word a packet carries: it must have the service sync pattern and
    /// a correct parity bit
    pub open spec fn spec_from_packet(value: Packet) -> Result<Self> {
        if value.sync != Packet::SERV_SYNC {
            Err(Error::PacketIsInvalid)
        } else if value.parity != parity_of(be_value(value.body)) {
            Err(Error::WordIsInvalid)
        } else {
            Ok(Self::spec_with(value.body, value.parity))
        }
    }
}

impl StatusWord {
    /// The word made of these two bytes and this parity bit
    pub closed spec fn spec_with(data: [u8; 2], parity: u8) -> Self {
        Self { data, parity }
    }

    /// A word made of two bytes and a parity bit has the value of the bytes
    /// and that parity bit; two words with the same value and parity are equal.
    pub proof fn lemma_spec_with(data: [u8; 2], parity: u8, other: Self)
        ensures
            Self::spec_with(data, parity).spec_value() == be_value(data),
            Self::spec_with(data, parity).spec_parity() == parity,
            (other.spec_value() == be_value(data) && other.spec_parity() == parity) ==> other
                == Self::spec_with(data, parity),
    {
        if other.spec_value() == be_value(data) && other.spec_parity() == parity {
            law_bytes_value_roundtrip(data, 0);
            law_bytes_value_roundtrip(other.data, 0);
            assert(other.data =~= data);
        }
    }
}

impl TryFrom<Packet> for StatusWord {
    type Error = Error;

    fn try_from(value: Packet) -> (r: Result<Self>) {
        if value.is_service() {
            let r = value.as_word();
            proof {
                if let Ok(w) = r {
                    Self::lemma_spec_with(value.body, value.parity, w);
                }
            }
            r
        } else {
            Err(Error::PacketIsInvalid)
        }
    }
}

impl vstd::std_specs::convert::TryFromSpecImpl<Packet> for StatusWord {
    open spec fn obeys_try_from_spec() -> bool {
        true
    }

    open spec fn try_from_spec(value: Packet) -> Result<Self> {
        Self::spec_from_packet(value)
    }
}

impl StatusWord {
    /// The word a packet carries: it must have the service sync pattern and
    /// a correct parity bit
    pub open spec fn spec_from_packet(value: Packet) -> Result<Self> {
        if value.sync != Packet::SERV_SYNC {
            Err(Error::PacketIsInvalid)
        } else if value.parity != parity_of(be_value(value.body)) {
            Err(Error::WordIsInvalid)
        } else {
            Ok(Self::spec_with(value.body, value.parity))
        }
    }
}

impl DataWord {
    /// The word made of these two bytes and this parity bit
    pub closed spec fn spec_with(data: [u8; 2], parity: u8) -> Self {
        Self { data, parity }
    }

    /// A word made of two bytes and a parity bit has the value of the bytes
    /// and that parity bit; two words with the same value and parity are equal.
    pub proof fn lemma_spec_with(data: [u8; 2], parity: u8, other: Self)
        ensures
            Self::spec_with(data, parity).spec_value() == be_value(data),
            Self::spec_with(data, parity).spec_parity() == parity,
            (other.spec_value() == be_value(data) && other.spec_parity() == parity) ==> other
                == Self::spec_with(data, parity),
    {
        if other.spec_value() == be_value(data) && other.spec_parity() == parity {
            law_bytes_value_roundtrip(data, 0);
            law_bytes_value_roundtrip(other.data, 0);
            assert(other.data =~= data);
        }
    }
}

impl TryFrom<Packet> for DataWord {
    type Error = Error;

    fn try_from(value: Packet) -> (r: Result<Self>) {
        if value.is_data() {
            let r = value.as_word();
            proof {
                if let Ok(w) = r {
                    Self::lemma_spec_with(value.body, value.parity, w);
                }
            }
            r
        } else {
            Err(Error::PacketIsInvalid)
        }
    }
}

impl vstd::std_specs::convert::TryFromSpecImpl<Packet> for DataWord {
    open spec fn obeys_try_from_spec() -> bool {
        true
    }

    open spec fn try_from_spec(value: Packet) -> Result<Self> {
        Self::spec_from_packet(value)
    }
}

impl DataWord {
    /// The word a packet carries: it must have the data sync pattern and
    /// a correct parity bit
    pub open spec fn spec_from_packet(value: Packet) -> Result<Self> {
        if value.sync != Packet::DATA_SYNC {
            Err(Error::PacketIsInvalid)
        } else if value.parity != parity_of(be_value(value.body)) {
            Err(Error::WordIsInvalid)
        } else {
            Ok(Self::spec_with(value.body, value.parity))
        }
    }
}

/// A data word converts to every integer type without losing a bit: its
/// `i16` has the same 16 bits (so a word with the high bit set gives a
/// negative number), and its `u16`, `u32`, `i32`, `u64` and `i64` have the
/// value of the word.
pub proof fn law_data_word_integers(word: DataWord)
    ensures
        <u16 as vstd::std_specs::convert::FromSpec<DataWord>>::from_spec(word) == word.spec_value(),
        <i16 as vstd::std_specs::convert::FromSpec<DataWord>>::from_spec(word) as u16
            == word.spec_value(),
        word.spec_value() >= 0x8000 ==> <i16 as vstd::std_specs::convert::FromSpec<DataWord>>::from_spec(word)
            == word.spec_value() - 0x10000,
        word.spec_value() < 0x8000 ==> <i16 as vstd::std_specs::convert::FromSpec<DataWord>>::from_spec(word)
            == word.spec_value(),
        <u32 as vstd::std_specs::convert::FromSpec<DataWord>>::from_spec(word) == word.spec_value(),
        <i32 as vstd::std_specs::convert::FromSpec<DataWord>>::from_spec(word) == word.spec_value(),
        <u64 as vstd::std_specs::convert::FromSpec<DataWord>>::from_spec(word) == word.spec_value(),
        <i64 as vstd::std_specs::convert::FromSpec<DataWord>>::from_spec(word) == word.spec_value(),
{
    let v = word.spec_value();
    assert((v as i16) as u16 == v) by (bit_vector);
    assert(v >= 0x8000 ==> (v as i16) == v - 0x10000) by (bit_vector);
    assert(v < 0x8000 ==> (v as i16) == v) by (bit_vector);
}

/// A packet converts to a command word exactly when it has the service sync
/// pattern and its parity bit makes the number of ones in the body and the
/// bit odd; the word then has the body as its value and the packet's parity
/// bit. A packet with another sync pattern gives [Error::PacketIsInvalid],
/// one with a wrong parity bit [Error::WordIsInvalid].
pub proof fn law_command_word_from_packet(packet: Packet)
    ensures
        CommandWord::spec_from_packet(packet) is Ok <==> (packet.sync == Packet::SERV_SYNC
            && packet.parity <= 1 && (count_ones(be_value(packet.body)) + packet.parity) % 2 == 1),
        CommandWord::spec_from_packet(packet) matches Ok(w) ==> w.spec_value() == be_value(
            packet.body,
        ) && w.spec_parity() == packet.parity,
        packet.sync != Packet::SERV_SYNC ==> CommandWord::spec_from_packet(packet) == Err::<
            CommandWord,
            Error,
        >(Error::PacketIsInvalid),
        packet.sync == Packet::SERV_SYNC && !(packet.parity <= 1 && (count_ones(
            be_value(packet.body),
        ) + packet.parity) % 2 == 1) ==> CommandWord::spec_from_packet(packet) == Err::<
            CommandWord,
            Error,
        >(Error::WordIsInvalid),
{
    crate::errors::law_parity_is_odd(be_value(packet.body));
    CommandWord::lemma_spec_with(packet.body, packet.parity, CommandWord::spec_with(packet.body, packet.parity));
}

/// A packet converts to a status word exactly when it has the service sync
/// pattern and its parity bit makes the number of ones in the body and the
/// bit odd; the word then has the body as its value and the packet's parity
/// bit. A packet with another sync pattern gives [Error::PacketIsInvalid],
/// one with a wrong parity bit [Error::WordIsInvalid].
pub proof fn law_status_word_from_packet(packet: Packet)
    ensures
        StatusWord::spec_from_packet(packet) is Ok <==> (packet.sync == Packet::SERV_SYNC
            && packet.parity <= 1 && (count_ones(be_value(packet.body)) + packet.parity) % 2 == 1),
        StatusWord::spec_from_packet(packet) matches Ok(w) ==> w.spec_value() == be_value(
            packet.body,
        ) && w.spec_parity() == packet.parity,
        packet.sync != Packet::SERV_SYNC ==> StatusWord::spec_from_packet(packet) == Err::<
            StatusWord,
            Error,
        >(Error::PacketIsInvalid),
        packet.sync == Packet::SERV_SYNC && !(packet.parity <= 1 && (count_ones(
            be_value(packet.body),
        ) + packet.parity) % 2 == 1) ==> StatusWord::spec_from_packet(packet) == Err::<
            StatusWord,
            Error,
        >(Error::WordIsInvalid),
{
    crate::errors::law_parity_is_odd(be_value(packet.body));
    StatusWord::lemma_spec_with(packet.body, packet.parity, StatusWord::spec_with(packet.body, packet.parity));
}

/// A packet converts to a data word exactly when it has the data sync
/// pattern and its parity bit makes the number of ones in the body and the
/// bit odd; the word then has the body as its value and the packet's parity
/// bit. A packet with another sync pattern gives [Error::PacketIsInvalid],
/// one with a wrong parity bit [Error::WordIsInvalid].
pub proof fn law_data_word_from_packet(packet: Packet)
    ensures
        DataWord::spec_from_packet(packet) is Ok <==> (packet.sync == Packet::DATA_SYNC
            && packet.parity <= 1 && (count_ones(be_value(packet.body)) + packet.parity) % 2 == 1),
        DataWord::spec_from_packet(packet) matches Ok(w) ==> w.spec_value() == be_value(
            packet.body,
        ) && w.spec_parity() == packet.parity,
        packet.sync != Packet::DATA_SYNC ==> DataWord::spec_from_packet(packet) == Err::<
            DataWord,
            Error,
        >(Error::PacketIsInvalid),
        packet.sync == Packet::DATA_SYNC && !(packet.parity <= 1 && (count_ones(
            be_value(packet.body),
        ) + packet.parity) % 2 == 1) ==> DataWord::spec_from_packet(packet) == Err::<
            DataWord,
            Error,
        >(Error::WordIsInvalid),
{
    crate::errors::law_parity_is_odd(be_value(packet.body));
    DataWord::lemma_spec_with(packet.body, packet.parity, DataWord::spec_with(packet.body, packet.parity));
}

} // verus!
