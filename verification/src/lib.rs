//! Parsing and construction of MIL STD 1553B words and messages

mod errors;
mod fields;
mod flags;
mod message;
mod word;

pub use crate::errors::{
    count_ones, ones_below, parity, parity_of, Error, MessageError, Result, SubsystemError,
    SystemError, TerminalError,
};

pub use crate::fields::Field;

pub use crate::flags::{
    Address, BroadcastReceived, DynamicBusAcceptance, Instrumentation, ModeCode, Reserved,
    ServiceRequest, SubAddress, TerminalBusy, TransmitReceive,
};

pub use crate::word::{CommandWord, DataWord, Header, StatusWord, Word, WordType};
pub use crate::message::{Message, MessageDirection, MessageSide, MessageType, Packet};

pub use crate::errors::{
    law_parity_is_odd, law_terminal_error_roundtrip, law_subsystem_error_roundtrip,
    law_message_error_roundtrip,
};
pub use crate::fields::law_field_write_read;
pub use crate::flags::{
    law_mode_code_byte_roundtrip, law_mode_code_value_roundtrip, law_address_roundtrip,
    law_subaddress_roundtrip, law_reserved_roundtrip, law_transmit_receive_roundtrip,
    law_instrumentation_roundtrip, law_service_request_roundtrip,
    law_broadcast_received_roundtrip, law_terminal_busy_roundtrip,
    law_dynamic_bus_acceptance_roundtrip,
};
pub use crate::message::{
    law_command_message_read_write, law_status_message_read_write,
    law_command_message_write_read, law_status_message_write_read, law_message_write_keeps_rest,
    law_add_bytes, law_read_word_count, law_validate_command_message,
    law_validate_status_message, law_packet_write_read,
};
pub use crate::word::{
    law_command_address_write_read, law_command_subaddress_write_read,
    law_command_transmit_receive_write_read, law_command_mode_code_write_read,
    law_status_address_write_read, law_status_instrumentation_write_read,
    law_status_service_request_write_read, law_status_reserved_write_read,
    law_status_broadcast_received_write_read, law_status_terminal_busy_write_read,
    law_status_dynamic_bus_acceptance_write_read, law_status_message_error_write_read,
    law_status_subsystem_error_write_read, law_status_terminal_error_write_read,
    law_command_word_count_write_read, law_data_string_write_read, law_bytes_value_roundtrip,
    law_data_word_integers, law_command_word_from_packet, law_status_word_from_packet,
    law_data_word_from_packet,
};
