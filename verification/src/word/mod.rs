//! Words transmitted across a bus

mod enums;
mod traits;
pub(crate) mod words;

pub use enums::WordType;
pub use traits::{be_value, high_byte, low_byte, Header, Word};
pub use words::{
    CommandWord, DataWord, StatusWord, law_command_address_write_read,
    law_command_subaddress_write_read, law_command_transmit_receive_write_read,
    law_command_mode_code_write_read, law_status_address_write_read,
    law_status_instrumentation_write_read, law_status_service_request_write_read,
    law_status_reserved_write_read, law_status_broadcast_received_write_read,
    law_status_terminal_busy_write_read, law_status_dynamic_bus_acceptance_write_read,
    law_status_message_error_write_read, law_status_subsystem_error_write_read,
    law_status_terminal_error_write_read, law_command_word_count_write_read,
    law_data_string_write_read, law_bytes_value_roundtrip, law_data_word_integers,
    law_command_word_from_packet, law_status_word_from_packet, law_data_word_from_packet,
};
