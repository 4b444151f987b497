//! Messages constructed from words

mod enums;
mod messages;
mod packets;

pub use enums::{MessageDirection, MessageSide, MessageType, MAX_WORDS};
pub use messages::{
    Message, law_command_message_read_write, law_status_message_read_write,
    law_command_message_write_read, law_status_message_write_read, law_message_write_keeps_rest,
    law_add_bytes, law_read_word_count, law_validate_command_message,
    law_validate_status_message,
};
pub use packets::{Packet, law_packet_write_read};
