//! A peer-to-peer text messaging core: the wire codec for message frames,
//! the shared inbox, recipient resolution, the command dispatcher and the
//! decisions of the message sender. Sockets, threads and the console are
//! left to the program that uses this library.

pub mod address;
pub mod codec;
pub mod command;
pub mod directory;
pub mod inbox;
pub mod send;
pub mod text;

pub use text::{is_blank_text, is_whitespace_char, str_equals};
pub use codec::{decode, decode_frame, encode, Message, MessageView, DELIMITER};
pub use inbox::Inbox;
pub use address::{is_ip_addr, ADDRESS_PATTERN};
pub use directory::{find_contact, resolve, Contact, ContactView};
pub use command::{
    add_contact_command, handle_user_input, print_command, send_message_command, Action,
    ActionView,
};
pub use send::{send_message, SendPlan};
