//! Parsing and validation of electronic-mail address syntax.
//!
//! The crate validates the textual tokens of an address (`validate`), splits
//! `user@domain` strings into validated addresses (`address`), recognizes the
//! `name <user@domain>` mailbox surface syntax (`mailbox`), renders a mailbox
//! into a message header line (`header`), and assembles a minimal message
//! record through a typestate builder that makes an incomplete message
//! unrepresentable (`message`).

pub mod address;
pub mod header;
pub mod mailbox;
pub mod message;
pub mod text;
pub mod validate;
