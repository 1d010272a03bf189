//! Message sources: the message record, the access filter, the poll cursor and
//! the adapters built on them.

pub mod allow_list;
pub mod cursor;
pub mod imessage;
pub mod listen;
pub mod message;
pub mod messages_db;
pub mod registry;
