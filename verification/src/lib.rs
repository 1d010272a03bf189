//! Message ingestion for a personal assistant: access control, poll cursors and
//! the decisions of channel adapters, with their contracts.

pub mod channels;
pub mod decimal;
pub mod integrations;
pub mod text;
pub mod tools;
