//! Client-side communication core of a chat application.
//!
//! The crate decides; it performs no input or output. The program around it
//! owns the stream, the reader thread and the clock, and tells the values of
//! this crate what happened and when:
//!
//! - [`message`]: the envelope that every message travels in;
//! - [`model`] and [`coms_manager`]: the correlation table, which pairs
//!   requests with their responses, hands out inbound messages and finds the
//!   requests to send again;
//! - [`laws`]: what holds of the table, proved;
//! - [`transport`]: what the stream reports, and the reader's rule;
//! - [`sender`]: the state of the connection;
//! - [`error`]: what can go wrong;
//! - [`server_coms`]: the facade over connection and table;
//! - [`client_manager`]: the acknowledgements that inbound messages are owed;
//! - [`sidebar`]: the friend search of the sidebar.

pub mod client_manager;
pub mod coms_manager;
pub mod error;
pub mod laws;
pub mod message;
pub mod model;
pub mod sender;
pub mod server_coms;
pub mod sidebar;
pub mod transport;
