//! Decision logic of a message-relay worker: it consumes deliveries from a
//! broker queue, acknowledges each one, decodes its payload as UTF-8 text and
//! hands the text to a handler that prints it or stores it.
//!
//! The library decides; the program around it performs the network and
//! database work that each decision asks for.
pub mod config;
pub mod payload;
pub mod relay;
pub mod laws;
