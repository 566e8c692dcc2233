//! An MQTT client front end that hands requests to an event loop over a
//! bounded channel, and the console link of an MQTT broker.

pub mod channel;
pub mod client;
pub mod console;
pub mod packets;
