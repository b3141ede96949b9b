//! Decision logic of a small TCP connectivity exerciser.
//!
//! A server accepts connections and logs what each one sends; a client
//! connects once and sends a counter-stamped greeting at a fixed pace. The
//! sockets, the readiness waits and the sleeps live with the caller; this
//! library decides, for each outcome the caller hands in, what happens next.
pub mod payload;
pub mod gate;
pub mod reader;
pub mod client;
pub mod stream;
pub mod server;
