//! A verified core for the connection-level mechanics of the HTTP/2 binary
//! framing protocol: the 9-byte frame-header wire codec, the client-preface
//! check, settings negotiation, header-block decompression at its interface,
//! the response encoder, and the connection handshake/dispatch state machine.
//!
//! All I/O stays outside: the state machine consumes events (bytes read,
//! writes confirmed or failed) and yields the bytes to write next.

pub mod codec;
pub mod conn;
pub mod headers;
pub mod preface;
pub mod response;
pub mod settings;
