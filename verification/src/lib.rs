//! A device-connection manager: open, use, and close newline-delimited
//! byte-stream connections (serial devices, TCP sockets, and a WebSocket
//! placeholder) behind one uniform interface.
//!
//! The library holds the connection registry and its open/close/write/status
//! operations, the serial transport, the line framing and trimming rules, and
//! the reader-loop decision model. Blocking I/O loops, threads, and the host's
//! event sink live with the host application, which drives them through the
//! functions here.

pub mod manager;
pub mod reader;
pub mod serial;
pub mod text;
pub mod types;
