//! The data types a connection is described and reported with: the transport
//! kind, a connection's descriptor, the messages a reader loop emits, and the
//! legacy serial-only record shapes.

use vstd::prelude::*;

verus! {

/// The transport a connection runs over. WebSocket is a declared placeholder:
/// opening one fails with an explicit "not yet implemented" error.
#[derive(Debug, Clone, Copy, PartialEq, Eq, Structural)]
pub enum ConnectionType {
    Serial,
    Tcp,
    WebSocket,
}

/// A connection's configuration, produced on open and returned by status
/// queries. The identifier is the registry key; the full descriptor is stored
/// per entry so that status queries report the real configuration.
#[derive(Debug, Clone)]
pub struct ConnectionInfo {
    pub connection_id: String,
    pub connection_type: ConnectionType,
    /// Serial device name, or `host:port` for network transports.
    pub address: String,
    /// Only meaningful for serial connections.
    pub baud_rate: Option<u32>,
    pub is_connected: bool,
}

/// Mathematical image of a [`ConnectionInfo`].
pub struct ConnectionInfoV {
    pub connection_id: Seq<char>,
    pub connection_type: ConnectionType,
    pub address: Seq<char>,
    pub baud_rate: Option<u32>,
    pub is_connected: bool,
}

impl View for ConnectionInfo {
    type V = ConnectionInfoV;

    open spec fn view(&self) -> ConnectionInfoV {
        ConnectionInfoV {
            connection_id: self.connection_id@,
            connection_type: self.connection_type,
            address: self.address@,
            baud_rate: self.baud_rate,
            is_connected: self.is_connected,
        }
    }
}

/// One line read from a connection (or one terminal read failure), stamped
/// with a caller-supplied wall-clock time in milliseconds and handed to the
/// host's event sink. Transient: built per line, never retained.
#[derive(Debug, Clone)]
pub struct ConnectionMessage {
    pub connection_id: String,
    pub data: String,
    pub timestamp: u64,
    pub is_error: bool,
}

/// Mathematical image of a [`ConnectionMessage`].
pub struct ConnectionMessageV {
    pub connection_id: Seq<char>,
    pub data: Seq<char>,
    pub timestamp: u64,
    pub is_error: bool,
}

impl View for ConnectionMessage {
    type V = ConnectionMessageV;

    open spec fn view(&self) -> ConnectionMessageV {
        ConnectionMessageV {
            connection_id: self.connection_id@,
            data: self.data@,
            timestamp: self.timestamp,
            is_error: self.is_error,
        }
    }
}

/// The capability a transport offers: write one line, and (for transports
/// read synchronously by the host) attempt one line read. Implementations
/// whose handles the host retains live with the host.
pub trait Connection {
    fn write_data(&mut self, data: &str) -> Result<(), String>;

    fn read_data(&mut self) -> Result<Option<String>, String>;
}

/// One enumerated serial device: its name and a description of its kind.
#[derive(Debug, Clone)]
pub struct SerialPortInfo {
    pub port_name: String,
    pub port_type: String,
}

/// Legacy serial-only descriptor returned by the serial-specific operations.
#[derive(Debug, Clone)]
pub struct SerialConnectionInfo {
    pub port_name: String,
    pub baud_rate: u32,
    pub is_connected: bool,
}

/// Mathematical image of a [`SerialConnectionInfo`].
pub struct SerialConnectionInfoV {
    pub port_name: Seq<char>,
    pub baud_rate: u32,
    pub is_connected: bool,
}

impl View for SerialConnectionInfo {
    type V = SerialConnectionInfoV;

    open spec fn view(&self) -> SerialConnectionInfoV {
        SerialConnectionInfoV {
            port_name: self.port_name@,
            baud_rate: self.baud_rate,
            is_connected: self.is_connected,
        }
    }
}

/// Legacy serial-only message record, the serial counterpart of
/// [`ConnectionMessage`].
#[derive(Debug, Clone)]
pub struct SerialMessage {
    pub port_name: String,
    pub data: String,
    pub timestamp: u64,
    pub is_error: bool,
}

} // verus!
