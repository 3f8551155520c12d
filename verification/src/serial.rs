//! The serial transport: an open device handle, the newline-framed write
//! path, and the device-listing query. The device I/O itself goes through
//! trusted wrappers around the `serialport` crate; everything around those
//! calls — framing, error tagging, record building — is verified.

use vstd::prelude::*;
use vstd::string::StringSliceAdditionalSpecFns;

use crate::text::frame_line;
use crate::text::framed_bytes;
use crate::text::tagged_message;
use crate::types::Connection;
use crate::types::SerialPortInfo;

verus! {

/// Declares serialport::TTYPort, the open handle to one serial device, so
/// that signatures and fields here can carry it; it is opaque to the
/// verifier.
#[verifier::external_type_specification]
#[verifier::external_body]
pub struct ExTTYPort(serialport::TTYPort);

/// The bytes written to the device through one handle since the handle was
/// made, in order.
pub uninterp spec fn written_bytes(port: serialport::TTYPort) -> Seq<u8>;

/// The device path one handle was opened on.
pub uninterp spec fn port_path(port: serialport::TTYPort) -> Seq<char>;

/// The baud rate one handle is configured at.
pub uninterp spec fn port_baud(port: serialport::TTYPort) -> u32;

/// The read timeout, in milliseconds, one handle is configured with.
pub uninterp spec fn port_timeout_ms(port: serialport::TTYPort) -> u64;

/// Relies on serialport::new, SerialPortBuilder::timeout and
/// SerialPortBuilder::open_native: opens the named device at `baud_rate` with
/// a read timeout of `timeout_ms` milliseconds, and the handle carries
/// exactly that configuration. On failure the error's description is
/// returned; nothing has been written through a fresh handle.
#[verifier::external_body]
pub(crate) fn open_port(path: &str, baud_rate: u32, timeout_ms: u64) -> (r: Result<
    serialport::TTYPort,
    String,
>)
    ensures
        r matches Ok(p) ==> written_bytes(p) == Seq::<u8>::empty() && port_path(p) == path@
            && port_baud(p) == baud_rate && port_timeout_ms(p) == timeout_ms,
{
    serialport::new(path, baud_rate)
        .timeout(std::time::Duration::from_millis(timeout_ms))
        .open_native()
        .map_err(|e| e.to_string())
}

/// Relies on TTYPort::try_clone_native: duplicates the handle so that owner
/// and reader can use the same device independently; the duplicate shares the
/// device, baud rate and timeout, and nothing has been written through it.
#[verifier::external_body]
pub(crate) fn clone_port(port: &serialport::TTYPort) -> (r: Result<serialport::TTYPort, String>)
    ensures
        r matches Ok(p) ==> written_bytes(p) == Seq::<u8>::empty() && port_path(p) == port_path(
            *port,
        ) && port_baud(p) == port_baud(*port) && port_timeout_ms(p) == port_timeout_ms(*port),
{
    port.try_clone_native().map_err(|e| e.to_string())
}

/// Relies on serialport's std::io::Write::write for TTYPort, through
/// std::io::Write::write_all: on success the whole buffer has been written to
/// the device, in order, after what this handle wrote before; writing never
/// reconfigures the handle.
#[verifier::external_body]
fn port_write_all(port: &mut serialport::TTYPort, bytes: &[u8]) -> (r: Result<(), String>)
    ensures
        r is Ok ==> written_bytes(*final(port)) == written_bytes(*old(port)) + bytes@,
        port_path(*final(port)) == port_path(*old(port)),
        port_baud(*final(port)) == port_baud(*old(port)),
        port_timeout_ms(*final(port)) == port_timeout_ms(*old(port)),
{
    std::io::Write::write_all(port, bytes).map_err(|e| e.to_string())
}

/// Relies on serialport's std::io::Write::flush for TTYPort: blocks until the
/// queued bytes are transmitted; it writes nothing itself and never
/// reconfigures the handle.
#[verifier::external_body]
fn port_flush(port: &mut serialport::TTYPort) -> (r: Result<(), String>)
    ensures
        written_bytes(*final(port)) == written_bytes(*old(port)),
        port_path(*final(port)) == port_path(*old(port)),
        port_baud(*final(port)) == port_baud(*old(port)),
        port_timeout_ms(*final(port)) == port_timeout_ms(*old(port)),
{
    std::io::Write::flush(port).map_err(|e| e.to_string())
}

/// Relies on serialport::available_ports: enumerates the serial devices
/// visible on this machine now, as (device name, kind description) pairs.
/// The result depends on the machine, so nothing is claimed of the pairs.
/// On Linux without libudev serialport scans /sys/class/tty and panics when
/// that directory cannot be read, so the body tests the directory first and
/// returns the cause as the error instead.
#[verifier::external_body]
fn available_port_pairs() -> (r: Result<Vec<(String, String)>, String>) {
    if let Err(e) = std::path::Path::new("/sys/class/tty").read_dir() {
        return Err(e.to_string());
    }
    match serialport::available_ports() {
        Ok(ports) => Ok(
            ports.into_iter().map(|p| (p.port_name, format!("{:?}", p.port_type))).collect(),
        ),
        Err(e) => Err(e.to_string()),
    }
}

/// Turn enumerated (name, kind) pairs into device records, one per pair, in
/// order, fields unchanged.
pub fn ports_from_pairs(pairs: &Vec<(String, String)>) -> (r: Vec<SerialPortInfo>)
    ensures
        r@.len() == pairs@.len(),
        forall|i: int|
            0 <= i < r@.len() ==> r@[i].port_name@ == pairs@[i].0@ && r@[i].port_type@
                == pairs@[i].1@,
{
    let mut out: Vec<SerialPortInfo> = Vec::new();
    let mut i: usize = 0;
    while i < pairs.len()
        invariant
            i <= pairs@.len(),
            out@.len() == i,
            forall|j: int|
                0 <= j < i ==> out@[j].port_name@ == pairs@[j].0@ && out@[j].port_type@
                    == pairs@[j].1@,
        decreases pairs@.len() - i,
    {
        let pair = &pairs[i];
        out.push(SerialPortInfo { port_name: pair.0.clone(), port_type: pair.1.clone() });
        i = i + 1;
    }
    out
}

/// Enumerate the serial devices available on this machine. On failure the
/// error is tagged with the listing operation.
pub fn list_serial_ports() -> (r: Result<Vec<SerialPortInfo>, String>)
    ensures
        r matches Err(m) ==> exists|c: Seq<char>| m@ == "Failed to list serial ports: "@ + c,
{
    match available_port_pairs() {
        Ok(pairs) => Ok(ports_from_pairs(&pairs)),
        Err(e) => {
            let m = tagged_message("Failed to list serial ports: ", e.as_str());
            proof {
                assert(m@ == "Failed to list serial ports: "@ + e@);
            }
            Err(m)
        },
    }
}

/// An open serial device: the write side of one serial connection.
pub struct SerialConnection {
    port: serialport::TTYPort,
}

impl SerialConnection {
    /// The bytes written to the device through this connection's handle.
    pub closed spec fn spec_written(&self) -> Seq<u8> {
        written_bytes(self.port)
    }

    /// The device path this connection's handle was opened on.
    pub closed spec fn spec_path(&self) -> Seq<char> {
        port_path(self.port)
    }

    /// The baud rate this connection's handle is configured at.
    pub closed spec fn spec_baud(&self) -> u32 {
        port_baud(self.port)
    }

    /// The read timeout, in milliseconds, this connection's handle is
    /// configured with.
    pub closed spec fn spec_timeout_ms(&self) -> u64 {
        port_timeout_ms(self.port)
    }

    /// Wrap an open serial device handle.
    pub fn new(port: serialport::TTYPort) -> (r: SerialConnection)
        ensures
            r.spec_written() == written_bytes(port),
            r.spec_path() == port_path(port),
            r.spec_baud() == port_baud(port),
            r.spec_timeout_ms() == port_timeout_ms(port),
    {
        SerialConnection { port }
    }

    /// Write one line to the device: frame `data` so that it ends in exactly
    /// one newline terminator, write the frame, and flush. On success exactly
    /// the framed bytes were appended to what this handle wrote before; on
    /// failure the error names the failing step.
    pub fn write_line(&mut self, data: &str) -> (r: Result<(), String>)
        ensures
            r is Ok ==> final(self).spec_written() == old(self).spec_written() + framed_bytes(
                data.spec_bytes(),
            ),
            final(self).spec_path() == old(self).spec_path(),
            final(self).spec_baud() == old(self).spec_baud(),
            final(self).spec_timeout_ms() == old(self).spec_timeout_ms(),
            r matches Err(m) ==> exists|c: Seq<char>|
                m@ == "Failed to write to serial port: "@ + c || m@
                    == "Failed to flush serial port: "@ + c,
    {
        let frame = frame_line(data);
        match port_write_all(&mut self.port, frame.as_slice()) {
            Ok(_) => {},
            Err(e) => {
                let m = tagged_message("Failed to write to serial port: ", e.as_str());
                proof {
                    assert(m@ == "Failed to write to serial port: "@ + e@);
                }
                return Err(m);
            },
        }
        match port_flush(&mut self.port) {
            Ok(_) => Ok(()),
            Err(e) => {
                let m = tagged_message("Failed to flush serial port: ", e.as_str());
                proof {
                    assert(m@ == "Failed to flush serial port: "@ + e@);
                }
                Err(m)
            },
        }
    }
}

impl Connection for SerialConnection {
    fn write_data(&mut self, data: &str) -> Result<(), String> {
        self.write_line(data)
    }

    fn read_data(&mut self) -> (r: Result<Option<String>, String>)
        ensures
            r == Ok::<Option<String>, String>(None),
            *final(self) == *old(self),
    {
        // Incoming serial data is read on the cloned handle by the host's
        // reader loop, not through this write-side handle.
        Ok(None)
    }
}

} // verus!
