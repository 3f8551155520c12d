//! The connection registry and the operations built on it: idempotent open,
//! always-succeeding close, registry-checked write, and status snapshots,
//! plus the legacy serial-only entry points. The registry is the single
//! source of truth for "is this connection open": at most one entry per
//! identifier, each holding the full descriptor it was opened with.
//!
//! The manager owns the write side of the serial transports it opens; the
//! handles of host-opened transports (TCP) stay with the host, which the
//! write operation signals instead of writing itself. The host provides the
//! mutual exclusion around a shared manager and runs the reader loops.

use vstd::prelude::*;
use vstd::string::StringExecFns;
use vstd::string::StringSliceAdditionalSpecFns;
use vstd::utf8::encode_utf8;

use crate::serial::clone_port;
use crate::serial::open_port;
use crate::serial::port_baud;
use crate::serial::port_path;
use crate::serial::port_timeout_ms;
use crate::serial::written_bytes;
use crate::serial::SerialConnection;
use crate::text::framed_bytes;
use crate::text::not_found_message;
use crate::text::not_found_text;
use crate::text::serial_open_error_message;
use crate::text::serial_open_error_text;
use crate::text::tagged_message;
use crate::types::ConnectionInfo;
use crate::types::ConnectionInfoV;
use crate::types::ConnectionType;
use crate::types::SerialConnectionInfo;
use crate::types::SerialConnectionInfoV;

verus! {

/// Baud rate used to open a serial device when the caller gives none.
pub const DEFAULT_BAUD_RATE: u32 = 115200;

/// Read timeout, in milliseconds, set on every transport the manager opens,
/// so that reader loops poll cooperatively instead of blocking indefinitely.
pub const READ_TIMEOUT_MS: u64 = 100;

/// Whether `id` is among the stored descriptors' identifiers.
pub open spec fn has_id(infos: Seq<ConnectionInfoV>, id: Seq<char>) -> bool {
    exists|k: int| 0 <= k < infos.len() && infos[k].connection_id == id
}

/// The index of the descriptor keyed by `id`; meaningful when `has_id` holds
/// and the identifiers are unique.
pub open spec fn idx_of(infos: Seq<ConnectionInfoV>, id: Seq<char>) -> int {
    choose|k: int| 0 <= k < infos.len() && infos[k].connection_id == id
}

/// The descriptor keyed by `id`.
pub open spec fn info_of(infos: Seq<ConnectionInfoV>, id: Seq<char>) -> ConnectionInfoV {
    infos[idx_of(infos, id)]
}

/// At most one descriptor per identifier.
pub open spec fn ids_unique(infos: Seq<ConnectionInfoV>) -> bool {
    forall|i: int, j: int|
        0 <= i < j < infos.len() ==> infos[i].connection_id != infos[j].connection_id
}

/// Under unique identifiers, two indices carrying the same identifier are the
/// same index.
pub proof fn lemma_id_index_unique(infos: Seq<ConnectionInfoV>, i: int, j: int)
    requires
        ids_unique(infos),
        0 <= i < infos.len(),
        0 <= j < infos.len(),
        infos[i].connection_id == infos[j].connection_id,
    ensures
        i == j,
{
    if i < j {
        assert(infos[i].connection_id != infos[j].connection_id);
    } else if j < i {
        assert(infos[j].connection_id != infos[i].connection_id);
    }
}

/// The descriptor an open stores for a connection: keyed by its address,
/// carrying the caller's configuration, marked connected.
pub open spec fn made_info(
    connection_type: ConnectionType,
    address: Seq<char>,
    baud_rate: Option<u32>,
) -> ConnectionInfoV {
    ConnectionInfoV {
        connection_id: address,
        connection_type: connection_type,
        address: address,
        baud_rate: baud_rate,
        is_connected: true,
    }
}

/// How one registry entry's transport is held: the manager owns the write
/// side of the serial devices it opened; other handles stay with the host.
enum TransportSlot {
    Serial(SerialConnection),
    Hosted,
}

struct Entry {
    info: ConnectionInfo,
    slot: TransportSlot,
}

/// What an open request asks of the caller next.
pub enum OpenOutcome {
    /// The identifier was already registered: its stored descriptor, returned
    /// without side effects.
    AlreadyOpen(ConnectionInfo),
    /// A serial device was opened and registered: the new descriptor, and the
    /// cloned read handle the host must run a reader loop on.
    SerialOpened(ConnectionInfo, serialport::TTYPort),
    /// TCP streams are opened by the host: open one to the address, then
    /// register it with `register_hosted` and run a reader loop on it.
    TcpRequested,
}

/// What a write against a registered identifier asks of the caller next.
pub enum WriteOutcome {
    /// The manager's own transport handle performed the write.
    Done,
    /// The entry's transport handle is retained by the host: the host
    /// performs the write.
    Hosted,
}

/// The view of a descriptor sequence.
pub open spec fn infos_view(infos: Seq<ConnectionInfo>) -> Seq<ConnectionInfoV> {
    infos.map_values(|c: ConnectionInfo| c@)
}

/// Copy a descriptor field by field.
fn copy_info(info: &ConnectionInfo) -> (r: ConnectionInfo)
    ensures
        r@ == info@,
{
    ConnectionInfo {
        connection_id: info.connection_id.clone(),
        connection_type: info.connection_type,
        address: info.address.clone(),
        baud_rate: info.baud_rate,
        is_connected: info.is_connected,
    }
}

/// The registry of open connections and the manager of their lifecycle.
pub struct ConnectionManager {
    entries: Vec<Entry>,
}

impl ConnectionManager {
    /// The stored descriptors, in insertion order.
    pub closed spec fn infos(&self) -> Seq<ConnectionInfoV> {
        self.entries@.map_values(|e: Entry| e.info@)
    }

    /// The bytes written through the manager-owned transport handle of the
    /// entry at `k`, or nothing when the host retains that entry's handle.
    pub closed spec fn written_at(&self, k: int) -> Option<Seq<u8>> {
        match self.entries@[k].slot {
            TransportSlot::Serial(c) => Some(c.spec_written()),
            TransportSlot::Hosted => None,
        }
    }

    /// The device path, baud rate and read timeout of the manager-owned
    /// serial handle of the entry at `k`, or nothing when the host retains
    /// that entry's handle.
    pub closed spec fn serial_config_at(&self, k: int) -> Option<(Seq<char>, u32, u64)> {
        match self.entries@[k].slot {
            TransportSlot::Serial(c) => Some((c.spec_path(), c.spec_baud(), c.spec_timeout_ms())),
            TransportSlot::Hosted => None,
        }
    }

    /// Well-formed: at most one entry per identifier, every stored descriptor
    /// marked connected.
    pub open spec fn wf(&self) -> bool {
        &&& ids_unique(self.infos())
        &&& forall|k: int| 0 <= k < self.infos().len() ==> self.infos()[k].is_connected
    }

    /// An empty registry.
    pub fn new() -> (r: ConnectionManager)
        ensures
            r.infos() == Seq::<ConnectionInfoV>::empty(),
            r.wf(),
    {
        let m = ConnectionManager { entries: Vec::new() };
        proof {
            assert(m.infos() =~= Seq::<ConnectionInfoV>::empty());
        }
        m
    }

    /// The index of the entry keyed by `connection_id`, if one is stored.
    fn find_index(&self, connection_id: &String) -> (r: Option<usize>)
        ensures
            match r {
                Some(i) => i < self.infos().len() && self.infos()[i as int].connection_id
                    == connection_id@,
                None => forall|k: int|
                    0 <= k < self.infos().len() ==> self.infos()[k].connection_id
                        != connection_id@,
            },
    {
        let mut i: usize = 0;
        while i < self.entries.len()
            invariant
                i <= self.entries@.len(),
                forall|k: int|
                    0 <= k < i ==> self.infos()[k].connection_id != connection_id@,
            decreases self.entries@.len() - i,
        {
            if self.entries[i].info.connection_id == *connection_id {
                return Some(i);
            }
            i = i + 1;
        }
        None
    }

    /// Open a connection, idempotently. An identifier already registered is
    /// answered with its stored descriptor and no side effect. Otherwise a
    /// serial request opens the device (at the caller's baud rate, or the
    /// default) and registers it, a TCP request is handed back to the host,
    /// and a WebSocket request fails: that transport is a declared
    /// placeholder. The connection identifier is the address.
    pub fn connect_device(
        &mut self,
        connection_type: ConnectionType,
        address: String,
        baud_rate: Option<u32>,
    ) -> (r: Result<OpenOutcome, String>)
        requires
            old(self).wf(),
        ensures
            final(self).wf(),
            has_id(old(self).infos(), address@) ==> (r matches Ok(o) && o matches
                OpenOutcome::AlreadyOpen(info) && info@ == info_of(old(self).infos(), address@)
                && final(self).infos() == old(self).infos()),
            !has_id(old(self).infos(), address@) && connection_type is WebSocket ==> (r matches Err(
                m,
            ) && m@ == "WebSocket connections not yet implemented"@ && final(self).infos() == old(
                self,
            ).infos()),
            !has_id(old(self).infos(), address@) && connection_type is Tcp ==> (r matches Ok(o)
                && o is TcpRequested && final(self).infos() == old(self).infos()),
            !has_id(old(self).infos(), address@) && connection_type is Serial ==> match r {
                Ok(o) => o matches OpenOutcome::SerialOpened(info, h) && info@ == made_info(
                    ConnectionType::Serial,
                    address@,
                    baud_rate,
                ) && final(self).infos() == old(self).infos().push(info@) && written_bytes(h)
                    == Seq::<u8>::empty() && final(self).written_at(
                    old(self).infos().len() as int,
                ) == Some(Seq::<u8>::empty()) && port_path(h) == address@ && port_baud(h)
                    == baud_or_default(baud_rate) && port_timeout_ms(h) == READ_TIMEOUT_MS
                    && final(self).serial_config_at(old(self).infos().len() as int) == Some(
                    (address@, baud_or_default(baud_rate), READ_TIMEOUT_MS),
                ),
                Err(m) => final(self).infos() == old(self).infos() && exists|c: Seq<char>|
                    m@ == serial_open_error_text(address@, c) || m@
                        == "Failed to clone serial port: "@ + c,
            },
            forall|j: int|
                0 <= j < old(self).infos().len() ==> final(self).written_at(j) == old(
                    self,
                ).written_at(j),
            forall|j: int|
                0 <= j < old(self).infos().len() ==> final(self).serial_config_at(j) == old(
                    self,
                ).serial_config_at(j),
    {
        match self.find_index(&address) {
            Some(i) => {
                let info = copy_info(&self.entries[i].info);
                proof {
                    let k = idx_of(self.infos(), address@);
                    lemma_id_index_unique(self.infos(), k, i as int);
                }
                Ok(OpenOutcome::AlreadyOpen(info))
            },
            None => {
                match connection_type {
                    ConnectionType::WebSocket => {
                        Err(String::from_str("WebSocket connections not yet implemented"))
                    },
                    ConnectionType::Tcp => Ok(OpenOutcome::TcpRequested),
                    ConnectionType::Serial => {
                        let baud = match baud_rate {
                            Some(b) => b,
                            None => DEFAULT_BAUD_RATE,
                        };
                        let port = match open_port(address.as_str(), baud, READ_TIMEOUT_MS) {
                            Ok(p) => p,
                            Err(e) => {
                                let m = serial_open_error_message(address.as_str(), e.as_str());
                                proof {
                                    assert(m@ == serial_open_error_text(address@, e@));
                                }
                                return Err(m);
                            },
                        };
                        let read_handle = match clone_port(&port) {
                            Ok(h) => h,
                            Err(e) => {
                                let m = tagged_message("Failed to clone serial port: ", e.as_str());
                                proof {
                                    assert(m@ == "Failed to clone serial port: "@ + e@);
                                }
                                return Err(m);
                            },
                        };
                        let info = ConnectionInfo {
                            connection_id: address.clone(),
                            connection_type: ConnectionType::Serial,
                            address,
                            baud_rate,
                            is_connected: true,
                        };
                        let returned = copy_info(&info);
                        let conn = SerialConnection::new(port);
                        let ghost old_infos = self.infos();
                        self.entries.push(Entry { info, slot: TransportSlot::Serial(conn) });
                        proof {
                            assert(self.infos() =~= old_infos.push(returned@));
                        }
                        Ok(OpenOutcome::SerialOpened(returned, read_handle))
                    },
                }
            },
        }
    }

    /// Register a connection whose transport handle the host retains (a TCP
    /// stream the host just opened, or any transport the host manages
    /// itself), idempotently: an identifier already registered is answered
    /// with its stored descriptor and no side effect.
    pub fn register_hosted(
        &mut self,
        connection_type: ConnectionType,
        address: String,
        baud_rate: Option<u32>,
    ) -> (r: ConnectionInfo)
        requires
            old(self).wf(),
        ensures
            final(self).wf(),
            has_id(old(self).infos(), address@) ==> r@ == info_of(old(self).infos(), address@)
                && final(self).infos() == old(self).infos(),
            !has_id(old(self).infos(), address@) ==> r@ == made_info(
                connection_type,
                address@,
                baud_rate,
            ) && final(self).infos() == old(self).infos().push(r@) && final(self).written_at(
                old(self).infos().len() as int,
            ) is None && final(self).serial_config_at(old(self).infos().len() as int) is None,
            forall|j: int|
                0 <= j < old(self).infos().len() ==> final(self).written_at(j) == old(
                    self,
                ).written_at(j),
            forall|j: int|
                0 <= j < old(self).infos().len() ==> final(self).serial_config_at(j) == old(
                    self,
                ).serial_config_at(j),
    {
        match self.find_index(&address) {
            Some(i) => {
                let info = copy_info(&self.entries[i].info);
                proof {
                    let k = idx_of(self.infos(), address@);
                    lemma_id_index_unique(self.infos(), k, i as int);
                }
                info
            },
            None => {
                let info = ConnectionInfo {
                    connection_id: address.clone(),
                    connection_type,
                    address,
                    baud_rate,
                    is_connected: true,
                };
                let returned = copy_info(&info);
                let ghost old_infos = self.infos();
                self.entries.push(Entry { info, slot: TransportSlot::Hosted });
                proof {
                    assert(self.infos() =~= old_infos.push(returned@));
                }
                returned
            },
        }
    }

    /// Close a connection: remove its registry entry, dropping the manager's
    /// transport handle with it. Always succeeds; closing an identifier that
    /// is not registered is a no-op. No stop signal reaches a running reader
    /// loop: it exits on its own when its stream ends or fails.
    pub fn disconnect_device(&mut self, connection_id: String) -> (r: Result<(), String>)
        requires
            old(self).wf(),
        ensures
            final(self).wf(),
            r is Ok,
            !has_id(old(self).infos(), connection_id@) ==> *final(self) == *old(self),
            has_id(old(self).infos(), connection_id@) ==> final(self).infos() == old(
                self,
            ).infos().remove(idx_of(old(self).infos(), connection_id@)),
            has_id(old(self).infos(), connection_id@) ==> forall|j: int|
                0 <= j < final(self).infos().len() ==> final(self).written_at(j) == (if j < idx_of(
                    old(self).infos(),
                    connection_id@,
                ) {
                    old(self).written_at(j)
                } else {
                    old(self).written_at(j + 1)
                }),
            has_id(old(self).infos(), connection_id@) ==> forall|j: int|
                0 <= j < final(self).infos().len() ==> final(self).serial_config_at(j) == (if j
                    < idx_of(old(self).infos(), connection_id@) {
                    old(self).serial_config_at(j)
                } else {
                    old(self).serial_config_at(j + 1)
                }),
            !has_id(final(self).infos(), connection_id@),
    {
        match self.find_index(&connection_id) {
            None => Ok(()),
            Some(i) => {
                let ghost old_infos = self.infos();
                let _removed = self.entries.remove(i);
                proof {
                    assert(self.infos() =~= old_infos.remove(i as int));
                    lemma_id_index_unique(old_infos, idx_of(old_infos, connection_id@), i as int);
                    assert forall|k: int|
                        0 <= k < self.infos().len() implies self.infos()[k].connection_id
                        != connection_id@ by {
                        let j: int = if k < i as int {
                            k
                        } else {
                            k + 1
                        };
                        assert(self.infos()[k] == old_infos[j]);
                        if old_infos[j].connection_id == connection_id@ {
                            lemma_id_index_unique(old_infos, j, i as int);
                        }
                    }
                    assert forall|a: int, b: int|
                        0 <= a < b < self.infos().len() implies self.infos()[a].connection_id
                        != self.infos()[b].connection_id by {
                        let a2: int = if a < i as int {
                            a
                        } else {
                            a + 1
                        };
                        let b2: int = if b < i as int {
                            b
                        } else {
                            b + 1
                        };
                        assert(self.infos()[a] == old_infos[a2]);
                        assert(self.infos()[b] == old_infos[b2]);
                    }
                }
                Ok(())
            },
        }
    }

    /// Write one line to a registered connection. An identifier with no entry
    /// fails with the "not found" error and no transport-level side effect.
    /// A manager-owned serial entry gets the newline-framed line written and
    /// flushed; a host-retained entry is handed back to the host. The
    /// registry itself never changes.
    pub fn write_device_data(&mut self, connection_id: String, data: String) -> (r: Result<
        WriteOutcome,
        String,
    >)
        requires
            old(self).wf(),
        ensures
            final(self).wf(),
            final(self).infos() == old(self).infos(),
            !has_id(old(self).infos(), connection_id@) ==> (r matches Err(m) && m@
                == not_found_text(connection_id@) && *final(self) == *old(self)),
            has_id(old(self).infos(), connection_id@) ==> {
                let k = idx_of(old(self).infos(), connection_id@);
                &&& (forall|j: int|
                    0 <= j < old(self).infos().len() && j != k ==> final(self).written_at(j)
                        == old(self).written_at(j))
                &&& (forall|j: int|
                    0 <= j < old(self).infos().len() ==> final(self).serial_config_at(j) == old(
                        self,
                    ).serial_config_at(j))
                &&& (old(self).written_at(k) is None ==> (r matches Ok(o) && o is Hosted
                    && final(self).written_at(k) is None))
                &&& (old(self).written_at(k) matches Some(w) ==> {
                    &&& (r matches Ok(o) ==> o is Done && final(self).written_at(k)
                        == Some(w + framed_bytes(encode_utf8(data@))))
                    &&& (r matches Err(m) ==> exists|c: Seq<char>|
                        m@ == "Failed to write to serial port: "@ + c || m@
                            == "Failed to flush serial port: "@ + c)
                })
            },
    {
        match self.find_index(&connection_id) {
            None => {
                let m = not_found_message(connection_id.as_str());
                Err(m)
            },
            Some(i) => {
                proof {
                    lemma_id_index_unique(
                        self.infos(),
                        idx_of(self.infos(), connection_id@),
                        i as int,
                    );
                }
                let ghost old_entries = self.entries@;
                let mut e = self.entries.remove(i);
                let result = match &mut e.slot {
                    TransportSlot::Hosted => Ok(WriteOutcome::Hosted),
                    TransportSlot::Serial(conn) => match conn.write_line(data.as_str()) {
                        Ok(_) => Ok(WriteOutcome::Done),
                        Err(m) => Err(m),
                    },
                };
                self.entries.insert(i, e);
                proof {
                    assert(self.entries@ =~= old_entries.update(i as int, self.entries@[i as int]));
                    assert(self.entries@[i as int].info == old_entries[i as int].info);
                    assert(self.infos() =~= old(self).infos());
                }
                result
            },
        }
    }

    /// A snapshot of every registered connection's stored descriptor, in
    /// insertion order.
    pub fn get_device_connections(&self) -> (r: Vec<ConnectionInfo>)
        ensures
            infos_view(r@) == self.infos(),
    {
        let mut out: Vec<ConnectionInfo> = Vec::new();
        let mut i: usize = 0;
        proof {
            assert(infos_view(out@) =~= self.infos().take(0));
        }
        while i < self.entries.len()
            invariant
                i <= self.entries@.len(),
                infos_view(out@) == self.infos().take(i as int),
            decreases self.entries@.len() - i,
        {
            let ghost out_before = out@;
            let info = copy_info(&self.entries[i].info);
            out.push(info);
            proof {
                assert(out@ =~= out_before.push(info));
                assert(infos_view(out@) =~= infos_view(out_before).push(info@));
                assert(info@ == self.infos()[i as int]);
                assert(infos_view(out@) =~= self.infos().take(i + 1));
            }
            i = i + 1;
        }
        proof {
            assert(self.infos().take(self.entries@.len() as int) =~= self.infos());
        }
        out
    }

    /// Open a serial connection under the legacy entry points: the serial
    /// half of `connect_device`, answered with the legacy record. On success
    /// the second component is the read handle to run a reader loop on, when
    /// the open was not answered from the registry.
    pub fn connect_serial_port(&mut self, port_name: String, baud_rate: u32) -> (r: Result<
        (SerialConnectionInfo, Option<serialport::TTYPort>),
        String,
    >)
        requires
            old(self).wf(),
        ensures
            final(self).wf(),
            r matches Ok(p) ==> (p.0@ == (SerialConnectionInfoV {
                port_name: port_name@,
                baud_rate: baud_rate,
                is_connected: true,
            })),
            has_id(old(self).infos(), port_name@) ==> (r matches Ok(p) && p.1 is None
                && final(self).infos() == old(self).infos()),
            !has_id(old(self).infos(), port_name@) ==> match r {
                Ok(p) => p.1 matches Some(h) && final(self).infos() == old(self).infos().push(
                    made_info(ConnectionType::Serial, port_name@, Some(baud_rate)),
                ) && port_path(h) == port_name@ && port_baud(h) == baud_rate && port_timeout_ms(h)
                    == READ_TIMEOUT_MS && final(self).serial_config_at(
                    old(self).infos().len() as int,
                ) == Some((port_name@, baud_rate, READ_TIMEOUT_MS)),
                Err(m) => final(self).infos() == old(self).infos() && exists|c: Seq<char>|
                    m@ == serial_open_error_text(port_name@, c) || m@
                        == "Failed to clone serial port: "@ + c,
            },
    {
        let name_copy = port_name.clone();
        match self.connect_device(ConnectionType::Serial, port_name, Some(baud_rate)) {
            Err(m) => Err(m),
            Ok(outcome) => {
                let sci = SerialConnectionInfo {
                    port_name: name_copy,
                    baud_rate,
                    is_connected: true,
                };
                match outcome {
                    OpenOutcome::AlreadyOpen(_) => Ok((sci, None)),
                    OpenOutcome::SerialOpened(_, h) => Ok((sci, Some(h))),
                    OpenOutcome::TcpRequested => {
                        proof {
                            assert(false);
                        }
                        Err(String::new())
                    },
                }
            },
        }
    }

    /// Close a serial connection under the legacy entry points: exactly
    /// `disconnect_device`.
    pub fn disconnect_serial_port(&mut self, port_name: String) -> (r: Result<(), String>)
        requires
            old(self).wf(),
        ensures
            final(self).wf(),
            r is Ok,
            !has_id(old(self).infos(), port_name@) ==> final(self).infos() == old(self).infos(),
            has_id(old(self).infos(), port_name@) ==> final(self).infos() == old(
                self,
            ).infos().remove(idx_of(old(self).infos(), port_name@)),
            !has_id(final(self).infos(), port_name@),
    {
        self.disconnect_device(port_name)
    }

    /// Write one line under the legacy entry points: exactly
    /// `write_device_data`.
    pub fn write_serial_data(&mut self, port_name: String, data: String) -> (r: Result<
        WriteOutcome,
        String,
    >)
        requires
            old(self).wf(),
        ensures
            final(self).wf(),
            final(self).infos() == old(self).infos(),
            !has_id(old(self).infos(), port_name@) ==> (r matches Err(m) && m@ == not_found_text(
                port_name@,
            ) && *final(self) == *old(self)),
            has_id(old(self).infos(), port_name@) ==> {
                let k = idx_of(old(self).infos(), port_name@);
                &&& (forall|j: int|
                    0 <= j < old(self).infos().len() && j != k ==> final(self).written_at(j)
                        == old(self).written_at(j))
                &&& (old(self).written_at(k) is None ==> (r matches Ok(o) && o is Hosted
                    && final(self).written_at(k) is None))
                &&& (old(self).written_at(k) matches Some(w) ==> {
                    &&& (r matches Ok(o) ==> o is Done && final(self).written_at(k)
                        == Some(w + framed_bytes(encode_utf8(data@))))
                    &&& (r matches Err(m) ==> exists|c: Seq<char>|
                        m@ == "Failed to write to serial port: "@ + c || m@
                            == "Failed to flush serial port: "@ + c)
                })
            },
    {
        self.write_device_data(port_name, data)
    }

    /// The legacy status snapshot: one record per registered serial
    /// connection, in insertion order, named by its address, with the stored
    /// baud rate (or the default where none was stored).
    pub fn get_connection_status(&self) -> (r: Vec<SerialConnectionInfo>)
        ensures
            status_view(r@) == spec_status(self.infos()),
    {
        let mut out: Vec<SerialConnectionInfo> = Vec::new();
        let mut i: usize = 0;
        proof {
            assert(self.infos().take(0) =~= Seq::<ConnectionInfoV>::empty());
            assert(status_view(out@) =~= spec_status(self.infos().take(0)));
        }
        while i < self.entries.len()
            invariant
                i <= self.entries@.len(),
                status_view(out@) == spec_status(self.infos().take(i as int)),
            decreases self.entries@.len() - i,
        {
            let ghost out_before = out@;
            let e = &self.entries[i];
            proof {
                assert(self.infos().take(i + 1).drop_last() =~= self.infos().take(i as int));
                assert(self.infos().take(i + 1).last() == self.infos()[i as int]);
            }
            match e.info.connection_type {
                ConnectionType::Serial => {
                    let baud = match e.info.baud_rate {
                        Some(b) => b,
                        None => DEFAULT_BAUD_RATE,
                    };
                    let sci = SerialConnectionInfo {
                        port_name: e.info.address.clone(),
                        baud_rate: baud,
                        is_connected: e.info.is_connected,
                    };
                    out.push(sci);
                    proof {
                        assert(out@ =~= out_before.push(sci));
                        assert(status_view(out@) =~= status_view(out_before).push(sci@));
                        assert(status_view(out@) =~= spec_status(self.infos().take(i + 1)));
                    }
                },
                _ => {
                    proof {
                        assert(status_view(out@) =~= spec_status(self.infos().take(i + 1)));
                    }
                },
            }
            i = i + 1;
        }
        proof {
            assert(self.infos().take(self.entries@.len() as int) =~= self.infos());
        }
        out
    }
}

/// The stored baud rate, or the default where none was stored.
pub open spec fn baud_or_default(baud_rate: Option<u32>) -> u32 {
    match baud_rate {
        Some(b) => b,
        None => DEFAULT_BAUD_RATE,
    }
}

/// The view of a legacy record sequence.
pub open spec fn status_view(records: Seq<SerialConnectionInfo>) -> Seq<SerialConnectionInfoV> {
    records.map_values(|s: SerialConnectionInfo| s@)
}

/// The legacy status of a descriptor sequence: one record per serial
/// descriptor, in order, keyed by address.
pub open spec fn spec_status(infos: Seq<ConnectionInfoV>) -> Seq<SerialConnectionInfoV>
    decreases infos.len(),
{
    if infos.len() == 0 {
        Seq::empty()
    } else {
        let rest = spec_status(infos.drop_last());
        if infos.last().connection_type is Serial {
            rest.push(
                SerialConnectionInfoV {
                    port_name: infos.last().address,
                    baud_rate: baud_or_default(infos.last().baud_rate),
                    is_connected: infos.last().is_connected,
                },
            )
        } else {
            rest
        }
    }
}

/// Law: opening the same identifier twice, with no close in between, yields
/// the same descriptor both times and exactly one registry entry. After a
/// first open registers `info` in a registry that did not hold its
/// identifier, the identifier is present, resolves to exactly `info` — which
/// is what the already-open path of a second open returns, with no further
/// change — and the registry grew by exactly the one entry.
pub proof fn lemma_open_idempotent(infos: Seq<ConnectionInfoV>, info: ConnectionInfoV)
    requires
        ids_unique(infos),
        !has_id(infos, info.connection_id),
    ensures
        has_id(infos.push(info), info.connection_id),
        info_of(infos.push(info), info.connection_id) == info,
        infos.push(info).len() == infos.len() + 1,
        ids_unique(infos.push(info)),
{
    let after = infos.push(info);
    assert(after[infos.len() as int] == info);
    assert(has_id(after, info.connection_id));
    assert forall|a: int, b: int|
        0 <= a < b < after.len() implies after[a].connection_id != after[b].connection_id by {
        if b < infos.len() {
            assert(after[a] == infos[a] && after[b] == infos[b]);
        } else {
            assert(after[b] == info);
            assert(after[a] == infos[a]);
            assert(!(0 <= a < infos.len() && infos[a].connection_id == info.connection_id));
        }
    }
    let k = idx_of(after, info.connection_id);
    lemma_id_index_unique(after, k, infos.len() as int);
}

} // verus!
