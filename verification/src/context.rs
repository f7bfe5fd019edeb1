//! The communication context: which backend a session talks through, its
//! addressing parameters, the slave identifier, the debug flag, timeouts
//! and the retry budget. The context owns no socket or serial line; the
//! caller opens the transport and drives the engine with its bytes.

use vstd::prelude::*;
use crate::ModbusError;

verus! {

/// The RTU serial line mode.
#[derive(Debug, PartialEq, Eq, Clone, Copy, Structural)]
pub enum SerialMode {
    /// Point-to-point RS-232.
    RtuRS232,
    /// Multi-drop RS-485.
    RtuRS485,
}

/// How the request-to-send line is driven around an RTU write.
#[derive(Debug, PartialEq, Eq, Clone, Copy, Structural)]
pub enum RequestToSendMode {
    /// The line is left alone.
    RtuRtsNone,
    /// The line is raised for the write.
    RtuRtsUp,
    /// The line is lowered for the write.
    RtuRtsDown,
}

/// A backend and its addressing parameters.
#[derive(Debug, PartialEq, Eq)]
pub enum Backend {
    /// A serial line: device path and line settings.
    Rtu { device: String, baud: i32, parity: char, data_bit: i32, stop_bit: i32 },
    /// A TCP endpoint: IPv4 host and port.
    Tcp { host: String, port: u16 },
    /// A protocol-independent TCP endpoint: node and service strings.
    TcpPi { node: String, service: String },
}

/// The mathematical shape of a backend.
pub enum BackendModel {
    Rtu { device: Seq<char>, baud: i32, parity: char, data_bit: i32, stop_bit: i32 },
    Tcp { host: Seq<char>, port: u16 },
    TcpPi { node: Seq<char>, service: Seq<char> },
}

impl View for Backend {
    type V = BackendModel;

    open spec fn view(&self) -> BackendModel {
        match self {
            Backend::Rtu { device, baud, parity, data_bit, stop_bit } => BackendModel::Rtu {
                device: device@,
                baud: *baud,
                parity: *parity,
                data_bit: *data_bit,
                stop_bit: *stop_bit,
            },
            Backend::Tcp { host, port } => BackendModel::Tcp { host: host@, port: *port },
            Backend::TcpPi { node, service } => BackendModel::TcpPi {
                node: node@,
                service: service@,
            },
        }
    }
}

/// The mathematical shape of a context.
pub struct CtxModel {
    pub backend: BackendModel,
    pub slave: u8,
    pub debug: bool,
    pub response_timeout_ms: u32,
    pub max_retries: u32,
    pub connected: bool,
    pub serial_mode: SerialMode,
    pub rts_mode: RequestToSendMode,
    pub rts_delay_us: i32,
    pub next_tid: u16,
}

/// Whether the serial line settings are ones the wire format supports.
pub open spec fn rtu_params_ok(baud: i32, parity: char, data_bit: i32, stop_bit: i32) -> bool {
    &&& baud > 0
    &&& (parity == 'N' || parity == 'E' || parity == 'O')
    &&& 5 <= data_bit <= 8
    &&& 1 <= stop_bit <= 2
}

/// The microseconds one character occupies on the line: start bit, data
/// bits, a parity bit unless parity is off, and the stop bits.
pub open spec fn char_time_us(baud: i32, parity: char, data_bit: i32, stop_bit: i32) -> int {
    let parity_bits: int = if parity == 'N' { 0 } else { 1 };
    (1 + data_bit + stop_bit + parity_bits) * 1000000 / (baud as int)
}

/// The invariant every context keeps.
pub open spec fn ctx_wf(c: CtxModel) -> bool {
    &&& c.slave <= 247
    &&& c.rts_delay_us >= 0
    &&& c.max_retries < u32::MAX
    &&& (c.backend matches BackendModel::Rtu { baud, parity, data_bit, stop_bit, .. }
        ==> rtu_params_ok(baud, parity, data_bit, stop_bit))
}

/// One communication endpoint: backend, addressing, slave identifier,
/// debug flag, timeouts and retry budget.
#[derive(Debug, PartialEq, Eq)]
pub struct Modbus {
    backend: Backend,
    slave: u8,
    debug: bool,
    response_timeout_ms: u32,
    max_retries: u32,
    connected: bool,
    serial_mode: SerialMode,
    rts_mode: RequestToSendMode,
    rts_delay_us: i32,
    next_tid: u16,
}

impl View for Modbus {
    type V = CtxModel;

    closed spec fn view(&self) -> CtxModel {
        CtxModel {
            backend: self.backend@,
            slave: self.slave,
            debug: self.debug,
            response_timeout_ms: self.response_timeout_ms,
            max_retries: self.max_retries,
            connected: self.connected,
            serial_mode: self.serial_mode,
            rts_mode: self.rts_mode,
            rts_delay_us: self.rts_delay_us,
            next_tid: self.next_tid,
        }
    }
}

/// The default response timeout, half a second, as libmodbus uses.
pub const DEFAULT_RESPONSE_TIMEOUT_MS: u32 = 500;

impl Modbus {
    /// Creates a context with the RTU backend. The parity must be `'N'`,
    /// `'E'` or `'O'`, the data bits 5 to 8, the stop bits 1 or 2, the baud
    /// rate positive; anything else is rejected as `InvalidConfiguration`.
    /// The request-to-send delay starts at one character time.
    pub fn new_rtu(device: &str, baud: i32, parity: char, data_bit: i32, stop_bit: i32) -> (r:
        Result<Modbus, ModbusError>)
        ensures
            match r {
                Ok(c) => {
                    &&& rtu_params_ok(baud, parity, data_bit, stop_bit)
                    &&& ctx_wf(c@)
                    &&& c@.backend == (BackendModel::Rtu {
                        device: device@,
                        baud,
                        parity,
                        data_bit,
                        stop_bit,
                    })
                    &&& c@.slave == 0
                    &&& !c@.debug
                    &&& !c@.connected
                    &&& c@.response_timeout_ms == DEFAULT_RESPONSE_TIMEOUT_MS
                    &&& c@.max_retries == 0
                    &&& c@.serial_mode == SerialMode::RtuRS232
                    &&& c@.rts_mode == RequestToSendMode::RtuRtsNone
                    &&& c@.rts_delay_us == char_time_us(baud, parity, data_bit, stop_bit)
                    &&& c@.next_tid == 0
                },
                Err(e) => e == ModbusError::InvalidConfiguration && !rtu_params_ok(
                    baud,
                    parity,
                    data_bit,
                    stop_bit,
                ),
            },
    {
        if !(baud > 0 && (parity == 'N' || parity == 'E' || parity == 'O') && 5 <= data_bit
            && data_bit <= 8 && 1 <= stop_bit && stop_bit <= 2) {
            return Err(ModbusError::InvalidConfiguration);
        }
        let bits_per_char = 1 + data_bit + stop_bit + if parity == 'N' {
            0
        } else {
            1
        };
        let rts_delay_us = bits_per_char * 1000000 / baud;
        Ok(Modbus {
            backend: Backend::Rtu {
                device: device.to_owned(),
                baud,
                parity,
                data_bit,
                stop_bit,
            },
            slave: 0,
            debug: false,
            response_timeout_ms: DEFAULT_RESPONSE_TIMEOUT_MS,
            max_retries: 0,
            connected: false,
            serial_mode: SerialMode::RtuRS232,
            rts_mode: RequestToSendMode::RtuRtsNone,
            rts_delay_us,
            next_tid: 0,
        })
    }

    /// Creates a context with the TCP backend.
    pub fn new_tcp(host: &str, port: i32) -> (r: Result<Modbus, ModbusError>)
        ensures
            match r {
                Ok(c) => {
                    &&& 0 <= port <= 65535
                    &&& ctx_wf(c@)
                    &&& c@.backend == (BackendModel::Tcp { host: host@, port: port as u16 })
                    &&& c@.slave == 0
                    &&& !c@.debug
                    &&& !c@.connected
                    &&& c@.response_timeout_ms == DEFAULT_RESPONSE_TIMEOUT_MS
                    &&& c@.max_retries == 0
                    &&& c@.next_tid == 0
                },
                Err(e) => e == ModbusError::InvalidConfiguration && !(0 <= port <= 65535),
            },
    {
        if port < 0 || port > 65535 {
            return Err(ModbusError::InvalidConfiguration);
        }
        Ok(Modbus {
            backend: Backend::Tcp { host: host.to_owned(), port: port as u16 },
            slave: 0,
            debug: false,
            response_timeout_ms: DEFAULT_RESPONSE_TIMEOUT_MS,
            max_retries: 0,
            connected: false,
            serial_mode: SerialMode::RtuRS232,
            rts_mode: RequestToSendMode::RtuRtsNone,
            rts_delay_us: 0,
            next_tid: 0,
        })
    }

    /// Creates a context with the protocol-independent TCP backend.
    pub fn new_tcp_pi(node: &str, service: &str) -> (r: Result<Modbus, ModbusError>)
        ensures
            match r {
                Ok(c) => {
                    &&& ctx_wf(c@)
                    &&& c@.backend == (BackendModel::TcpPi { node: node@, service: service@ })
                    &&& c@.slave == 0
                    &&& !c@.debug
                    &&& !c@.connected
                    &&& c@.response_timeout_ms == DEFAULT_RESPONSE_TIMEOUT_MS
                    &&& c@.max_retries == 0
                    &&& c@.next_tid == 0
                },
                Err(_) => false,
            },
    {
        Ok(Modbus {
            backend: Backend::TcpPi { node: node.to_owned(), service: service.to_owned() },
            slave: 0,
            debug: false,
            response_timeout_ms: DEFAULT_RESPONSE_TIMEOUT_MS,
            max_retries: 0,
            connected: false,
            serial_mode: SerialMode::RtuRS232,
            rts_mode: RequestToSendMode::RtuRtsNone,
            rts_delay_us: 0,
            next_tid: 0,
        })
    }

    /// Sets the slave identifier this context addresses: 0 (broadcast)
    /// through 247. `Ok(0)` on success; anything else is rejected.
    pub fn set_slave(&mut self, slave_id: i32) -> (r: Result<i32, ModbusError>)
        requires
            ctx_wf(old(self)@),
        ensures
            ctx_wf(final(self)@),
            match r {
                Ok(code) => code == 0 && 0 <= slave_id <= 247 && final(self)@ == (CtxModel {
                    slave: slave_id as u8,
                    ..old(self)@
                }),
                Err(e) => e == ModbusError::InvalidConfiguration && !(0 <= slave_id <= 247)
                    && final(self)@ == old(self)@,
            },
    {
        if slave_id < 0 || slave_id > 247 {
            return Err(ModbusError::InvalidConfiguration);
        }
        self.slave = slave_id as u8;
        Ok(0)
    }

    /// The slave identifier this context addresses.
    pub fn slave(&self) -> (s: u8)
        ensures
            s == self@.slave,
    {
        self.slave
    }

    /// Sets the debug flag. `Ok(0)` always.
    pub fn set_debug(&mut self, flag: bool) -> (r: Result<i32, ModbusError>)
        requires
            ctx_wf(old(self)@),
        ensures
            ctx_wf(final(self)@),
            r == Ok::<i32, ModbusError>(0),
            final(self)@ == (CtxModel { debug: flag, ..old(self)@ }),
    {
        self.debug = flag;
        Ok(0)
    }

    /// Sets the response timeout the caller should apply while awaiting a
    /// response frame.
    pub fn set_response_timeout(&mut self, ms: u32)
        requires
            ctx_wf(old(self)@),
        ensures
            ctx_wf(final(self)@),
            final(self)@ == (CtxModel { response_timeout_ms: ms, ..old(self)@ }),
    {
        self.response_timeout_ms = ms;
    }

    /// The response timeout in milliseconds.
    pub fn response_timeout(&self) -> (ms: u32)
        ensures
            ms == self@.response_timeout_ms,
    {
        self.response_timeout_ms
    }

    /// Sets how often a timed-out request is re-sent before the
    /// transaction fails. The budget is capped one below `u32::MAX`.
    pub fn set_max_retries(&mut self, n: u32)
        requires
            ctx_wf(old(self)@),
        ensures
            ctx_wf(final(self)@),
            final(self)@ == (CtxModel {
                max_retries: if n < u32::MAX { n } else { (u32::MAX - 1) as u32 },
                ..old(self)@
            }),
    {
        self.max_retries = if n < u32::MAX {
            n
        } else {
            u32::MAX - 1
        };
    }

    /// The retry budget.
    pub fn max_retries(&self) -> (n: u32)
        ensures
            n == self@.max_retries,
    {
        self.max_retries
    }

    /// The serial mode of an RTU context; an error on any other backend.
    pub fn rtu_get_serial_mode(&self) -> (r: Result<SerialMode, ModbusError>)
        ensures
            match r {
                Ok(m) => self@.backend is Rtu && m == self@.serial_mode,
                Err(e) => e == ModbusError::InvalidConfiguration && !(self@.backend is Rtu),
            },
    {
        match &self.backend {
            Backend::Rtu { .. } => Ok(self.serial_mode),
            _ => Err(ModbusError::InvalidConfiguration),
        }
    }

    /// Sets the serial mode of an RTU context; an error on any other
    /// backend.
    pub fn rtu_set_serial_mode(&mut self, mode: SerialMode) -> (r: Result<(), ModbusError>)
        requires
            ctx_wf(old(self)@),
        ensures
            ctx_wf(final(self)@),
            match r {
                Ok(()) => old(self)@.backend is Rtu && final(self)@ == (CtxModel {
                    serial_mode: mode,
                    ..old(self)@
                }),
                Err(e) => e == ModbusError::InvalidConfiguration && !(old(self)@.backend is Rtu)
                    && final(self)@ == old(self)@,
            },
    {
        match &self.backend {
            Backend::Rtu { .. } => {
                self.serial_mode = mode;
                Ok(())
            },
            _ => Err(ModbusError::InvalidConfiguration),
        }
    }

    /// The request-to-send mode of an RTU context; an error on any other
    /// backend.
    pub fn rtu_get_rts(&self) -> (r: Result<RequestToSendMode, ModbusError>)
        ensures
            match r {
                Ok(m) => self@.backend is Rtu && m == self@.rts_mode,
                Err(e) => e == ModbusError::InvalidConfiguration && !(self@.backend is Rtu),
            },
    {
        match &self.backend {
            Backend::Rtu { .. } => Ok(self.rts_mode),
            _ => Err(ModbusError::InvalidConfiguration),
        }
    }

    /// Sets the request-to-send mode of an RTU context; an error on any
    /// other backend.
    pub fn rtu_set_rts(&mut self, mode: RequestToSendMode) -> (r: Result<(), ModbusError>)
        requires
            ctx_wf(old(self)@),
        ensures
            ctx_wf(final(self)@),
            match r {
                Ok(()) => old(self)@.backend is Rtu && final(self)@ == (CtxModel {
                    rts_mode: mode,
                    ..old(self)@
                }),
                Err(e) => e == ModbusError::InvalidConfiguration && !(old(self)@.backend is Rtu)
                    && final(self)@ == old(self)@,
            },
    {
        match &self.backend {
            Backend::Rtu { .. } => {
                self.rts_mode = mode;
                Ok(())
            },
            _ => Err(ModbusError::InvalidConfiguration),
        }
    }

    /// The request-to-send delay of an RTU context in microseconds; an
    /// error on any other backend.
    pub fn rtu_get_rts_delay(&self) -> (r: Result<i32, ModbusError>)
        ensures
            match r {
                Ok(us) => self@.backend is Rtu && us == self@.rts_delay_us,
                Err(e) => e == ModbusError::InvalidConfiguration && !(self@.backend is Rtu),
            },
    {
        match &self.backend {
            Backend::Rtu { .. } => Ok(self.rts_delay_us),
            _ => Err(ModbusError::InvalidConfiguration),
        }
    }

    /// Sets the request-to-send delay of an RTU context in microseconds; a
    /// negative delay or another backend is an error.
    pub fn rtu_set_rts_delay(&mut self, us: i32) -> (r: Result<(), ModbusError>)
        requires
            ctx_wf(old(self)@),
        ensures
            ctx_wf(final(self)@),
            match r {
                Ok(()) => old(self)@.backend is Rtu && us >= 0 && final(self)@ == (CtxModel {
                    rts_delay_us: us,
                    ..old(self)@
                }),
                Err(e) => e == ModbusError::InvalidConfiguration && !(old(self)@.backend is Rtu
                    && us >= 0) && final(self)@ == old(self)@,
            },
    {
        if us < 0 {
            return Err(ModbusError::InvalidConfiguration);
        }
        match &self.backend {
            Backend::Rtu { .. } => {
                self.rts_delay_us = us;
                Ok(())
            },
            _ => Err(ModbusError::InvalidConfiguration),
        }
    }

    /// Marks the session open. The caller opens the transport itself; this
    /// context only records that the session is up. `Ok(0)` always.
    pub fn connect(&mut self) -> (r: Result<i32, ModbusError>)
        requires
            ctx_wf(old(self)@),
        ensures
            ctx_wf(final(self)@),
            r == Ok::<i32, ModbusError>(0),
            final(self)@ == (CtxModel { connected: true, ..old(self)@ }),
    {
        self.connected = true;
        Ok(0)
    }

    /// Marks the session closed.
    pub fn close(&mut self)
        requires
            ctx_wf(old(self)@),
        ensures
            ctx_wf(final(self)@),
            final(self)@ == (CtxModel { connected: false, ..old(self)@ }),
    {
        self.connected = false;
    }

    /// Releases the context's resources. The context owns no transport, so
    /// this only closes the session; storage is released when the value is
    /// dropped.
    pub fn free(&mut self)
        requires
            ctx_wf(old(self)@),
        ensures
            ctx_wf(final(self)@),
            final(self)@ == (CtxModel { connected: false, ..old(self)@ }),
    {
        self.connected = false;
    }

    /// Whether the session is marked open.
    pub fn is_connected(&self) -> (b: bool)
        ensures
            b == self@.connected,
    {
        self.connected
    }

    /// Whether the context talks RTU framing.
    pub fn backend_is_rtu(&self) -> (b: bool)
        ensures
            b == (self@.backend is Rtu),
    {
        match &self.backend {
            Backend::Rtu { .. } => true,
            _ => false,
        }
    }

    /// Draws the next TCP transaction identifier, advancing the counter
    /// with wrap-around.
    pub(crate) fn take_tid(&mut self) -> (t: u16)
        requires
            ctx_wf(old(self)@),
        ensures
            ctx_wf(final(self)@),
            t == old(self)@.next_tid,
            final(self)@ == (CtxModel {
                next_tid: if old(self)@.next_tid == 65535 {
                    0u16
                } else {
                    (old(self)@.next_tid + 1) as u16
                },
                ..old(self)@
            }),
    {
        let t = self.next_tid;
        self.next_tid = if t == 65535 {
            0
        } else {
            t + 1
        };
        t
    }
}

} // verus!
