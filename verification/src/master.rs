//! The master-side operations: one per function code. Each validates its
//! arguments against the per-function quantity ceiling before anything
//! else, then hands back an idle transaction carrying the encoded request;
//! an over-ceiling quantity fails fast with `InvalidQuantity` and no
//! transaction — and so no transport traffic — is created.

use vstd::prelude::*;
use crate::ModbusError;
use crate::context::{Backend, BackendModel, CtxModel, Modbus, ctx_wf};
use crate::pdu::{
    MAX_READ_BITS, MAX_READ_REGISTERS, MAX_WRITE_BITS, MAX_WRITE_REGISTERS, ReqModel, Request,
    req_valid,
};
use crate::transaction::{Transaction, TxStatus, tx_wf};

verus! {

/// Whether a backend frames with the TCP header.
pub open spec fn is_tcp_backend(b: BackendModel) -> bool {
    !(b is Rtu)
}

/// The transaction identifier counter after one request: advanced, with
/// wrap-around, on a TCP backend; untouched on RTU.
pub open spec fn next_tid_after(c: CtxModel) -> u16 {
    if is_tcp_backend(c.backend) {
        if c.next_tid == 65535 {
            0
        } else {
            (c.next_tid + 1) as u16
        }
    } else {
        c.next_tid
    }
}

impl Modbus {
    /// Builds the idle transaction for `request`, drawing a transaction
    /// identifier on a TCP backend.
    fn begin(&mut self, request: Request) -> (t: Transaction)
        requires
            ctx_wf(old(self)@),
            req_valid(request@),
        ensures
            ctx_wf(final(self)@),
            tx_wf(t@),
            t@.request == request@,
            t@.status is Idle,
            t@.sends_made == 0,
            t@.unit == old(self)@.slave,
            t@.max_retries == old(self)@.max_retries,
            t@.is_tcp == is_tcp_backend(old(self)@.backend),
            t@.tid == (if is_tcp_backend(old(self)@.backend) {
                old(self)@.next_tid
            } else {
                0u16
            }),
            final(self)@ == (CtxModel { next_tid: next_tid_after(old(self)@), ..old(self)@ }),
    {
        let is_tcp = !self.backend_is_rtu();
        let tid: u16 = if is_tcp {
            self.take_tid()
        } else {
            0
        };
        Transaction::new(request, is_tcp, tid, self.slave(), self.max_retries())
    }

    /// Starts reading `quantity` coils at `address`.
    pub fn read_bits(&mut self, address: u16, quantity: u16) -> (r: Result<
        Transaction,
        ModbusError,
    >)
        requires
            ctx_wf(old(self)@),
        ensures
            ctx_wf(final(self)@),
            match r {
                Ok(t) => {
                    &&& 1 <= quantity <= MAX_READ_BITS
                    &&& address + quantity <= 65536
                    &&& tx_wf(t@)
                    &&& t@.request == (ReqModel::ReadBits { address, quantity })
                    &&& t@.status is Idle
                    &&& t@.unit == old(self)@.slave
                    &&& t@.max_retries == old(self)@.max_retries
                    &&& t@.is_tcp == is_tcp_backend(old(self)@.backend)
                    &&& final(self)@ == (CtxModel {
                        next_tid: next_tid_after(old(self)@),
                        ..old(self)@
                    })
                },
                Err(e) => final(self)@ == old(self)@ && ((e == ModbusError::InvalidQuantity && !(1
                    <= quantity <= MAX_READ_BITS)) || (e == ModbusError::InvalidAddress && 1
                    <= quantity <= MAX_READ_BITS && address + quantity > 65536)),
            },
    {
        if quantity < 1 || quantity > MAX_READ_BITS {
            return Err(ModbusError::InvalidQuantity);
        }
        if address as u32 + quantity as u32 > 65536 {
            return Err(ModbusError::InvalidAddress);
        }
        Ok(self.begin(Request::ReadBits { address, quantity }))
    }

    /// Starts reading `quantity` discrete inputs at `address`.
    pub fn read_input_bits(&mut self, address: u16, quantity: u16) -> (r: Result<
        Transaction,
        ModbusError,
    >)
        requires
            ctx_wf(old(self)@),
        ensures
            ctx_wf(final(self)@),
            match r {
                Ok(t) => {
                    &&& 1 <= quantity <= MAX_READ_BITS
                    &&& address + quantity <= 65536
                    &&& tx_wf(t@)
                    &&& t@.request == (ReqModel::ReadInputBits { address, quantity })
                    &&& t@.status is Idle
                    &&& t@.unit == old(self)@.slave
                    &&& t@.max_retries == old(self)@.max_retries
                    &&& t@.is_tcp == is_tcp_backend(old(self)@.backend)
                    &&& final(self)@ == (CtxModel {
                        next_tid: next_tid_after(old(self)@),
                        ..old(self)@
                    })
                },
                Err(e) => final(self)@ == old(self)@ && ((e == ModbusError::InvalidQuantity && !(1
                    <= quantity <= MAX_READ_BITS)) || (e == ModbusError::InvalidAddress && 1
                    <= quantity <= MAX_READ_BITS && address + quantity > 65536)),
            },
    {
        if quantity < 1 || quantity > MAX_READ_BITS {
            return Err(ModbusError::InvalidQuantity);
        }
        if address as u32 + quantity as u32 > 65536 {
            return Err(ModbusError::InvalidAddress);
        }
        Ok(self.begin(Request::ReadInputBits { address, quantity }))
    }

    /// Starts reading `quantity` holding registers at `address`. A
    /// quantity over the ceiling of 125 fails fast with `InvalidQuantity`.
    pub fn read_registers(&mut self, address: u16, quantity: u16) -> (r: Result<
        Transaction,
        ModbusError,
    >)
        requires
            ctx_wf(old(self)@),
        ensures
            ctx_wf(final(self)@),
            match r {
                Ok(t) => {
                    &&& 1 <= quantity <= MAX_READ_REGISTERS
                    &&& address + quantity <= 65536
                    &&& tx_wf(t@)
                    &&& t@.request == (ReqModel::ReadRegisters { address, quantity })
                    &&& t@.status is Idle
                    &&& t@.unit == old(self)@.slave
                    &&& t@.max_retries == old(self)@.max_retries
                    &&& t@.is_tcp == is_tcp_backend(old(self)@.backend)
                    &&& final(self)@ == (CtxModel {
                        next_tid: next_tid_after(old(self)@),
                        ..old(self)@
                    })
                },
                Err(e) => final(self)@ == old(self)@ && ((e == ModbusError::InvalidQuantity && !(1
                    <= quantity <= MAX_READ_REGISTERS)) || (e == ModbusError::InvalidAddress && 1
                    <= quantity <= MAX_READ_REGISTERS && address + quantity > 65536)),
            },
    {
        if quantity < 1 || quantity > MAX_READ_REGISTERS {
            return Err(ModbusError::InvalidQuantity);
        }
        if address as u32 + quantity as u32 > 65536 {
            return Err(ModbusError::InvalidAddress);
        }
        Ok(self.begin(Request::ReadRegisters { address, quantity }))
    }

    /// Starts reading `quantity` input registers at `address`. A quantity
    /// over the ceiling of 125 fails fast with `InvalidQuantity`.
    pub fn read_input_registers(&mut self, address: u16, quantity: u16) -> (r: Result<
        Transaction,
        ModbusError,
    >)
        requires
            ctx_wf(old(self)@),
        ensures
            ctx_wf(final(self)@),
            match r {
                Ok(t) => {
                    &&& 1 <= quantity <= MAX_READ_REGISTERS
                    &&& address + quantity <= 65536
                    &&& tx_wf(t@)
                    &&& t@.request == (ReqModel::ReadInputRegisters { address, quantity })
                    &&& t@.status is Idle
                    &&& t@.unit == old(self)@.slave
                    &&& t@.max_retries == old(self)@.max_retries
                    &&& t@.is_tcp == is_tcp_backend(old(self)@.backend)
                    &&& final(self)@ == (CtxModel {
                        next_tid: next_tid_after(old(self)@),
                        ..old(self)@
                    })
                },
                Err(e) => final(self)@ == old(self)@ && ((e == ModbusError::InvalidQuantity && !(1
                    <= quantity <= MAX_READ_REGISTERS)) || (e == ModbusError::InvalidAddress && 1
                    <= quantity <= MAX_READ_REGISTERS && address + quantity > 65536)),
            },
    {
        if quantity < 1 || quantity > MAX_READ_REGISTERS {
            return Err(ModbusError::InvalidQuantity);
        }
        if address as u32 + quantity as u32 > 65536 {
            return Err(ModbusError::InvalidAddress);
        }
        Ok(self.begin(Request::ReadInputRegisters { address, quantity }))
    }

    /// Starts forcing the coil at `address` to `value`.
    pub fn write_bit(&mut self, address: u16, value: bool) -> (r: Result<Transaction, ModbusError>)
        requires
            ctx_wf(old(self)@),
        ensures
            ctx_wf(final(self)@),
            match r {
                Ok(t) => {
                    &&& tx_wf(t@)
                    &&& t@.request == (ReqModel::WriteBit { address, value })
                    &&& t@.status is Idle
                    &&& t@.unit == old(self)@.slave
                    &&& t@.max_retries == old(self)@.max_retries
                    &&& t@.is_tcp == is_tcp_backend(old(self)@.backend)
                    &&& final(self)@ == (CtxModel {
                        next_tid: next_tid_after(old(self)@),
                        ..old(self)@
                    })
                },
                Err(_) => false,
            },
    {
        Ok(self.begin(Request::WriteBit { address, value }))
    }

    /// Starts setting the holding register at `address` to `value`.
    pub fn write_register(&mut self, address: u16, value: u16) -> (r: Result<
        Transaction,
        ModbusError,
    >)
        requires
            ctx_wf(old(self)@),
        ensures
            ctx_wf(final(self)@),
            match r {
                Ok(t) => {
                    &&& tx_wf(t@)
                    &&& t@.request == (ReqModel::WriteRegister { address, value })
                    &&& t@.status is Idle
                    &&& t@.unit == old(self)@.slave
                    &&& t@.max_retries == old(self)@.max_retries
                    &&& t@.is_tcp == is_tcp_backend(old(self)@.backend)
                    &&& final(self)@ == (CtxModel {
                        next_tid: next_tid_after(old(self)@),
                        ..old(self)@
                    })
                },
                Err(_) => false,
            },
    {
        Ok(self.begin(Request::WriteRegister { address, value }))
    }

    /// Starts forcing the coils at `address` to `values`. More than 1968
    /// values fail fast with `InvalidQuantity`.
    pub fn write_bits(&mut self, address: u16, values: &[bool]) -> (r: Result<
        Transaction,
        ModbusError,
    >)
        requires
            ctx_wf(old(self)@),
        ensures
            ctx_wf(final(self)@),
            match r {
                Ok(t) => {
                    &&& 1 <= values@.len() <= MAX_WRITE_BITS
                    &&& address + values@.len() <= 65536
                    &&& tx_wf(t@)
                    &&& t@.request == (ReqModel::WriteBits { address, values: values@ })
                    &&& t@.status is Idle
                    &&& t@.unit == old(self)@.slave
                    &&& t@.max_retries == old(self)@.max_retries
                    &&& t@.is_tcp == is_tcp_backend(old(self)@.backend)
                    &&& final(self)@ == (CtxModel {
                        next_tid: next_tid_after(old(self)@),
                        ..old(self)@
                    })
                },
                Err(e) => final(self)@ == old(self)@ && ((e == ModbusError::InvalidQuantity && !(1
                    <= values@.len() <= MAX_WRITE_BITS)) || (e == ModbusError::InvalidAddress && 1
                    <= values@.len() <= MAX_WRITE_BITS && address + values@.len() > 65536)),
            },
    {
        if values.len() < 1 || values.len() > MAX_WRITE_BITS as usize {
            return Err(ModbusError::InvalidQuantity);
        }
        if address as usize + values.len() > 65536 {
            return Err(ModbusError::InvalidAddress);
        }
        let owned = vstd::slice::slice_to_vec(values);
        Ok(self.begin(Request::WriteBits { address, values: owned }))
    }

    /// Starts setting the holding registers at `address` to `values`. More
    /// than 123 values fail fast with `InvalidQuantity`.
    pub fn write_registers(&mut self, address: u16, values: &[u16]) -> (r: Result<
        Transaction,
        ModbusError,
    >)
        requires
            ctx_wf(old(self)@),
        ensures
            ctx_wf(final(self)@),
            match r {
                Ok(t) => {
                    &&& 1 <= values@.len() <= MAX_WRITE_REGISTERS
                    &&& address + values@.len() <= 65536
                    &&& tx_wf(t@)
                    &&& t@.request == (ReqModel::WriteRegisters { address, values: values@ })
                    &&& t@.status is Idle
                    &&& t@.unit == old(self)@.slave
                    &&& t@.max_retries == old(self)@.max_retries
                    &&& t@.is_tcp == is_tcp_backend(old(self)@.backend)
                    &&& final(self)@ == (CtxModel {
                        next_tid: next_tid_after(old(self)@),
                        ..old(self)@
                    })
                },
                Err(e) => final(self)@ == old(self)@ && ((e == ModbusError::InvalidQuantity && !(1
                    <= values@.len() <= MAX_WRITE_REGISTERS)) || (e == ModbusError::InvalidAddress
                    && 1 <= values@.len() <= MAX_WRITE_REGISTERS && address + values@.len()
                    > 65536)),
            },
    {
        if values.len() < 1 || values.len() > MAX_WRITE_REGISTERS as usize {
            return Err(ModbusError::InvalidQuantity);
        }
        if address as usize + values.len() > 65536 {
            return Err(ModbusError::InvalidAddress);
        }
        let owned = vstd::slice::slice_to_vec(values);
        Ok(self.begin(Request::WriteRegisters { address, values: owned }))
    }
}

} // verus!
