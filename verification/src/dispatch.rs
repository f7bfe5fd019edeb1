//! The slave-side dispatcher: a decoded request is checked against the data
//! mapping and answered with a normal response, or with an exception
//! response carrying the matching exception code. Validation failure never
//! raises: it is expressed as a constructed exception response.

use vstd::prelude::*;
use crate::ModbusError;
use crate::{EXCEPTION_ILLEGAL_DATA_ADDRESS, EXCEPTION_ILLEGAL_DATA_VALUE, EXCEPTION_ILLEGAL_FUNCTION};
use crate::mapping::{MapModel, ModbusMapping, written};
use crate::pdu::{
    FC_READ_BITS, FC_READ_INPUT_BITS, FC_READ_INPUT_REGISTERS, FC_READ_REGISTERS, FC_WRITE_BIT,
    FC_WRITE_BITS, FC_WRITE_REGISTER, FC_WRITE_REGISTERS, ReqModel, Request, RespModel, Response,
    decode_request, encode_response, lemma_resp_pdu_len, parse_req, req_valid, resp_pdu,
    resp_valid,
};
use crate::frame::{
    decode_rtu, decode_tcp, encode_rtu, encode_tcp, lemma_rtu_request_roundtrip,
    lemma_rtu_roundtrip, parse_rtu, parse_tcp, rtu_frame, tcp_frame,
};
use crate::pdu::{
    MAX_READ_REGISTERS, lemma_req_pdu_len, lemma_resp_roundtrip, parse_resp, req_pdu,
};
use crate::transaction::{TxModel, frame_outcome};

verus! {

/// What a request does to a mapping, and the response it earns: reads hand
/// back a slice of the addressed space, writes update it and echo the
/// request, and any access outside the space earns an Illegal Data Address
/// exception.
pub open spec fn dispatch_model(m: MapModel, req: ReqModel) -> (MapModel, RespModel) {
    match req {
        ReqModel::ReadBits { address, quantity } =>
            if address + quantity <= m.bits.len() {
                (m, RespModel::Bits {
                    function: FC_READ_BITS,
                    values: m.bits.subrange(address as int, address + quantity),
                })
            } else {
                (m, RespModel::Exception {
                    function: FC_READ_BITS,
                    code: EXCEPTION_ILLEGAL_DATA_ADDRESS,
                })
            },
        ReqModel::ReadInputBits { address, quantity } =>
            if address + quantity <= m.input_bits.len() {
                (m, RespModel::Bits {
                    function: FC_READ_INPUT_BITS,
                    values: m.input_bits.subrange(address as int, address + quantity),
                })
            } else {
                (m, RespModel::Exception {
                    function: FC_READ_INPUT_BITS,
                    code: EXCEPTION_ILLEGAL_DATA_ADDRESS,
                })
            },
        ReqModel::ReadRegisters { address, quantity } =>
            if address + quantity <= m.registers.len() {
                (m, RespModel::Registers {
                    function: FC_READ_REGISTERS,
                    values: m.registers.subrange(address as int, address + quantity),
                })
            } else {
                (m, RespModel::Exception {
                    function: FC_READ_REGISTERS,
                    code: EXCEPTION_ILLEGAL_DATA_ADDRESS,
                })
            },
        ReqModel::ReadInputRegisters { address, quantity } =>
            if address + quantity <= m.input_registers.len() {
                (m, RespModel::Registers {
                    function: FC_READ_INPUT_REGISTERS,
                    values: m.input_registers.subrange(address as int, address + quantity),
                })
            } else {
                (m, RespModel::Exception {
                    function: FC_READ_INPUT_REGISTERS,
                    code: EXCEPTION_ILLEGAL_DATA_ADDRESS,
                })
            },
        ReqModel::WriteBit { address, value } =>
            if address < m.bits.len() {
                (MapModel { bits: m.bits.update(address as int, value), ..m },
                    RespModel::WriteBitAck { address, value })
            } else {
                (m, RespModel::Exception {
                    function: FC_WRITE_BIT,
                    code: EXCEPTION_ILLEGAL_DATA_ADDRESS,
                })
            },
        ReqModel::WriteRegister { address, value } =>
            if address < m.registers.len() {
                (MapModel { registers: m.registers.update(address as int, value), ..m },
                    RespModel::WriteRegisterAck { address, value })
            } else {
                (m, RespModel::Exception {
                    function: FC_WRITE_REGISTER,
                    code: EXCEPTION_ILLEGAL_DATA_ADDRESS,
                })
            },
        ReqModel::WriteBits { address, values } =>
            if address + values.len() <= m.bits.len() {
                (MapModel { bits: written(m.bits, address as int, values), ..m },
                    RespModel::WriteBitsAck { address, quantity: values.len() as u16 })
            } else {
                (m, RespModel::Exception {
                    function: FC_WRITE_BITS,
                    code: EXCEPTION_ILLEGAL_DATA_ADDRESS,
                })
            },
        ReqModel::WriteRegisters { address, values } =>
            if address + values.len() <= m.registers.len() {
                (MapModel { registers: written(m.registers, address as int, values), ..m },
                    RespModel::WriteRegistersAck { address, quantity: values.len() as u16 })
            } else {
                (m, RespModel::Exception {
                    function: FC_WRITE_REGISTERS,
                    code: EXCEPTION_ILLEGAL_DATA_ADDRESS,
                })
            },
    }
}

/// Answers `req` out of `mapping`, as `dispatch_model` describes it.
pub fn dispatch(mapping: &mut ModbusMapping, req: &Request) -> (resp: Response)
    requires
        req_valid(req@),
    ensures
        final(mapping)@ == dispatch_model(old(mapping)@, req@).0,
        resp@ == dispatch_model(old(mapping)@, req@).1,
        resp_valid(resp@),
{
    match req {
        Request::ReadBits { address, quantity } => {
            match mapping.read_bits(*address as usize, *quantity as usize) {
                Ok(values) => Response::Bits { function: FC_READ_BITS, values },
                Err(_) => Response::Exception {
                    function: FC_READ_BITS,
                    code: EXCEPTION_ILLEGAL_DATA_ADDRESS,
                },
            }
        },
        Request::ReadInputBits { address, quantity } => {
            match mapping.read_input_bits(*address as usize, *quantity as usize) {
                Ok(values) => Response::Bits { function: FC_READ_INPUT_BITS, values },
                Err(_) => Response::Exception {
                    function: FC_READ_INPUT_BITS,
                    code: EXCEPTION_ILLEGAL_DATA_ADDRESS,
                },
            }
        },
        Request::ReadRegisters { address, quantity } => {
            match mapping.read_registers(*address as usize, *quantity as usize) {
                Ok(values) => Response::Registers { function: FC_READ_REGISTERS, values },
                Err(_) => Response::Exception {
                    function: FC_READ_REGISTERS,
                    code: EXCEPTION_ILLEGAL_DATA_ADDRESS,
                },
            }
        },
        Request::ReadInputRegisters { address, quantity } => {
            match mapping.read_input_registers(*address as usize, *quantity as usize) {
                Ok(values) => Response::Registers { function: FC_READ_INPUT_REGISTERS, values },
                Err(_) => Response::Exception {
                    function: FC_READ_INPUT_REGISTERS,
                    code: EXCEPTION_ILLEGAL_DATA_ADDRESS,
                },
            }
        },
        Request::WriteBit { address, value } => {
            let mut one: Vec<bool> = Vec::new();
            one.push(*value);
            match mapping.write_bits(*address as usize, one.as_slice()) {
                Ok(()) => {
                    proof {
                        assert(written(old(mapping)@.bits, *address as int, one@)
                            =~= old(mapping)@.bits.update(*address as int, *value));
                    }
                    Response::WriteBitAck { address: *address, value: *value }
                },
                Err(_) => Response::Exception {
                    function: FC_WRITE_BIT,
                    code: EXCEPTION_ILLEGAL_DATA_ADDRESS,
                },
            }
        },
        Request::WriteRegister { address, value } => {
            let mut one: Vec<u16> = Vec::new();
            one.push(*value);
            match mapping.write_registers(*address as usize, one.as_slice()) {
                Ok(()) => {
                    proof {
                        assert(written(old(mapping)@.registers, *address as int, one@)
                            =~= old(mapping)@.registers.update(*address as int, *value));
                    }
                    Response::WriteRegisterAck { address: *address, value: *value }
                },
                Err(_) => Response::Exception {
                    function: FC_WRITE_REGISTER,
                    code: EXCEPTION_ILLEGAL_DATA_ADDRESS,
                },
            }
        },
        Request::WriteBits { address, values } => {
            let quantity = values.len() as u16;
            match mapping.write_bits(*address as usize, values.as_slice()) {
                Ok(()) => Response::WriteBitsAck { address: *address, quantity },
                Err(_) => Response::Exception {
                    function: FC_WRITE_BITS,
                    code: EXCEPTION_ILLEGAL_DATA_ADDRESS,
                },
            }
        },
        Request::WriteRegisters { address, values } => {
            let quantity = values.len() as u16;
            match mapping.write_registers(*address as usize, values.as_slice()) {
                Ok(()) => Response::WriteRegistersAck { address: *address, quantity },
                Err(_) => Response::Exception {
                    function: FC_WRITE_REGISTERS,
                    code: EXCEPTION_ILLEGAL_DATA_ADDRESS,
                },
            }
        },
    }
}

/// Whether the engine implements `fc`.
pub open spec fn known_fc(fc: u8) -> bool {
    fc == FC_READ_BITS || fc == FC_READ_INPUT_BITS || fc == FC_READ_REGISTERS
        || fc == FC_READ_INPUT_REGISTERS || fc == FC_WRITE_BIT || fc == FC_WRITE_REGISTER
        || fc == FC_WRITE_BITS || fc == FC_WRITE_REGISTERS
}

/// The exception code a request that fails to parse earns: Illegal Data
/// Address when it would leave the address space, Illegal Data Value for a
/// bad quantity or a malformed payload.
pub open spec fn exception_for(e: ModbusError) -> u8 {
    if e == ModbusError::InvalidAddress {
        EXCEPTION_ILLEGAL_DATA_ADDRESS
    } else {
        EXCEPTION_ILLEGAL_DATA_VALUE
    }
}

/// What a request PDU does to a mapping, and the response PDU it earns, if
/// any: an unknown function code earns an Illegal Function exception, a
/// request that fails to parse earns its matching exception, and a byte
/// string starting with a response function code earns silence.
pub open spec fn slave_model_pdu(m: MapModel, pdu: Seq<u8>) -> (MapModel, Option<RespModel>) {
    let fc = pdu[0];
    if fc >= 128 {
        (m, None)
    } else if !known_fc(fc) {
        (m, Some(RespModel::Exception { function: fc, code: EXCEPTION_ILLEGAL_FUNCTION }))
    } else {
        match parse_req(pdu) {
            Ok(req) => {
                let dispatched = dispatch_model(m, req);
                (dispatched.0, Some(dispatched.1))
            },
            Err(e) => (m, Some(RespModel::Exception { function: fc, code: exception_for(e) })),
        }
    }
}

/// Handles one request PDU against `mapping`, as `slave_model_pdu`
/// describes it.
pub fn slave_handle_pdu(mapping: &mut ModbusMapping, pdu: &[u8]) -> (r: Option<Response>)
    requires
        pdu@.len() >= 1,
    ensures
        final(mapping)@ == slave_model_pdu(old(mapping)@, pdu@).0,
        match r {
            Some(resp) => slave_model_pdu(old(mapping)@, pdu@).1 == Some(resp@)
                && resp_valid(resp@),
            None => slave_model_pdu(old(mapping)@, pdu@).1 is None,
        },
{
    let fc = pdu[0];
    if fc >= 128 {
        return None;
    }
    if !(fc == FC_READ_BITS || fc == FC_READ_INPUT_BITS || fc == FC_READ_REGISTERS
        || fc == FC_READ_INPUT_REGISTERS || fc == FC_WRITE_BIT || fc == FC_WRITE_REGISTER
        || fc == FC_WRITE_BITS || fc == FC_WRITE_REGISTERS) {
        return Some(Response::Exception { function: fc, code: EXCEPTION_ILLEGAL_FUNCTION });
    }
    match decode_request(pdu) {
        Ok(req) => Some(dispatch(mapping, &req)),
        Err(e) => {
            let code = if e == ModbusError::InvalidAddress {
                EXCEPTION_ILLEGAL_DATA_ADDRESS
            } else {
                EXCEPTION_ILLEGAL_DATA_VALUE
            };
            Some(Response::Exception { function: fc, code })
        },
    }
}

/// What an RTU frame does to a slave: frames that fail the checksum or are
/// addressed to another unit are ignored; a broadcast frame acts on the
/// mapping but earns no response; anything else earns the response frame.
pub open spec fn slave_model_rtu(m: MapModel, my_unit: u8, frame: Seq<u8>) -> (
    MapModel,
    Option<Seq<u8>>,
) {
    match parse_rtu(frame) {
        Err(_) => (m, None),
        Ok((unit, pdu)) =>
            if unit != my_unit && unit != 0 {
                (m, None)
            } else {
                let handled = slave_model_pdu(m, pdu);
                if unit == 0 {
                    (handled.0, None)
                } else {
                    match handled.1 {
                        None => (handled.0, None),
                        Some(resp) => (handled.0, Some(rtu_frame(my_unit, resp_pdu(resp)))),
                    }
                }
            },
    }
}

/// Serves one RTU frame out of `mapping`, as `slave_model_rtu` describes
/// it.
pub fn slave_handle_rtu(mapping: &mut ModbusMapping, my_unit: u8, frame: &[u8]) -> (r: Option<
    Vec<u8>,
>)
    ensures
        final(mapping)@ == slave_model_rtu(old(mapping)@, my_unit, frame@).0,
        match r {
            Some(out) => slave_model_rtu(old(mapping)@, my_unit, frame@).1 == Some(out@),
            None => slave_model_rtu(old(mapping)@, my_unit, frame@).1 is None,
        },
{
    match decode_rtu(frame) {
        Err(_) => None,
        Ok((unit, pdu)) => {
            if unit != my_unit && unit != 0 {
                return None;
            }
            let resp = slave_handle_pdu(mapping, pdu.as_slice());
            if unit == 0 {
                return None;
            }
            match resp {
                None => None,
                Some(resp) => {
                    proof {
                        lemma_resp_pdu_len(resp@);
                    }
                    let payload = encode_response(&resp);
                    Some(encode_rtu(my_unit, payload.as_slice()))
                },
            }
        },
    }
}

/// The whole exchange, end to end: a master's read of holding registers,
/// served by a slave out of its mapping, hands the mapping's values back,
/// exactly. The slave leaves its mapping as it was and answers with the
/// frame whose bytes settle the master's transaction with precisely the
/// registers the mapping holds at the requested range.
pub proof fn lemma_end_to_end_read(m: MapModel, t: TxModel, address: u16, quantity: u16)
    requires
        !t.is_tcp,
        t.unit != 0,
        t.request == (ReqModel::ReadRegisters { address, quantity }),
        1 <= quantity <= MAX_READ_REGISTERS,
        address + quantity <= 65536,
        address + quantity <= m.registers.len(),
    ensures
        ({
            let req = ReqModel::ReadRegisters { address, quantity };
            let resp = RespModel::Registers {
                function: FC_READ_REGISTERS,
                values: m.registers.subrange(address as int, address + quantity),
            };
            let served = slave_model_rtu(m, t.unit, rtu_frame(t.unit, req_pdu(req)));
            &&& served.0 == m
            &&& served.1 == Some(rtu_frame(t.unit, resp_pdu(resp)))
            &&& frame_outcome(t, rtu_frame(t.unit, resp_pdu(resp))) == Some(Ok::<
                RespModel,
                ModbusError,
            >(resp))
        }),
{
    let req = ReqModel::ReadRegisters { address, quantity };
    let resp = RespModel::Registers {
        function: FC_READ_REGISTERS,
        values: m.registers.subrange(address as int, address + quantity),
    };
    lemma_req_pdu_len(req);
    lemma_rtu_request_roundtrip(t.unit, req);
    assert(req_pdu(req)[0] == FC_READ_REGISTERS);
    lemma_resp_pdu_len(resp);
    lemma_rtu_roundtrip(t.unit, resp_pdu(resp));
    lemma_resp_roundtrip(req, resp);
}

/// What a TCP frame does to a slave: like the RTU path, but the header must
/// parse, and the response echoes the request's transaction identifier.
pub open spec fn slave_model_tcp(m: MapModel, my_unit: u8, frame: Seq<u8>) -> (
    MapModel,
    Option<Seq<u8>>,
) {
    match parse_tcp(frame) {
        Err(_) => (m, None),
        Ok((tid, unit, pdu)) =>
            if unit != my_unit && unit != 0 {
                (m, None)
            } else {
                let handled = slave_model_pdu(m, pdu);
                if unit == 0 {
                    (handled.0, None)
                } else {
                    match handled.1 {
                        None => (handled.0, None),
                        Some(resp) => (handled.0, Some(tcp_frame(tid, my_unit, resp_pdu(resp)))),
                    }
                }
            },
    }
}

/// Serves one TCP frame out of `mapping`, as `slave_model_tcp` describes
/// it.
pub fn slave_handle_tcp(mapping: &mut ModbusMapping, my_unit: u8, frame: &[u8]) -> (r: Option<
    Vec<u8>,
>)
    ensures
        final(mapping)@ == slave_model_tcp(old(mapping)@, my_unit, frame@).0,
        match r {
            Some(out) => slave_model_tcp(old(mapping)@, my_unit, frame@).1 == Some(out@),
            None => slave_model_tcp(old(mapping)@, my_unit, frame@).1 is None,
        },
{
    match decode_tcp(frame) {
        Err(_) => None,
        Ok((tid, unit, pdu)) => {
            if unit != my_unit && unit != 0 {
                return None;
            }
            let resp = slave_handle_pdu(mapping, pdu.as_slice());
            if unit == 0 {
                return None;
            }
            match resp {
                None => None,
                Some(resp) => {
                    proof {
                        lemma_resp_pdu_len(resp@);
                    }
                    let payload = encode_response(&resp);
                    Some(encode_tcp(tid, my_unit, payload.as_slice()))
                },
            }
        },
    }
}

} // verus!
