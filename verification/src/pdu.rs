//! Protocol Data Units: the function-code payloads carried inside an RTU or
//! TCP frame. Requests and responses are modelled as enums; encoding and
//! parsing are specified over byte sequences and proved to round-trip.

use vstd::prelude::*;
use vstd::arithmetic::div_mod::{lemma_fundamental_div_mod, lemma_mod_bound};
use crate::ModbusError;
use crate::bits::{pack_bits, unpack_bits, pack_bits_exec, unpack_bits_exec, lemma_unpack_pack};

verus! {

/// Function code: read coils.
pub const FC_READ_BITS: u8 = 1;
/// Function code: read discrete inputs.
pub const FC_READ_INPUT_BITS: u8 = 2;
/// Function code: read holding registers.
pub const FC_READ_REGISTERS: u8 = 3;
/// Function code: read input registers.
pub const FC_READ_INPUT_REGISTERS: u8 = 4;
/// Function code: write a single coil.
pub const FC_WRITE_BIT: u8 = 5;
/// Function code: write a single holding register.
pub const FC_WRITE_REGISTER: u8 = 6;
/// Function code: write multiple coils.
pub const FC_WRITE_BITS: u8 = 15;
/// Function code: write multiple holding registers.
pub const FC_WRITE_REGISTERS: u8 = 16;

/// Most coils one read request may ask for.
pub const MAX_READ_BITS: u16 = 2000;
/// Most registers one read request may ask for.
pub const MAX_READ_REGISTERS: u16 = 125;
/// Most coils one write request may carry.
pub const MAX_WRITE_BITS: u16 = 1968;
/// Most registers one write request may carry.
pub const MAX_WRITE_REGISTERS: u16 = 123;

/// The two bytes of `v`, big-endian, as one value.
pub open spec fn be16(hi: u8, lo: u8) -> u16 {
    ((hi as u16) * 256 + (lo as u16)) as u16
}

/// The high byte of `v`.
pub open spec fn hi8(v: u16) -> u8 {
    (v / 256) as u8
}

/// The low byte of `v`.
pub open spec fn lo8(v: u16) -> u8 {
    (v % 256) as u8
}

/// Splitting a 16-bit value into bytes and joining them gives it back.
pub proof fn lemma_be16_split(v: u16)
    ensures
        be16(hi8(v), lo8(v)) == v,
{
    lemma_fundamental_div_mod(v as int, 256);
    lemma_mod_bound(v as int, 256);
}

/// Register values laid out as big-endian byte pairs.
pub open spec fn regs_bytes(values: Seq<u16>) -> Seq<u8> {
    Seq::new(2 * values.len(), |i: int| if i % 2 == 0 { hi8(values[i / 2]) } else { lo8(values[i / 2]) })
}

/// Big-endian byte pairs read back as register values.
pub open spec fn regs_of_bytes(bytes: Seq<u8>) -> Seq<u16> {
    Seq::new((bytes.len() / 2) as nat, |i: int| be16(bytes[2 * i], bytes[2 * i + 1]))
}

/// Laying registers out as bytes and reading them back gives them back.
pub proof fn lemma_regs_roundtrip(values: Seq<u16>)
    ensures
        regs_of_bytes(regs_bytes(values)) == values,
{
    let r = regs_of_bytes(regs_bytes(values));
    assert forall|i: int| 0 <= i < values.len() implies r[i] == values[i] by {
        assert(regs_bytes(values)[2 * i] == hi8(values[i]));
        assert(regs_bytes(values)[2 * i + 1] == lo8(values[i]));
        lemma_be16_split(values[i]);
    };
    assert(r =~= values);
}

/// A request as the master forms it and the slave consumes it.
#[derive(Debug, PartialEq, Eq)]
pub enum Request {
    /// Read `quantity` coils starting at `address`.
    ReadBits { address: u16, quantity: u16 },
    /// Read `quantity` discrete inputs starting at `address`.
    ReadInputBits { address: u16, quantity: u16 },
    /// Read `quantity` holding registers starting at `address`.
    ReadRegisters { address: u16, quantity: u16 },
    /// Read `quantity` input registers starting at `address`.
    ReadInputRegisters { address: u16, quantity: u16 },
    /// Force the coil at `address` to `value`.
    WriteBit { address: u16, value: bool },
    /// Set the holding register at `address` to `value`.
    WriteRegister { address: u16, value: u16 },
    /// Force the coils starting at `address` to `values`.
    WriteBits { address: u16, values: Vec<bool> },
    /// Set the holding registers starting at `address` to `values`.
    WriteRegisters { address: u16, values: Vec<u16> },
}

/// The mathematical shape of a request.
pub enum ReqModel {
    ReadBits { address: u16, quantity: u16 },
    ReadInputBits { address: u16, quantity: u16 },
    ReadRegisters { address: u16, quantity: u16 },
    ReadInputRegisters { address: u16, quantity: u16 },
    WriteBit { address: u16, value: bool },
    WriteRegister { address: u16, value: u16 },
    WriteBits { address: u16, values: Seq<bool> },
    WriteRegisters { address: u16, values: Seq<u16> },
}

impl View for Request {
    type V = ReqModel;

    open spec fn view(&self) -> ReqModel {
        match self {
            Request::ReadBits { address, quantity } => ReqModel::ReadBits { address: *address, quantity: *quantity },
            Request::ReadInputBits { address, quantity } => ReqModel::ReadInputBits { address: *address, quantity: *quantity },
            Request::ReadRegisters { address, quantity } => ReqModel::ReadRegisters { address: *address, quantity: *quantity },
            Request::ReadInputRegisters { address, quantity } => ReqModel::ReadInputRegisters { address: *address, quantity: *quantity },
            Request::WriteBit { address, value } => ReqModel::WriteBit { address: *address, value: *value },
            Request::WriteRegister { address, value } => ReqModel::WriteRegister { address: *address, value: *value },
            Request::WriteBits { address, values } => ReqModel::WriteBits { address: *address, values: values@ },
            Request::WriteRegisters { address, values } => ReqModel::WriteRegisters { address: *address, values: values@ },
        }
    }
}

/// The function code a request travels under.
pub open spec fn req_fc(m: ReqModel) -> u8 {
    match m {
        ReqModel::ReadBits { .. } => FC_READ_BITS,
        ReqModel::ReadInputBits { .. } => FC_READ_INPUT_BITS,
        ReqModel::ReadRegisters { .. } => FC_READ_REGISTERS,
        ReqModel::ReadInputRegisters { .. } => FC_READ_INPUT_REGISTERS,
        ReqModel::WriteBit { .. } => FC_WRITE_BIT,
        ReqModel::WriteRegister { .. } => FC_WRITE_REGISTER,
        ReqModel::WriteBits { .. } => FC_WRITE_BITS,
        ReqModel::WriteRegisters { .. } => FC_WRITE_REGISTERS,
    }
}

/// Whether a request respects its per-function quantity ceiling and stays
/// inside the 16-bit address space.
pub open spec fn req_valid(m: ReqModel) -> bool {
    match m {
        ReqModel::ReadBits { address, quantity } =>
            1 <= quantity <= MAX_READ_BITS && address + quantity <= 65536,
        ReqModel::ReadInputBits { address, quantity } =>
            1 <= quantity <= MAX_READ_BITS && address + quantity <= 65536,
        ReqModel::ReadRegisters { address, quantity } =>
            1 <= quantity <= MAX_READ_REGISTERS && address + quantity <= 65536,
        ReqModel::ReadInputRegisters { address, quantity } =>
            1 <= quantity <= MAX_READ_REGISTERS && address + quantity <= 65536,
        ReqModel::WriteBit { .. } => true,
        ReqModel::WriteRegister { .. } => true,
        ReqModel::WriteBits { address, values } =>
            1 <= values.len() <= MAX_WRITE_BITS && address + values.len() <= 65536,
        ReqModel::WriteRegisters { address, values } =>
            1 <= values.len() <= MAX_WRITE_REGISTERS && address + values.len() <= 65536,
    }
}

/// The coil value bytes of a write-single-coil request: 0xFF00 on, 0x0000 off.
pub open spec fn coil_byte(v: bool) -> u8 {
    if v { 0xFF } else { 0x00 }
}

/// The PDU bytes of a request: function code first, then its payload.
pub open spec fn req_pdu(m: ReqModel) -> Seq<u8> {
    match m {
        ReqModel::ReadBits { address, quantity } =>
            seq![FC_READ_BITS, hi8(address), lo8(address), hi8(quantity), lo8(quantity)],
        ReqModel::ReadInputBits { address, quantity } =>
            seq![FC_READ_INPUT_BITS, hi8(address), lo8(address), hi8(quantity), lo8(quantity)],
        ReqModel::ReadRegisters { address, quantity } =>
            seq![FC_READ_REGISTERS, hi8(address), lo8(address), hi8(quantity), lo8(quantity)],
        ReqModel::ReadInputRegisters { address, quantity } =>
            seq![FC_READ_INPUT_REGISTERS, hi8(address), lo8(address), hi8(quantity), lo8(quantity)],
        ReqModel::WriteBit { address, value } =>
            seq![FC_WRITE_BIT, hi8(address), lo8(address), coil_byte(value), 0],
        ReqModel::WriteRegister { address, value } =>
            seq![FC_WRITE_REGISTER, hi8(address), lo8(address), hi8(value), lo8(value)],
        ReqModel::WriteBits { address, values } =>
            seq![
                FC_WRITE_BITS,
                hi8(address),
                lo8(address),
                hi8(values.len() as u16),
                lo8(values.len() as u16),
                ((values.len() + 7) / 8) as u8,
            ] + pack_bits(values),
        ReqModel::WriteRegisters { address, values } =>
            seq![
                FC_WRITE_REGISTERS,
                hi8(address),
                lo8(address),
                hi8(values.len() as u16),
                lo8(values.len() as u16),
                (2 * values.len()) as u8,
            ] + regs_bytes(values),
    }
}

/// Parsing a request PDU: the inverse of `req_pdu` on valid requests, with
/// each failure tied to what is wrong with the bytes.
pub open spec fn parse_req(pdu: Seq<u8>) -> Result<ReqModel, ModbusError> {
    if pdu.len() == 0 {
        Err(ModbusError::InvalidHeader)
    } else {
        let fc = pdu[0];
        if fc == FC_READ_BITS || fc == FC_READ_INPUT_BITS || fc == FC_READ_REGISTERS
            || fc == FC_READ_INPUT_REGISTERS {
            if pdu.len() != 5 {
                Err(ModbusError::InvalidHeader)
            } else {
                let address = be16(pdu[1], pdu[2]);
                let quantity = be16(pdu[3], pdu[4]);
                let ceiling: u16 = if fc == FC_READ_BITS || fc == FC_READ_INPUT_BITS {
                    MAX_READ_BITS
                } else {
                    MAX_READ_REGISTERS
                };
                if quantity < 1 || quantity > ceiling {
                    Err(ModbusError::InvalidQuantity)
                } else if address + quantity > 65536 {
                    Err(ModbusError::InvalidAddress)
                } else if fc == FC_READ_BITS {
                    Ok(ReqModel::ReadBits { address, quantity })
                } else if fc == FC_READ_INPUT_BITS {
                    Ok(ReqModel::ReadInputBits { address, quantity })
                } else if fc == FC_READ_REGISTERS {
                    Ok(ReqModel::ReadRegisters { address, quantity })
                } else {
                    Ok(ReqModel::ReadInputRegisters { address, quantity })
                }
            }
        } else if fc == FC_WRITE_BIT {
            if pdu.len() != 5 {
                Err(ModbusError::InvalidHeader)
            } else if !(pdu[4] == 0 && (pdu[3] == 0xFF || pdu[3] == 0x00)) {
                Err(ModbusError::InvalidHeader)
            } else {
                Ok(ReqModel::WriteBit { address: be16(pdu[1], pdu[2]), value: pdu[3] == 0xFF })
            }
        } else if fc == FC_WRITE_REGISTER {
            if pdu.len() != 5 {
                Err(ModbusError::InvalidHeader)
            } else {
                Ok(ReqModel::WriteRegister {
                    address: be16(pdu[1], pdu[2]),
                    value: be16(pdu[3], pdu[4]),
                })
            }
        } else if fc == FC_WRITE_BITS {
            if pdu.len() < 6 {
                Err(ModbusError::InvalidHeader)
            } else {
                let address = be16(pdu[1], pdu[2]);
                let quantity = be16(pdu[3], pdu[4]);
                if quantity < 1 || quantity > MAX_WRITE_BITS {
                    Err(ModbusError::InvalidQuantity)
                } else if address + quantity > 65536 {
                    Err(ModbusError::InvalidAddress)
                } else if pdu[5] != (quantity + 7) / 8 || pdu.len() != 6 + (quantity + 7) / 8 {
                    Err(ModbusError::InvalidHeader)
                } else {
                    Ok(ReqModel::WriteBits {
                        address,
                        values: unpack_bits(pdu.skip(6), quantity as nat),
                    })
                }
            }
        } else if fc == FC_WRITE_REGISTERS {
            if pdu.len() < 6 {
                Err(ModbusError::InvalidHeader)
            } else {
                let address = be16(pdu[1], pdu[2]);
                let quantity = be16(pdu[3], pdu[4]);
                if quantity < 1 || quantity > MAX_WRITE_REGISTERS {
                    Err(ModbusError::InvalidQuantity)
                } else if address + quantity > 65536 {
                    Err(ModbusError::InvalidAddress)
                } else if pdu[5] != 2 * quantity || pdu.len() != 6 + 2 * quantity {
                    Err(ModbusError::InvalidHeader)
                } else {
                    Ok(ReqModel::WriteRegisters {
                        address,
                        values: regs_of_bytes(pdu.skip(6)),
                    })
                }
            }
        } else {
            Err(ModbusError::InvalidHeader)
        }
    }
}

/// A parsed request always respects its quantity ceiling and address bound.
pub proof fn lemma_parse_req_valid(pdu: Seq<u8>)
    requires
        parse_req(pdu) is Ok,
    ensures
        req_valid(parse_req(pdu)->Ok_0),
{
    let m = parse_req(pdu)->Ok_0;
    if pdu[0] == FC_WRITE_BITS {
        assert(unpack_bits(pdu.skip(6), (be16(pdu[3], pdu[4])) as nat).len()
            == be16(pdu[3], pdu[4]));
    } else if pdu[0] == FC_WRITE_REGISTERS {
        assert(pdu.skip(6).len() == 2 * be16(pdu[3], pdu[4]));
        assert(regs_of_bytes(pdu.skip(6)).len() == be16(pdu[3], pdu[4]));
    }
}

/// Parsing an encoded valid request gives the request back.
pub proof fn lemma_req_roundtrip(m: ReqModel)
    requires
        req_valid(m),
    ensures
        parse_req(req_pdu(m)) == Ok::<ReqModel, ModbusError>(m),
{
    let pdu = req_pdu(m);
    match m {
        ReqModel::ReadBits { address, quantity } => {
            lemma_be16_split(address);
            lemma_be16_split(quantity);
        },
        ReqModel::ReadInputBits { address, quantity } => {
            lemma_be16_split(address);
            lemma_be16_split(quantity);
        },
        ReqModel::ReadRegisters { address, quantity } => {
            lemma_be16_split(address);
            lemma_be16_split(quantity);
        },
        ReqModel::ReadInputRegisters { address, quantity } => {
            lemma_be16_split(address);
            lemma_be16_split(quantity);
        },
        ReqModel::WriteBit { address, value } => {
            lemma_be16_split(address);
        },
        ReqModel::WriteRegister { address, value } => {
            lemma_be16_split(address);
            lemma_be16_split(value);
        },
        ReqModel::WriteBits { address, values } => {
            lemma_be16_split(address);
            lemma_be16_split(values.len() as u16);
            assert(pdu.skip(6) =~= pack_bits(values));
            lemma_unpack_pack(values);
        },
        ReqModel::WriteRegisters { address, values } => {
            lemma_be16_split(address);
            lemma_be16_split(values.len() as u16);
            assert(pdu.skip(6) =~= regs_bytes(values));
            lemma_regs_roundtrip(values);
        },
    }
}

/// A response as the slave forms it and the master consumes it.
#[derive(Debug, PartialEq, Eq)]
pub enum Response {
    /// Coil or discrete-input values, under function code 1 or 2.
    Bits { function: u8, values: Vec<bool> },
    /// Holding or input register values, under function code 3 or 4.
    Registers { function: u8, values: Vec<u16> },
    /// Echo of a write-single-coil request.
    WriteBitAck { address: u16, value: bool },
    /// Echo of a write-single-register request.
    WriteRegisterAck { address: u16, value: u16 },
    /// Echo of a write-multiple-coils request: address and quantity.
    WriteBitsAck { address: u16, quantity: u16 },
    /// Echo of a write-multiple-registers request: address and quantity.
    WriteRegistersAck { address: u16, quantity: u16 },
    /// An exception: the offending function code and the exception code.
    Exception { function: u8, code: u8 },
}

/// The mathematical shape of a response.
pub enum RespModel {
    Bits { function: u8, values: Seq<bool> },
    Registers { function: u8, values: Seq<u16> },
    WriteBitAck { address: u16, value: bool },
    WriteRegisterAck { address: u16, value: u16 },
    WriteBitsAck { address: u16, quantity: u16 },
    WriteRegistersAck { address: u16, quantity: u16 },
    Exception { function: u8, code: u8 },
}

impl View for Response {
    type V = RespModel;

    open spec fn view(&self) -> RespModel {
        match self {
            Response::Bits { function, values } => RespModel::Bits { function: *function, values: values@ },
            Response::Registers { function, values } => RespModel::Registers { function: *function, values: values@ },
            Response::WriteBitAck { address, value } => RespModel::WriteBitAck { address: *address, value: *value },
            Response::WriteRegisterAck { address, value } => RespModel::WriteRegisterAck { address: *address, value: *value },
            Response::WriteBitsAck { address, quantity } => RespModel::WriteBitsAck { address: *address, quantity: *quantity },
            Response::WriteRegistersAck { address, quantity } => RespModel::WriteRegistersAck { address: *address, quantity: *quantity },
            Response::Exception { function, code } => RespModel::Exception { function: *function, code: *code },
        }
    }
}

/// Whether a response has a shape the wire format can carry.
pub open spec fn resp_valid(m: RespModel) -> bool {
    match m {
        RespModel::Bits { function, values } =>
            (function == FC_READ_BITS || function == FC_READ_INPUT_BITS)
                && 1 <= values.len() <= MAX_READ_BITS,
        RespModel::Registers { function, values } =>
            (function == FC_READ_REGISTERS || function == FC_READ_INPUT_REGISTERS)
                && 1 <= values.len() <= MAX_READ_REGISTERS,
        RespModel::WriteBitAck { .. } => true,
        RespModel::WriteRegisterAck { .. } => true,
        RespModel::WriteBitsAck { quantity, .. } => 1 <= quantity <= MAX_WRITE_BITS,
        RespModel::WriteRegistersAck { quantity, .. } => 1 <= quantity <= MAX_WRITE_REGISTERS,
        RespModel::Exception { function, code } => function < 128 && 1 <= code,
    }
}

/// The PDU bytes of a response. An exception travels under the request's
/// function code with the high bit set, followed by the exception code.
pub open spec fn resp_pdu(m: RespModel) -> Seq<u8> {
    match m {
        RespModel::Bits { function, values } =>
            seq![function, ((values.len() + 7) / 8) as u8] + pack_bits(values),
        RespModel::Registers { function, values } =>
            seq![function, (2 * values.len()) as u8] + regs_bytes(values),
        RespModel::WriteBitAck { address, value } =>
            seq![FC_WRITE_BIT, hi8(address), lo8(address), coil_byte(value), 0],
        RespModel::WriteRegisterAck { address, value } =>
            seq![FC_WRITE_REGISTER, hi8(address), lo8(address), hi8(value), lo8(value)],
        RespModel::WriteBitsAck { address, quantity } =>
            seq![FC_WRITE_BITS, hi8(address), lo8(address), hi8(quantity), lo8(quantity)],
        RespModel::WriteRegistersAck { address, quantity } =>
            seq![FC_WRITE_REGISTERS, hi8(address), lo8(address), hi8(quantity), lo8(quantity)],
        RespModel::Exception { function, code } =>
            seq![(function + 128) as u8, code],
    }
}

/// Parsing a response PDU against the request it answers. An exception
/// frame surfaces as `ModbusError::ModbusException`; a frame that does not
/// answer `req` fails with `InvalidHeader`.
pub open spec fn parse_resp(pdu: Seq<u8>, req: ReqModel) -> Result<RespModel, ModbusError> {
    if pdu.len() == 0 {
        Err(ModbusError::InvalidHeader)
    } else if pdu[0] == req_fc(req) + 128 {
        if pdu.len() == 2 {
            Err(ModbusError::ModbusException(pdu[1]))
        } else {
            Err(ModbusError::InvalidHeader)
        }
    } else if pdu[0] != req_fc(req) {
        Err(ModbusError::InvalidHeader)
    } else {
        match req {
            ReqModel::ReadBits { quantity, .. } => parse_resp_bits(pdu, quantity),
            ReqModel::ReadInputBits { quantity, .. } => parse_resp_bits(pdu, quantity),
            ReqModel::ReadRegisters { quantity, .. } => parse_resp_regs(pdu, quantity),
            ReqModel::ReadInputRegisters { quantity, .. } => parse_resp_regs(pdu, quantity),
            ReqModel::WriteBit { address, value } =>
                if pdu =~= req_pdu(req) {
                    Ok(RespModel::WriteBitAck { address, value })
                } else {
                    Err(ModbusError::InvalidHeader)
                },
            ReqModel::WriteRegister { address, value } =>
                if pdu =~= req_pdu(req) {
                    Ok(RespModel::WriteRegisterAck { address, value })
                } else {
                    Err(ModbusError::InvalidHeader)
                },
            ReqModel::WriteBits { address, values } =>
                if pdu =~= seq![
                    FC_WRITE_BITS,
                    hi8(address),
                    lo8(address),
                    hi8(values.len() as u16),
                    lo8(values.len() as u16),
                ] {
                    Ok(RespModel::WriteBitsAck { address, quantity: values.len() as u16 })
                } else {
                    Err(ModbusError::InvalidHeader)
                },
            ReqModel::WriteRegisters { address, values } =>
                if pdu =~= seq![
                    FC_WRITE_REGISTERS,
                    hi8(address),
                    lo8(address),
                    hi8(values.len() as u16),
                    lo8(values.len() as u16),
                ] {
                    Ok(RespModel::WriteRegistersAck { address, quantity: values.len() as u16 })
                } else {
                    Err(ModbusError::InvalidHeader)
                },
        }
    }
}

/// The bit-values payload of a read-bits response carrying `quantity` bits.
pub open spec fn parse_resp_bits(pdu: Seq<u8>, quantity: u16) -> Result<RespModel, ModbusError> {
    if pdu.len() == 2 + (quantity + 7) / 8 && pdu[1] == (quantity + 7) / 8 {
        Ok(RespModel::Bits { function: pdu[0], values: unpack_bits(pdu.skip(2), quantity as nat) })
    } else {
        Err(ModbusError::InvalidHeader)
    }
}

/// The register payload of a read-registers response carrying `quantity`
/// registers.
pub open spec fn parse_resp_regs(pdu: Seq<u8>, quantity: u16) -> Result<RespModel, ModbusError> {
    if pdu.len() == 2 + 2 * quantity && pdu[1] == 2 * quantity {
        Ok(RespModel::Registers { function: pdu[0], values: regs_of_bytes(pdu.skip(2)) })
    } else {
        Err(ModbusError::InvalidHeader)
    }
}

/// Whether `resp` is the kind of response that answers `req`.
pub open spec fn resp_matches(req: ReqModel, resp: RespModel) -> bool {
    match (req, resp) {
        (ReqModel::ReadBits { quantity, .. }, RespModel::Bits { function, values }) =>
            function == FC_READ_BITS && values.len() == quantity,
        (ReqModel::ReadInputBits { quantity, .. }, RespModel::Bits { function, values }) =>
            function == FC_READ_INPUT_BITS && values.len() == quantity,
        (ReqModel::ReadRegisters { quantity, .. }, RespModel::Registers { function, values }) =>
            function == FC_READ_REGISTERS && values.len() == quantity,
        (ReqModel::ReadInputRegisters { quantity, .. }, RespModel::Registers { function, values }) =>
            function == FC_READ_INPUT_REGISTERS && values.len() == quantity,
        (ReqModel::WriteBit { address, value }, RespModel::WriteBitAck { address: a, value: v }) =>
            a == address && v == value,
        (ReqModel::WriteRegister { address, value }, RespModel::WriteRegisterAck { address: a, value: v }) =>
            a == address && v == value,
        (ReqModel::WriteBits { address, values }, RespModel::WriteBitsAck { address: a, quantity }) =>
            a == address && quantity == values.len(),
        (ReqModel::WriteRegisters { address, values }, RespModel::WriteRegistersAck { address: a, quantity }) =>
            a == address && quantity == values.len(),
        _ => false,
    }
}

/// Parsing an encoded response against the request it answers gives the
/// response back.
pub proof fn lemma_resp_roundtrip(req: ReqModel, resp: RespModel)
    requires
        req_valid(req),
        resp_valid(resp),
        resp_matches(req, resp),
    ensures
        parse_resp(resp_pdu(resp), req) == Ok::<RespModel, ModbusError>(resp),
{
    let pdu = resp_pdu(resp);
    assert(pdu[0] == req_fc(req));
    assert(req_fc(req) < 128);
    match resp {
        RespModel::Bits { function, values } => {
            assert(pack_bits(values).len() == (values.len() + 7) / 8);
            assert(pdu.len() == 2 + (values.len() + 7) / 8);
            assert(pdu.skip(2) =~= pack_bits(values));
            lemma_unpack_pack(values);
        },
        RespModel::Registers { function, values } => {
            assert(pdu.skip(2) =~= regs_bytes(values));
            lemma_regs_roundtrip(values);
        },
        RespModel::WriteBitAck { address, value } => {
            assert(pdu =~= req_pdu(req));
        },
        RespModel::WriteRegisterAck { address, value } => {
            assert(pdu =~= req_pdu(req));
        },
        RespModel::WriteBitsAck { address, quantity } => {
        },
        RespModel::WriteRegistersAck { address, quantity } => {
        },
        RespModel::Exception { .. } => {
            assert(false);
        },
    }
}

/// Appends `v` to `out` big-endian.
fn push_u16(out: &mut Vec<u8>, v: u16)
    ensures
        final(out)@ == old(out)@ + seq![hi8(v), lo8(v)],
{
    out.push((v / 256) as u8);
    out.push((v % 256) as u8);
    proof {
        assert(out@ =~= old(out)@ + seq![hi8(v), lo8(v)]);
    }
}

/// Reads the big-endian value at positions `i`, `i + 1` of `pdu`.
fn read_u16(pdu: &[u8], i: usize) -> (r: u16)
    requires
        i + 1 < pdu@.len(),
    ensures
        r == be16(pdu@[i as int], pdu@[i as int + 1]),
{
    (pdu[i] as u16) * 256 + (pdu[i + 1] as u16)
}

/// Lays register values out as big-endian byte pairs.
fn encode_regs(values: &[u16]) -> (out: Vec<u8>)
    ensures
        out@ == regs_bytes(values@),
{
    let mut out: Vec<u8> = Vec::new();
    let mut i: usize = 0;
    while i < values.len()
        invariant
            i <= values@.len(),
            out@.len() == 2 * i,
            forall|k: int| 0 <= k < i ==> out@[2 * k] == hi8(values@[k]) && out@[2 * k + 1] == lo8(values@[k]),
        decreases values@.len() - i,
    {
        push_u16(&mut out, values[i]);
        i += 1;
    }
    proof {
        assert forall|k: int| 0 <= k < out@.len() implies out@[k] == regs_bytes(values@)[k] by {
            lemma_fundamental_div_mod(k, 2);
            lemma_mod_bound(k, 2);
        };
        assert(out@ =~= regs_bytes(values@));
    }
    out
}

/// Reads big-endian byte pairs back as register values.
fn decode_regs(bytes: &[u8]) -> (out: Vec<u16>)
    ensures
        out@ == regs_of_bytes(bytes@),
{
    let len = bytes.len();
    let n = len / 2;
    let mut out: Vec<u16> = Vec::new();
    let mut i: usize = 0;
    proof {
        lemma_fundamental_div_mod(bytes@.len() as int, 2);
        lemma_mod_bound(bytes@.len() as int, 2);
    }
    while i < n
        invariant
            len == bytes@.len(),
            n == len / 2,
            2 * n <= len,
            i <= n,
            out@.len() == i,
            forall|k: int| 0 <= k < i ==> out@[k] == be16(bytes@[2 * k], bytes@[2 * k + 1]),
        decreases n - i,
    {
        out.push(read_u16(bytes, 2 * i));
        i += 1;
    }
    proof {
        assert(out@ =~= regs_of_bytes(bytes@));
    }
    out
}

/// The function code `req` travels under.
pub fn request_function(req: &Request) -> (r: u8)
    ensures
        r == req_fc(req@),
{
    match req {
        Request::ReadBits { .. } => FC_READ_BITS,
        Request::ReadInputBits { .. } => FC_READ_INPUT_BITS,
        Request::ReadRegisters { .. } => FC_READ_REGISTERS,
        Request::ReadInputRegisters { .. } => FC_READ_INPUT_REGISTERS,
        Request::WriteBit { .. } => FC_WRITE_BIT,
        Request::WriteRegister { .. } => FC_WRITE_REGISTER,
        Request::WriteBits { .. } => FC_WRITE_BITS,
        Request::WriteRegisters { .. } => FC_WRITE_REGISTERS,
    }
}

/// Encodes a request as its PDU bytes.
pub fn encode_request(req: &Request) -> (out: Vec<u8>)
    requires
        req_valid(req@),
    ensures
        out@ == req_pdu(req@),
{
    let mut out: Vec<u8> = Vec::new();
    match req {
        Request::ReadBits { address, quantity } => {
            out.push(FC_READ_BITS);
            push_u16(&mut out, *address);
            push_u16(&mut out, *quantity);
        },
        Request::ReadInputBits { address, quantity } => {
            out.push(FC_READ_INPUT_BITS);
            push_u16(&mut out, *address);
            push_u16(&mut out, *quantity);
        },
        Request::ReadRegisters { address, quantity } => {
            out.push(FC_READ_REGISTERS);
            push_u16(&mut out, *address);
            push_u16(&mut out, *quantity);
        },
        Request::ReadInputRegisters { address, quantity } => {
            out.push(FC_READ_INPUT_REGISTERS);
            push_u16(&mut out, *address);
            push_u16(&mut out, *quantity);
        },
        Request::WriteBit { address, value } => {
            out.push(FC_WRITE_BIT);
            push_u16(&mut out, *address);
            out.push(if *value { 0xFF } else { 0x00 });
            out.push(0);
        },
        Request::WriteRegister { address, value } => {
            out.push(FC_WRITE_REGISTER);
            push_u16(&mut out, *address);
            push_u16(&mut out, *value);
        },
        Request::WriteBits { address, values } => {
            out.push(FC_WRITE_BITS);
            push_u16(&mut out, *address);
            push_u16(&mut out, values.len() as u16);
            out.push(((values.len() + 7) / 8) as u8);
            let mut packed = pack_bits_exec(values.as_slice());
            out.append(&mut packed);
        },
        Request::WriteRegisters { address, values } => {
            out.push(FC_WRITE_REGISTERS);
            push_u16(&mut out, *address);
            push_u16(&mut out, values.len() as u16);
            out.push((2 * values.len()) as u8);
            let mut regs = encode_regs(values.as_slice());
            out.append(&mut regs);
        },
    }
    proof {
        assert(out@ =~= req_pdu(req@));
    }
    out
}

/// A byte count of `(q + 7) / 8` offers at least `q` bits.
proof fn lemma_bits_fit(q: int)
    requires
        q >= 0,
    ensures
        q <= 8 * ((q + 7) / 8),
{
    lemma_fundamental_div_mod(q + 7, 8);
    lemma_mod_bound(q + 7, 8);
}

/// Decodes a request PDU, as `parse_req` describes it.
pub fn decode_request(pdu: &[u8]) -> (r: Result<Request, ModbusError>)
    ensures
        match r {
            Ok(req) => parse_req(pdu@) == Ok::<ReqModel, ModbusError>(req@) && req_valid(req@),
            Err(e) => parse_req(pdu@) == Err::<ReqModel, ModbusError>(e),
        },
{
    if pdu.len() == 0 {
        return Err(ModbusError::InvalidHeader);
    }
    let fc = pdu[0];
    if fc == FC_READ_BITS || fc == FC_READ_INPUT_BITS || fc == FC_READ_REGISTERS
        || fc == FC_READ_INPUT_REGISTERS {
        if pdu.len() != 5 {
            return Err(ModbusError::InvalidHeader);
        }
        let address = read_u16(pdu, 1);
        let quantity = read_u16(pdu, 3);
        let ceiling: u16 = if fc == FC_READ_BITS || fc == FC_READ_INPUT_BITS {
            MAX_READ_BITS
        } else {
            MAX_READ_REGISTERS
        };
        if quantity < 1 || quantity > ceiling {
            return Err(ModbusError::InvalidQuantity);
        }
        if address as u32 + quantity as u32 > 65536 {
            return Err(ModbusError::InvalidAddress);
        }
        if fc == FC_READ_BITS {
            Ok(Request::ReadBits { address, quantity })
        } else if fc == FC_READ_INPUT_BITS {
            Ok(Request::ReadInputBits { address, quantity })
        } else if fc == FC_READ_REGISTERS {
            Ok(Request::ReadRegisters { address, quantity })
        } else {
            Ok(Request::ReadInputRegisters { address, quantity })
        }
    } else if fc == FC_WRITE_BIT {
        if pdu.len() != 5 {
            return Err(ModbusError::InvalidHeader);
        }
        if !(pdu[4] == 0 && (pdu[3] == 0xFF || pdu[3] == 0x00)) {
            return Err(ModbusError::InvalidHeader);
        }
        Ok(Request::WriteBit { address: read_u16(pdu, 1), value: pdu[3] == 0xFF })
    } else if fc == FC_WRITE_REGISTER {
        if pdu.len() != 5 {
            return Err(ModbusError::InvalidHeader);
        }
        Ok(Request::WriteRegister { address: read_u16(pdu, 1), value: read_u16(pdu, 3) })
    } else if fc == FC_WRITE_BITS {
        if pdu.len() < 6 {
            return Err(ModbusError::InvalidHeader);
        }
        let address = read_u16(pdu, 1);
        let quantity = read_u16(pdu, 3);
        if quantity < 1 || quantity > MAX_WRITE_BITS {
            return Err(ModbusError::InvalidQuantity);
        }
        if address as u32 + quantity as u32 > 65536 {
            return Err(ModbusError::InvalidAddress);
        }
        let byte_count = (quantity + 7) / 8;
        if (pdu[5] as u16) != byte_count || pdu.len() != 6 + byte_count as usize {
            return Err(ModbusError::InvalidHeader);
        }
        proof {
            lemma_bits_fit(quantity as int);
        }
        let tail = vstd::slice::slice_subrange(pdu, 6, pdu.len());
        let values = unpack_bits_exec(tail, quantity as usize);
        proof {
            assert(tail@ =~= pdu@.skip(6));
        }
        Ok(Request::WriteBits { address, values })
    } else if fc == FC_WRITE_REGISTERS {
        if pdu.len() < 6 {
            return Err(ModbusError::InvalidHeader);
        }
        let address = read_u16(pdu, 1);
        let quantity = read_u16(pdu, 3);
        if quantity < 1 || quantity > MAX_WRITE_REGISTERS {
            return Err(ModbusError::InvalidQuantity);
        }
        if address as u32 + quantity as u32 > 65536 {
            return Err(ModbusError::InvalidAddress);
        }
        if (pdu[5] as u16) != 2 * quantity || pdu.len() != 6 + 2 * quantity as usize {
            return Err(ModbusError::InvalidHeader);
        }
        let tail = vstd::slice::slice_subrange(pdu, 6, pdu.len());
        let values = decode_regs(tail);
        proof {
            assert(tail@ =~= pdu@.skip(6));
            assert(regs_of_bytes(tail@).len() == quantity);
        }
        Ok(Request::WriteRegisters { address, values })
    } else {
        Err(ModbusError::InvalidHeader)
    }
}

/// Encodes a response as its PDU bytes.
pub fn encode_response(resp: &Response) -> (out: Vec<u8>)
    requires
        resp_valid(resp@),
    ensures
        out@ == resp_pdu(resp@),
{
    let mut out: Vec<u8> = Vec::new();
    match resp {
        Response::Bits { function, values } => {
            out.push(*function);
            out.push(((values.len() + 7) / 8) as u8);
            let mut packed = pack_bits_exec(values.as_slice());
            out.append(&mut packed);
        },
        Response::Registers { function, values } => {
            out.push(*function);
            out.push((2 * values.len()) as u8);
            let mut regs = encode_regs(values.as_slice());
            out.append(&mut regs);
        },
        Response::WriteBitAck { address, value } => {
            out.push(FC_WRITE_BIT);
            push_u16(&mut out, *address);
            out.push(if *value { 0xFF } else { 0x00 });
            out.push(0);
        },
        Response::WriteRegisterAck { address, value } => {
            out.push(FC_WRITE_REGISTER);
            push_u16(&mut out, *address);
            push_u16(&mut out, *value);
        },
        Response::WriteBitsAck { address, quantity } => {
            out.push(FC_WRITE_BITS);
            push_u16(&mut out, *address);
            push_u16(&mut out, *quantity);
        },
        Response::WriteRegistersAck { address, quantity } => {
            out.push(FC_WRITE_REGISTERS);
            push_u16(&mut out, *address);
            push_u16(&mut out, *quantity);
        },
        Response::Exception { function, code } => {
            out.push(function + 128);
            out.push(*code);
        },
    }
    proof {
        assert(out@ =~= resp_pdu(resp@));
    }
    out
}

/// Decodes a response PDU against the request it should answer, as
/// `parse_resp` describes it.
pub fn decode_response(pdu: &[u8], req: &Request) -> (r: Result<Response, ModbusError>)
    requires
        req_valid(req@),
    ensures
        match r {
            Ok(resp) => parse_resp(pdu@, req@) == Ok::<RespModel, ModbusError>(resp@),
            Err(e) => parse_resp(pdu@, req@) == Err::<RespModel, ModbusError>(e),
        },
{
    if pdu.len() == 0 {
        return Err(ModbusError::InvalidHeader);
    }
    let efc = request_function(req);
    if pdu[0] == efc + 128 {
        if pdu.len() == 2 {
            return Err(ModbusError::ModbusException(pdu[1]));
        }
        return Err(ModbusError::InvalidHeader);
    }
    if pdu[0] != efc {
        return Err(ModbusError::InvalidHeader);
    }
    match req {
        Request::ReadBits { quantity, .. } | Request::ReadInputBits { quantity, .. } => {
            let byte_count = (*quantity + 7) / 8;
            if pdu.len() != 2 + byte_count as usize || (pdu[1] as u16) != byte_count {
                return Err(ModbusError::InvalidHeader);
            }
            proof {
                lemma_bits_fit(*quantity as int);
            }
            let tail = vstd::slice::slice_subrange(pdu, 2, pdu.len());
            let values = unpack_bits_exec(tail, *quantity as usize);
            proof {
                assert(tail@ =~= pdu@.skip(2));
            }
            Ok(Response::Bits { function: efc, values })
        },
        Request::ReadRegisters { quantity, .. } | Request::ReadInputRegisters { quantity, .. } => {
            if pdu.len() != 2 + 2 * *quantity as usize || (pdu[1] as u16) != 2 * *quantity {
                return Err(ModbusError::InvalidHeader);
            }
            let tail = vstd::slice::slice_subrange(pdu, 2, pdu.len());
            let values = decode_regs(tail);
            proof {
                assert(tail@ =~= pdu@.skip(2));
            }
            Ok(Response::Registers { function: efc, values })
        },
        Request::WriteBit { address, value } => {
            if pdu.len() == 5 && pdu[1] == (*address / 256) as u8 && pdu[2] == (*address % 256) as u8
                && pdu[3] == (if *value { 0xFF } else { 0x00 }) && pdu[4] == 0 {
                proof {
                    assert(pdu@ =~= req_pdu(req@));
                }
                Ok(Response::WriteBitAck { address: *address, value: *value })
            } else {
                proof {
                    assert(!(pdu@ =~= req_pdu(req@)));
                }
                Err(ModbusError::InvalidHeader)
            }
        },
        Request::WriteRegister { address, value } => {
            if pdu.len() == 5 && pdu[1] == (*address / 256) as u8 && pdu[2] == (*address % 256) as u8
                && pdu[3] == (*value / 256) as u8 && pdu[4] == (*value % 256) as u8 {
                proof {
                    assert(pdu@ =~= req_pdu(req@));
                }
                Ok(Response::WriteRegisterAck { address: *address, value: *value })
            } else {
                proof {
                    assert(!(pdu@ =~= req_pdu(req@)));
                }
                Err(ModbusError::InvalidHeader)
            }
        },
        Request::WriteBits { address, values } => {
            let quantity = values.len() as u16;
            if pdu.len() == 5 && pdu[1] == (*address / 256) as u8 && pdu[2] == (*address % 256) as u8
                && pdu[3] == (quantity / 256) as u8 && pdu[4] == (quantity % 256) as u8 {
                proof {
                    assert(pdu@ =~= seq![
                        FC_WRITE_BITS,
                        hi8(*address),
                        lo8(*address),
                        hi8(values@.len() as u16),
                        lo8(values@.len() as u16),
                    ]);
                }
                Ok(Response::WriteBitsAck { address: *address, quantity })
            } else {
                proof {
                    assert(!(pdu@ =~= seq![
                        FC_WRITE_BITS,
                        hi8(*address),
                        lo8(*address),
                        hi8(values@.len() as u16),
                        lo8(values@.len() as u16),
                    ]));
                }
                Err(ModbusError::InvalidHeader)
            }
        },
        Request::WriteRegisters { address, values } => {
            let quantity = values.len() as u16;
            if pdu.len() == 5 && pdu[1] == (*address / 256) as u8 && pdu[2] == (*address % 256) as u8
                && pdu[3] == (quantity / 256) as u8 && pdu[4] == (quantity % 256) as u8 {
                proof {
                    assert(pdu@ =~= seq![
                        FC_WRITE_REGISTERS,
                        hi8(*address),
                        lo8(*address),
                        hi8(values@.len() as u16),
                        lo8(values@.len() as u16),
                    ]);
                }
                Ok(Response::WriteRegistersAck { address: *address, quantity })
            } else {
                proof {
                    assert(!(pdu@ =~= seq![
                        FC_WRITE_REGISTERS,
                        hi8(*address),
                        lo8(*address),
                        hi8(values@.len() as u16),
                        lo8(values@.len() as u16),
                    ]));
                }
                Err(ModbusError::InvalidHeader)
            }
        },
    }
}


/// The PDU of a valid request is never empty and fits every frame format.
pub proof fn lemma_req_pdu_len(req: ReqModel)
    requires
        req_valid(req),
    ensures
        1 <= req_pdu(req).len() <= 253,
{
}

/// The PDU of a valid response is never empty and fits every frame format.
pub proof fn lemma_resp_pdu_len(resp: RespModel)
    requires
        resp_valid(resp),
    ensures
        1 <= resp_pdu(resp).len() <= 253,
{
}

} // verus!
