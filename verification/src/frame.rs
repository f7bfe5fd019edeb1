//! The frame layer around a PDU: RTU framing with a trailing CRC16, and
//! TCP / TCP-PI framing with the MBAP header of transaction identifier,
//! protocol identifier, length and unit identifier.

use vstd::prelude::*;
use crate::ModbusError;
use crate::crc::crc16;
use crate::crc::crc16_compute;
use crate::pdu::{
    ReqModel, be16, hi8, lemma_be16_split, lemma_req_pdu_len, lemma_req_roundtrip, lo8, parse_req,
    req_pdu, req_valid,
};

verus! {

/// Largest PDU an RTU frame can carry: 256 bytes minus the unit identifier
/// and the two checksum bytes.
pub const MAX_RTU_PDU: usize = 253;

/// An RTU frame: unit identifier, PDU, then the CRC16 of both, low byte
/// first.
pub open spec fn rtu_frame(unit: u8, pdu: Seq<u8>) -> Seq<u8> {
    (seq![unit] + pdu) + seq![lo8(crc16(seq![unit] + pdu)), hi8(crc16(seq![unit] + pdu))]
}

/// Parsing an RTU frame: recompute the CRC over everything but the trailing
/// two bytes and compare; on agreement hand back unit identifier and PDU.
pub open spec fn parse_rtu(frame: Seq<u8>) -> Result<(u8, Seq<u8>), ModbusError> {
    if frame.len() < 4 {
        Err(ModbusError::InvalidHeader)
    } else {
        let body = frame.take(frame.len() - 2);
        let crc = crc16(body);
        if frame[frame.len() - 2] == lo8(crc) && frame[frame.len() - 1] == hi8(crc) {
            Ok((frame[0], body.skip(1)))
        } else {
            Err(ModbusError::ChecksumMismatch)
        }
    }
}

/// Decoding an encoded RTU frame gives the unit identifier and PDU back.
pub proof fn lemma_rtu_roundtrip(unit: u8, pdu: Seq<u8>)
    requires
        1 <= pdu.len() <= MAX_RTU_PDU,
    ensures
        parse_rtu(rtu_frame(unit, pdu)) == Ok::<(u8, Seq<u8>), ModbusError>((unit, pdu)),
{
    let frame = rtu_frame(unit, pdu);
    let body = seq![unit] + pdu;
    assert(frame.len() == pdu.len() + 3);
    assert(frame.take(frame.len() - 2) =~= body);
    assert(frame[frame.len() - 2] == lo8(crc16(body)));
    assert(frame[frame.len() - 1] == hi8(crc16(body)));
    assert(body.skip(1) =~= pdu);
}

/// Encodes `pdu` as an RTU frame for `unit`.
pub fn encode_rtu(unit: u8, pdu: &[u8]) -> (out: Vec<u8>)
    requires
        1 <= pdu@.len() <= MAX_RTU_PDU,
    ensures
        out@ == rtu_frame(unit, pdu@),
{
    let mut out: Vec<u8> = Vec::new();
    out.push(unit);
    out.extend_from_slice(pdu);
    proof {
        assert(out@ =~= seq![unit] + pdu@);
    }
    let crc = crc16_compute(out.as_slice());
    out.push((crc % 256) as u8);
    out.push((crc / 256) as u8);
    proof {
        assert(out@ =~= rtu_frame(unit, pdu@));
    }
    out
}

/// Decodes an RTU frame, as `parse_rtu` describes it.
pub fn decode_rtu(frame: &[u8]) -> (r: Result<(u8, Vec<u8>), ModbusError>)
    ensures
        match r {
            Ok(p) => parse_rtu(frame@) == Ok::<(u8, Seq<u8>), ModbusError>((p.0, p.1@)),
            Err(e) => parse_rtu(frame@) == Err::<(u8, Seq<u8>), ModbusError>(e),
        },
{
    if frame.len() < 4 {
        return Err(ModbusError::InvalidHeader);
    }
    let body = vstd::slice::slice_subrange(frame, 0, frame.len() - 2);
    proof {
        assert(body@ =~= frame@.take(frame@.len() - 2));
    }
    let crc = crc16_compute(body);
    if frame[frame.len() - 2] == (crc % 256) as u8 && frame[frame.len() - 1] == (crc / 256) as u8 {
        let pdu = vstd::slice::slice_to_vec(vstd::slice::slice_subrange(frame, 1, frame.len() - 2));
        proof {
            assert(pdu@ =~= frame@.take(frame@.len() - 2).skip(1));
        }
        Ok((frame[0], pdu))
    } else {
        Err(ModbusError::ChecksumMismatch)
    }
}

/// A TCP or TCP-PI frame: transaction identifier, protocol identifier zero,
/// the length of unit identifier plus PDU, the unit identifier, the PDU.
pub open spec fn tcp_frame(tid: u16, unit: u8, pdu: Seq<u8>) -> Seq<u8> {
    seq![
        hi8(tid),
        lo8(tid),
        0,
        0,
        hi8((pdu.len() + 1) as u16),
        lo8((pdu.len() + 1) as u16),
        unit,
    ] + pdu
}

/// Parsing a TCP frame: the protocol identifier must be zero and the
/// declared length must match the bytes present.
pub open spec fn parse_tcp(frame: Seq<u8>) -> Result<(u16, u8, Seq<u8>), ModbusError> {
    if frame.len() < 8 {
        Err(ModbusError::InvalidHeader)
    } else if frame[2] != 0 || frame[3] != 0 {
        Err(ModbusError::InvalidHeader)
    } else if be16(frame[4], frame[5]) != frame.len() - 6 {
        Err(ModbusError::InvalidHeader)
    } else {
        Ok((be16(frame[0], frame[1]), frame[6], frame.skip(7)))
    }
}

/// Joining two bytes and splitting the result gives the bytes back.
pub proof fn lemma_be16_parts(hi: u8, lo: u8)
    ensures
        hi8(be16(hi, lo)) == hi,
        lo8(be16(hi, lo)) == lo,
{
    vstd::arithmetic::div_mod::lemma_fundamental_div_mod_converse(
        be16(hi, lo) as int,
        256,
        hi as int,
        lo as int,
    );
}

/// Decoding an encoded TCP frame gives the header fields and PDU back.
pub proof fn lemma_tcp_roundtrip(tid: u16, unit: u8, pdu: Seq<u8>)
    requires
        1 <= pdu.len(),
        pdu.len() + 1 <= 65535,
    ensures
        parse_tcp(tcp_frame(tid, unit, pdu)) == Ok::<(u16, u8, Seq<u8>), ModbusError>(
            (tid, unit, pdu),
        ),
{
    let frame = tcp_frame(tid, unit, pdu);
    assert(frame.len() == pdu.len() + 7);
    lemma_be16_split(tid);
    lemma_be16_split((pdu.len() + 1) as u16);
    assert(frame.skip(7) =~= pdu);
}

/// Re-encoding a decoded TCP frame reproduces the original bytes exactly.
pub proof fn lemma_tcp_reencode(frame: Seq<u8>)
    requires
        parse_tcp(frame) is Ok,
    ensures
        tcp_frame(
            parse_tcp(frame)->Ok_0.0,
            parse_tcp(frame)->Ok_0.1,
            parse_tcp(frame)->Ok_0.2,
        ) == frame,
{
    let tid = parse_tcp(frame)->Ok_0.0;
    let unit = parse_tcp(frame)->Ok_0.1;
    let pdu = parse_tcp(frame)->Ok_0.2;
    lemma_be16_parts(frame[0], frame[1]);
    lemma_be16_parts(frame[4], frame[5]);
    assert(pdu.len() + 1 == be16(frame[4], frame[5]));
    assert(tcp_frame(tid, unit, pdu) =~= frame);
}

/// Encodes `pdu` as a TCP frame under transaction identifier `tid`.
pub fn encode_tcp(tid: u16, unit: u8, pdu: &[u8]) -> (out: Vec<u8>)
    requires
        1 <= pdu@.len(),
        pdu@.len() + 1 <= 65535,
    ensures
        out@ == tcp_frame(tid, unit, pdu@),
{
    let mut out: Vec<u8> = Vec::new();
    out.push((tid / 256) as u8);
    out.push((tid % 256) as u8);
    out.push(0);
    out.push(0);
    let length = (pdu.len() + 1) as u16;
    out.push((length / 256) as u8);
    out.push((length % 256) as u8);
    out.push(unit);
    out.extend_from_slice(pdu);
    proof {
        assert(out@ =~= tcp_frame(tid, unit, pdu@));
    }
    out
}

/// Decodes a TCP frame, as `parse_tcp` describes it.
pub fn decode_tcp(frame: &[u8]) -> (r: Result<(u16, u8, Vec<u8>), ModbusError>)
    ensures
        match r {
            Ok(p) => parse_tcp(frame@) == Ok::<(u16, u8, Seq<u8>), ModbusError>((p.0, p.1, p.2@)),
            Err(e) => parse_tcp(frame@) == Err::<(u16, u8, Seq<u8>), ModbusError>(e),
        },
{
    if frame.len() < 8 {
        return Err(ModbusError::InvalidHeader);
    }
    if frame[2] != 0 || frame[3] != 0 {
        return Err(ModbusError::InvalidHeader);
    }
    let declared = read_len(frame);
    if declared as usize != frame.len() - 6 {
        return Err(ModbusError::InvalidHeader);
    }
    let tid = (frame[0] as u16) * 256 + (frame[1] as u16);
    let pdu = vstd::slice::slice_to_vec(vstd::slice::slice_subrange(frame, 7, frame.len()));
    proof {
        assert(pdu@ =~= frame@.skip(7));
    }
    Ok((tid, frame[6], pdu))
}

/// A whole request ADU round-trips through the RTU format: decoding the
/// encoded frame of any valid request gives the unit identifier and the
/// request back.
pub proof fn lemma_rtu_request_roundtrip(unit: u8, req: ReqModel)
    requires
        req_valid(req),
    ensures
        parse_rtu(rtu_frame(unit, req_pdu(req))) == Ok::<(u8, Seq<u8>), ModbusError>(
            (unit, req_pdu(req)),
        ),
        parse_req(req_pdu(req)) == Ok::<ReqModel, ModbusError>(req),
{
    lemma_req_pdu_len(req);
    lemma_rtu_roundtrip(unit, req_pdu(req));
    lemma_req_roundtrip(req);
}

/// A whole request ADU round-trips through the TCP format.
pub proof fn lemma_tcp_request_roundtrip(tid: u16, unit: u8, req: ReqModel)
    requires
        req_valid(req),
    ensures
        parse_tcp(tcp_frame(tid, unit, req_pdu(req))) == Ok::<(u16, u8, Seq<u8>), ModbusError>(
            (tid, unit, req_pdu(req)),
        ),
        parse_req(req_pdu(req)) == Ok::<ReqModel, ModbusError>(req),
{
    lemma_req_pdu_len(req);
    lemma_tcp_roundtrip(tid, unit, req_pdu(req));
    lemma_req_roundtrip(req);
}

/// Reads the declared length field of a TCP frame header.
fn read_len(frame: &[u8]) -> (r: u16)
    requires
        frame@.len() >= 6,
    ensures
        r == be16(frame@[4], frame@[5]),
{
    (frame[4] as u16) * 256 + (frame[5] as u16)
}

} // verus!
