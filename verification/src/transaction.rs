//! The transaction engine: the state of one request/response exchange. The
//! engine performs no I/O; the caller writes out the frame each `Send`
//! action carries, and feeds back either received bytes or a timeout. A
//! frame that does not answer the outstanding request is discarded without
//! restarting the timer, so noise cannot stall a transaction forever.

use vstd::prelude::*;
use crate::ModbusError;
use crate::pdu::{
    ReqModel, Request, RespModel, Response, decode_response, encode_request, lemma_req_pdu_len,
    parse_resp, req_pdu, req_valid,
};
use crate::frame::{
    decode_rtu, decode_tcp, encode_rtu, encode_tcp, parse_rtu, parse_tcp, rtu_frame, tcp_frame,
};

verus! {

/// Where a transaction stands.
#[derive(Debug, PartialEq, Eq, Clone, Copy, Structural)]
pub enum TxStatus {
    /// Created, nothing sent yet.
    Idle,
    /// The request is out; a response or a timeout is awaited.
    AwaitingResponse,
    /// Finished, with an outcome.
    Done,
}

/// What the caller must do next with a transaction.
#[derive(Debug, PartialEq, Eq)]
pub enum TxAction {
    /// Write these bytes to the transport, then wait.
    Send(Vec<u8>),
    /// Keep waiting for bytes or a timeout.
    Wait,
    /// The transaction is done; collect its outcome.
    Finished,
}

/// The mathematical shape of a transaction.
pub struct TxModel {
    pub request: ReqModel,
    pub frame: Seq<u8>,
    pub is_tcp: bool,
    pub tid: u16,
    pub unit: u8,
    pub max_retries: u32,
    pub sends_made: u32,
    pub status: TxStatus,
    pub outcome: Option<Result<RespModel, ModbusError>>,
}

/// One in-flight request/response exchange.
pub struct Transaction {
    request: Request,
    frame: Vec<u8>,
    is_tcp: bool,
    tid: u16,
    unit: u8,
    max_retries: u32,
    sends_made: u32,
    status: TxStatus,
    outcome: Option<Result<Response, ModbusError>>,
}

impl View for Transaction {
    type V = TxModel;

    closed spec fn view(&self) -> TxModel {
        TxModel {
            request: self.request@,
            frame: self.frame@,
            is_tcp: self.is_tcp,
            tid: self.tid,
            unit: self.unit,
            max_retries: self.max_retries,
            sends_made: self.sends_made,
            status: self.status,
            outcome: match self.outcome {
                None => None,
                Some(Ok(resp)) => Some(Ok(resp@)),
                Some(Err(e)) => Some(Err(e)),
            },
        }
    }
}

/// The outcome a broadcast request completes with as soon as it is sent: a
/// write is acknowledged locally, a read can never be answered.
pub open spec fn broadcast_outcome(req: ReqModel) -> Result<RespModel, ModbusError> {
    match req {
        ReqModel::WriteBit { address, value } => Ok(RespModel::WriteBitAck { address, value }),
        ReqModel::WriteRegister { address, value } => Ok(
            RespModel::WriteRegisterAck { address, value },
        ),
        ReqModel::WriteBits { address, values } => Ok(
            RespModel::WriteBitsAck { address, quantity: values.len() as u16 },
        ),
        ReqModel::WriteRegisters { address, values } => Ok(
            RespModel::WriteRegistersAck { address, quantity: values.len() as u16 },
        ),
        _ => Err(ModbusError::NoResponse),
    }
}

/// What a received byte string means to a transaction: `None` when it is
/// discarded (bad frame, wrong unit or transaction identifier, a response
/// that does not answer the request), otherwise the outcome it settles.
pub open spec fn frame_outcome(t: TxModel, bytes: Seq<u8>) -> Option<
    Result<RespModel, ModbusError>,
> {
    let pdu_opt = if t.is_tcp {
        match parse_tcp(bytes) {
            Ok((tid, unit, pdu)) => if tid == t.tid && unit == t.unit {
                Some(pdu)
            } else {
                None
            },
            Err(_) => None,
        }
    } else {
        match parse_rtu(bytes) {
            Ok((unit, pdu)) => if unit == t.unit {
                Some(pdu)
            } else {
                None
            },
            Err(_) => None,
        }
    };
    match pdu_opt {
        None => None,
        Some(pdu) => match parse_resp(pdu, t.request) {
            Ok(resp) => Some(Ok(resp)),
            Err(e) => if e is ModbusException {
                Some(Err(e))
            } else {
                None
            },
        },
    }
}

/// The invariant every transaction keeps: the stored frame is the encoding
/// of the request, the send count stays within the retry budget, and a
/// non-broadcast transaction that failed with `NoResponse` made exactly
/// `max_retries + 1` send attempts.
pub open spec fn tx_wf(t: TxModel) -> bool {
    &&& req_valid(t.request)
    &&& t.max_retries < u32::MAX
    &&& t.frame == if t.is_tcp {
        tcp_frame(t.tid, t.unit, req_pdu(t.request))
    } else {
        rtu_frame(t.unit, req_pdu(t.request))
    }
    &&& (t.status is Idle ==> t.sends_made == 0 && t.outcome is None)
    &&& (t.status is AwaitingResponse ==> 1 <= t.sends_made <= t.max_retries + 1
        && t.outcome is None && t.unit != 0)
    &&& (t.status is Done ==> t.outcome is Some && t.sends_made >= 1)
    &&& (t.status is Done && t.outcome == Some(Err::<RespModel, ModbusError>(
        ModbusError::NoResponse,
    )) && t.unit != 0 ==> t.sends_made == t.max_retries + 1)
}

impl Transaction {
    /// Builds a transaction for `request`, framed for `unit` under the RTU
    /// or TCP format, with the given retry budget. Nothing is sent yet.
    pub fn new(request: Request, is_tcp: bool, tid: u16, unit: u8, max_retries: u32) -> (t:
        Transaction)
        requires
            req_valid(request@),
            max_retries < u32::MAX,
        ensures
            t@.request == request@,
            t@.is_tcp == is_tcp,
            t@.tid == tid,
            t@.unit == unit,
            t@.max_retries == max_retries,
            t@.sends_made == 0,
            t@.status is Idle,
            tx_wf(t@),
    {
        proof {
            lemma_req_pdu_len(request@);
        }
        let pdu = encode_request(&request);
        let frame = if is_tcp {
            encode_tcp(tid, unit, pdu.as_slice())
        } else {
            encode_rtu(unit, pdu.as_slice())
        };
        Transaction {
            request,
            frame,
            is_tcp,
            tid,
            unit,
            max_retries,
            sends_made: 0,
            status: TxStatus::Idle,
            outcome: None,
        }
    }

    /// How often the request has been written to the transport.
    pub fn sends_made(&self) -> (n: u32)
        ensures
            n == self@.sends_made,
    {
        self.sends_made
    }

    /// Where the transaction stands.
    pub fn status(&self) -> (s: TxStatus)
        ensures
            s == self@.status,
    {
        self.status
    }

    /// First send of the request. A broadcast transaction completes at
    /// once; any other starts awaiting a response.
    pub fn start(&mut self) -> (a: TxAction)
        requires
            tx_wf(old(self)@),
            old(self)@.status is Idle,
        ensures
            tx_wf(final(self)@),
            final(self)@.request == old(self)@.request,
            final(self)@.frame == old(self)@.frame,
            final(self)@.is_tcp == old(self)@.is_tcp,
            final(self)@.tid == old(self)@.tid,
            final(self)@.unit == old(self)@.unit,
            final(self)@.max_retries == old(self)@.max_retries,
            final(self)@.sends_made == 1,
            (match a {
                TxAction::Send(f) => f@ == old(self)@.frame,
                _ => false,
            }),
            old(self)@.unit == 0 ==> final(self)@.status is Done && final(self)@.outcome
                == Some(broadcast_outcome(old(self)@.request)),
            old(self)@.unit != 0 ==> final(self)@.status is AwaitingResponse
                && final(self)@.outcome is None,
    {
        self.sends_made = 1;
        if self.unit == 0 {
            self.status = TxStatus::Done;
            let out: Result<Response, ModbusError> = match &self.request {
                Request::WriteBit { address, value } => Ok(Response::WriteBitAck {
                    address: *address,
                    value: *value,
                }),
                Request::WriteRegister { address, value } => Ok(Response::WriteRegisterAck {
                    address: *address,
                    value: *value,
                }),
                Request::WriteBits { address, values } => Ok(Response::WriteBitsAck {
                    address: *address,
                    quantity: values.len() as u16,
                }),
                Request::WriteRegisters { address, values } => Ok(Response::WriteRegistersAck {
                    address: *address,
                    quantity: values.len() as u16,
                }),
                _ => Err(ModbusError::NoResponse),
            };
            self.outcome = Some(out);
        } else {
            self.status = TxStatus::AwaitingResponse;
        }
        let mut frame: Vec<u8> = Vec::new();
        frame.extend_from_slice(self.frame.as_slice());
        proof {
            assert(frame@ =~= self@.frame);
        }
        TxAction::Send(frame)
    }

    /// The response timer ran out. While the retry budget lasts the same
    /// frame is re-sent; once `max_retries + 1` attempts are out, the
    /// transaction fails with `NoResponse`.
    pub fn on_timeout(&mut self) -> (a: TxAction)
        requires
            tx_wf(old(self)@),
            old(self)@.status is AwaitingResponse,
        ensures
            tx_wf(final(self)@),
            final(self)@.request == old(self)@.request,
            final(self)@.frame == old(self)@.frame,
            final(self)@.is_tcp == old(self)@.is_tcp,
            final(self)@.tid == old(self)@.tid,
            final(self)@.unit == old(self)@.unit,
            final(self)@.max_retries == old(self)@.max_retries,
            old(self)@.sends_made <= old(self)@.max_retries ==> {
                &&& final(self)@.status is AwaitingResponse
                &&& final(self)@.sends_made == old(self)@.sends_made + 1
                &&& (match a {
                    TxAction::Send(f) => f@ == old(self)@.frame,
                    _ => false,
                })
            },
            old(self)@.sends_made > old(self)@.max_retries ==> {
                &&& final(self)@.status is Done
                &&& final(self)@.outcome == Some(Err::<RespModel, ModbusError>(
                    ModbusError::NoResponse,
                ))
                &&& final(self)@.sends_made == old(self)@.max_retries + 1
                &&& a == TxAction::Finished
            },
    {
        if self.sends_made <= self.max_retries {
            self.sends_made = self.sends_made + 1;
            let mut frame: Vec<u8> = Vec::new();
            frame.extend_from_slice(self.frame.as_slice());
            proof {
                assert(frame@ =~= self@.frame);
            }
            TxAction::Send(frame)
        } else {
            self.status = TxStatus::Done;
            self.outcome = Some(Err(ModbusError::NoResponse));
            TxAction::Finished
        }
    }

    /// Bytes arrived. A frame that answers the outstanding request settles
    /// the transaction; anything else is discarded and the wait goes on,
    /// with the timer untouched.
    pub fn on_frame(&mut self, bytes: &[u8]) -> (a: TxAction)
        requires
            tx_wf(old(self)@),
            old(self)@.status is AwaitingResponse,
        ensures
            tx_wf(final(self)@),
            final(self)@.request == old(self)@.request,
            final(self)@.frame == old(self)@.frame,
            final(self)@.is_tcp == old(self)@.is_tcp,
            final(self)@.tid == old(self)@.tid,
            final(self)@.unit == old(self)@.unit,
            final(self)@.max_retries == old(self)@.max_retries,
            final(self)@.sends_made == old(self)@.sends_made,
            (match frame_outcome(old(self)@, bytes@) {
                None => final(self)@.status is AwaitingResponse && final(self)@.outcome is None
                    && a == TxAction::Wait,
                Some(out) => final(self)@.status is Done && final(self)@.outcome == Some(out)
                    && a == TxAction::Finished,
            }),
    {
        let pdu_opt: Option<Vec<u8>> = if self.is_tcp {
            match decode_tcp(bytes) {
                Ok((tid, unit, pdu)) => if tid == self.tid && unit == self.unit {
                    Some(pdu)
                } else {
                    None
                },
                Err(_) => None,
            }
        } else {
            match decode_rtu(bytes) {
                Ok((unit, pdu)) => if unit == self.unit {
                    Some(pdu)
                } else {
                    None
                },
                Err(_) => None,
            }
        };
        match pdu_opt {
            None => TxAction::Wait,
            Some(pdu) => {
                match decode_response(pdu.as_slice(), &self.request) {
                    Ok(resp) => {
                        self.status = TxStatus::Done;
                        self.outcome = Some(Ok(resp));
                        TxAction::Finished
                    },
                    Err(e) => {
                        if let ModbusError::ModbusException(code) = e {
                            self.status = TxStatus::Done;
                            self.outcome = Some(Err(ModbusError::ModbusException(code)));
                            TxAction::Finished
                        } else {
                            TxAction::Wait
                        }
                    },
                }
            },
        }
    }

    /// Hands out the outcome of a finished transaction.
    pub fn into_result(self) -> (r: Result<Response, ModbusError>)
        requires
            tx_wf(self@),
            self@.status is Done,
        ensures
            self@.outcome == Some(match r {
                Ok(resp) => Ok::<RespModel, ModbusError>(resp@),
                Err(e) => Err::<RespModel, ModbusError>(e),
            }),
    {
        match self.outcome {
            Some(r) => r,
            None => {
                proof {
                    assert(false);
                }
                Err(ModbusError::NoResponse)
            },
        }
    }
}

} // verus!
