//! Per-connection PDU dispatch.
//!
//! One call of `handle_pdu` serves one inbound PDU: it consults the
//! pluggable logic for binds and submits, updates the connection's bind
//! state and the routing hub, and returns exactly one response together
//! with the verdict whether the connection dies afterwards.  The I/O
//! loop around it only reads frames, writes each response before it
//! reads again, and tears the connection down when told to; with that
//! discipline the one-response-per-PDU guarantees here become the
//! connection's in-order response guarantees.

use vstd::prelude::*;
use crate::config::SmscConfig;
use crate::connection::{BindState, EsmeId, EsmeIdView};
use crate::errors::{BindError, ParseErrorData, ProcessError, SubmitSmError};
use crate::message_unique_key::{MessageUniqueKey, MessageUniqueKeyView};
use crate::pdu::{
    is_bind_resp_err, is_bind_resp_ok, is_enquire_link_resp, is_generic_nack,
    is_submit_sm_resp_err, BindKind, BindRequestData, PduBody, PduModel, RespBody, Response,
    SubmitSmData, SubmitSmResp, BIND_TRANSMITTER_ID, ESME_RINVCMDID, ESME_RINVPASWD, ESME_ROK,
    ESME_RSYSERR,
};
use crate::smsc::Smsc;

verus! {

/// The pluggable SMSC logic: how binds are authenticated and what a
/// submit_sm is answered with.
///
/// Implementations live outside the core.  `bind` decides whether the
/// credentials are acceptable.  `submit_sm` processes an MT and hands
/// back the message id for the response, together with the key under
/// which the core records the message for later receipt routing.
///
/// An implementation that wants to inject delivery receipts later (via
/// `Smsc::receive_pdu`) keeps its own handle to the hub; the seam does
/// not carry one.
pub trait SmscLogic {
    fn bind(&mut self, bind_data: &BindRequestData) -> Result<(), BindError>;

    fn submit_sm(&mut self, pdu: &SubmitSmData, sequence_number: u32) -> Result<
        (SubmitSmResp, MessageUniqueKey),
        SubmitSmError,
    >;
}

/// The ESME identity a bind request names.
pub open spec fn spec_bind_esme(data: BindRequestData) -> EsmeIdView {
    EsmeIdView { system_id: data.system_id@, system_type: data.system_type@ }
}

/// What one PDU came to: the single response to write, and whether the
/// connection is to be torn down afterwards (writing the response
/// first).
pub struct HandleOutcome {
    pub response: Response,
    pub fatal: Option<ProcessError>,
}

/// The bind response each answer of the logic maps to: acceptance
/// carries the server's system_id under status ESME_ROK, refusal the
/// error body under the refusal's status.
pub fn bind_outcome_response(
    kind: BindKind,
    seq: u32,
    outcome: &Result<(), BindError>,
    config: &SmscConfig,
) -> (r: Response)
    ensures
        match outcome {
            Ok(()) => is_bind_resp_ok(r, kind, seq, config.system_id@),
            Err(e) => {
                &&& is_bind_resp_err(r, kind, seq, e.spec_command_status())
                &&& r.command_status != ESME_ROK
            },
        },
{
    match outcome {
        Ok(()) => Response {
            command_status: ESME_ROK,
            sequence_number: seq,
            body: RespBody::BindResp { kind, system_id: Some(config.system_id.clone()) },
        },
        Err(e) => Response {
            command_status: e.command_status(),
            sequence_number: seq,
            body: RespBody::BindResp { kind, system_id: None },
        },
    }
}

/// The submit_sm response each answer of the logic maps to: acceptance
/// echoes the message id the logic assigned under status ESME_ROK,
/// refusal the error body under the refusal's status.
pub fn submit_outcome_response(
    seq: u32,
    outcome: &Result<(SubmitSmResp, MessageUniqueKey), SubmitSmError>,
) -> (r: Response)
    ensures
        match outcome {
            Ok((resp, _)) => {
                &&& r.command_status == ESME_ROK
                &&& r.sequence_number == seq
                &&& r.body matches RespBody::SubmitSmResp { message_id: m }
                &&& m matches Some(mid)
                &&& mid@ == resp.message_id@
            },
            Err(e) => {
                &&& is_submit_sm_resp_err(r, seq, e.spec_command_status())
                &&& r.command_status != ESME_ROK
            },
        },
{
    match outcome {
        Ok((resp, _)) => Response {
            command_status: ESME_ROK,
            sequence_number: seq,
            body: RespBody::SubmitSmResp { message_id: Some(resp.message_id.clone()) },
        },
        Err(e) => Response {
            command_status: e.command_status(),
            sequence_number: seq,
            body: RespBody::SubmitSmResp { message_id: None },
        },
    }
}

/// Serve one inbound PDU.
///
/// Exactly one response comes back for every PDU.  A bind consults the
/// logic: on success the response echoes the server's system_id with
/// status ESME_ROK, the connection's bind state is set (first bind
/// wins there), and the hub registers this connection under the
/// request's identity (last bind wins there).  On refusal the response
/// carries the mapped status and the error body, and the connection
/// stays up.  enquire_link is answered locally.  A submit_sm on a bound
/// connection consults the logic: on success the hub records the
/// returned key under the connection's bound identity; either way a
/// submit_sm_resp with the same sequence number is returned.  A
/// submit_sm before any bind, and every other PDU kind, is answered
/// with generic_nack carrying ESME_RINVCMDID and kills the connection.
pub fn handle_pdu<C, L: SmscLogic>(
    pdu: &PduModel,
    state: &mut BindState,
    conn: C,
    config: &SmscConfig,
    logic: &mut L,
    smsc: &mut Smsc<C>,
) -> (r: HandleOutcome)
    requires
        old(smsc).wf(),
    ensures
        final(smsc).wf(),
        match pdu.body {
            PduBody::Bind { kind, data } => {
                &&& r.fatal is None
                &&& if r.response.command_status == ESME_ROK {
                    &&& is_bind_resp_ok(r.response, kind, pdu.sequence_number, config.system_id@)
                    &&& final(smsc)@.connections == old(smsc)@.connections.insert(
                        spec_bind_esme(data),
                        conn,
                    )
                    &&& final(smsc)@.messages == old(smsc)@.messages
                    &&& final(state)@ == if old(state)@ is None {
                        Some(spec_bind_esme(data))
                    } else {
                        old(state)@
                    }
                } else {
                    &&& is_bind_resp_err(r.response, kind, pdu.sequence_number, r.response.command_status)
                    &&& r.response.command_status == ESME_RINVPASWD || r.response.command_status
                        == ESME_RSYSERR
                    &&& final(smsc)@.connections == old(smsc)@.connections
                    &&& final(smsc)@.messages == old(smsc)@.messages
                    &&& final(state)@ == old(state)@
                }
            },
            PduBody::EnquireLink => {
                &&& r.fatal is None
                &&& is_enquire_link_resp(r.response, pdu.sequence_number)
                &&& final(smsc)@.connections == old(smsc)@.connections
                &&& final(smsc)@.messages == old(smsc)@.messages
                &&& final(state)@ == old(state)@
            },
            PduBody::SubmitSm { data } => {
                &&& final(state)@ == old(state)@
                &&& final(smsc)@.connections == old(smsc)@.connections
                &&& match old(state)@ {
                    Some(esme) => {
                        &&& r.fatal is None
                        &&& r.response.sequence_number == pdu.sequence_number
                        &&& if r.response.command_status == ESME_ROK {
                            &&& r.response.body matches RespBody::SubmitSmResp { message_id: m }
                            &&& m is Some
                            &&& exists|k: MessageUniqueKeyView|
                                final(smsc)@.messages == old(smsc)@.messages.insert(k, esme)
                        } else {
                            &&& is_submit_sm_resp_err(
                                r.response,
                                pdu.sequence_number,
                                ESME_RSYSERR,
                            )
                            &&& final(smsc)@.messages == old(smsc)@.messages
                        }
                    },
                    None => {
                        &&& is_generic_nack(r.response, pdu.sequence_number, ESME_RINVCMDID)
                        &&& r.fatal matches Some(ProcessError::ConnectionNotBoundAsTransmitter)
                        &&& final(smsc)@.messages == old(smsc)@.messages
                    },
                }
            },
            PduBody::DeliverSm { .. } => {
                &&& is_generic_nack(r.response, pdu.sequence_number, ESME_RINVCMDID)
                &&& r.fatal matches Some(
                    ProcessError::UnexpectedPduType { command_id, sequence_number },
                )
                &&& command_id == pdu.command_id
                &&& sequence_number == pdu.sequence_number
                &&& final(smsc)@.connections == old(smsc)@.connections
                &&& final(smsc)@.messages == old(smsc)@.messages
                &&& final(state)@ == old(state)@
            },
            PduBody::Other => {
                &&& is_generic_nack(r.response, pdu.sequence_number, ESME_RINVCMDID)
                &&& r.fatal matches Some(
                    ProcessError::UnexpectedPduType { command_id, sequence_number },
                )
                &&& command_id == pdu.command_id
                &&& sequence_number == pdu.sequence_number
                &&& final(smsc)@.connections == old(smsc)@.connections
                &&& final(smsc)@.messages == old(smsc)@.messages
                &&& final(state)@ == old(state)@
            },
        },
{
    let seq = pdu.sequence_number;
    match &pdu.body {
        PduBody::Bind { kind, data } => {
            let outcome = logic.bind(data);
            let response = bind_outcome_response(*kind, seq, &outcome, config);
            if outcome.is_ok() {
                let esme_id = EsmeId {
                    system_id: data.system_id.clone(),
                    system_type: data.system_type.clone(),
                };
                state.bind(esme_id.duplicate());
                smsc.add_connection(esme_id, conn);
            }
            HandleOutcome { response, fatal: None }
        },
        PduBody::EnquireLink => HandleOutcome {
            response: Response {
                command_status: ESME_ROK,
                sequence_number: seq,
                body: RespBody::EnquireLinkResp,
            },
            fatal: None,
        },
        PduBody::SubmitSm { data } => {
            let bound = match state.bound_esme_id() {
                Some(id) => Some(id.duplicate()),
                None => None,
            };
            match bound {
                Some(esme_id) => {
                    let outcome = logic.submit_sm(data, seq);
                    let response = submit_outcome_response(seq, &outcome);
                    if let Ok((_, key)) = outcome {
                        let ghost kv = key@;
                        smsc.add_message(key, esme_id);
                        proof {
                            assert(final(smsc)@.messages == old(smsc)@.messages.insert(
                                kv,
                                old(state)@->0,
                            ));
                        }
                    }
                    HandleOutcome { response, fatal: None }
                },
                None => HandleOutcome {
                    response: Response {
                        command_status: ESME_RINVCMDID,
                        sequence_number: seq,
                        body: RespBody::GenericNack,
                    },
                    fatal: Some(ProcessError::ConnectionNotBoundAsTransmitter),
                },
            }
        },
        PduBody::DeliverSm { .. } | PduBody::Other => HandleOutcome {
            response: Response {
                command_status: ESME_RINVCMDID,
                sequence_number: seq,
                body: RespBody::GenericNack,
            },
            fatal: Some(
                ProcessError::UnexpectedPduType {
                    command_id: pdu.command_id,
                    sequence_number: seq,
                },
            ),
        },
    }
}

/// The response to bytes that did not parse: the status the codec
/// assigned, the sequence number if one was read (else 1), and, for a
/// bind_transmitter specifically, its error response body instead of a
/// generic_nack.  The connection dies after this response.
pub fn handle_parse_error(e: &ParseErrorData) -> (r: Response)
    ensures
        r.command_status == e.status,
        r.sequence_number == (match e.sequence_number {
            Some(s) => s,
            None => 1u32,
        }),
        e.command_id == Some(BIND_TRANSMITTER_ID) ==> {
            &&& r.body matches RespBody::BindResp { kind, system_id }
            &&& kind == BindKind::Transmitter
            &&& system_id is None
        },
        e.command_id != Some(BIND_TRANSMITTER_ID) ==> r.body is GenericNack,
{
    let seq: u32 = match e.sequence_number {
        Some(s) => s,
        None => 1,
    };
    let is_bind_transmitter: bool = match e.command_id {
        Some(cid) => cid == BIND_TRANSMITTER_ID,
        None => false,
    };
    if is_bind_transmitter {
        Response {
            command_status: e.status,
            sequence_number: seq,
            body: RespBody::BindResp { kind: BindKind::Transmitter, system_id: None },
        }
    } else {
        Response {
            command_status: e.status,
            sequence_number: seq,
            body: RespBody::GenericNack,
        }
    }
}

/// Unregister a connection from the hub on teardown: the entry of its
/// bound identity goes; an unbound connection was never registered.
/// This runs once on every exit path of a connection's processing loop.
pub fn teardown_connection<C>(smsc: &mut Smsc<C>, state: &BindState)
    requires
        old(smsc).wf(),
    ensures
        final(smsc).wf(),
        final(smsc)@.messages == old(smsc)@.messages,
        match state@ {
            Some(esme) => final(smsc)@.connections == old(smsc)@.connections.remove(esme),
            None => final(smsc)@.connections == old(smsc)@.connections,
        },
{
    match state.bound_esme_id() {
        Some(id) => smsc.remove_connection(id),
        None => (),
    }
}

} // verus!
