//! Models of the SMPP PDUs that the server core recognises.
//!
//! The wire codec lives in an outside crate; the core works on these
//! plain-value models instead, so every decision the server takes about
//! a PDU is made by verified code.

use vstd::prelude::*;

verus! {

// Command ids of the PDUs the core serves (SMPP v3.4 section 5.1.2.1).
pub const BIND_RECEIVER_ID: u32 = 0x00000001;
pub const BIND_TRANSMITTER_ID: u32 = 0x00000002;
pub const SUBMIT_SM_ID: u32 = 0x00000004;
pub const DELIVER_SM_ID: u32 = 0x00000005;
pub const BIND_TRANSCEIVER_ID: u32 = 0x00000009;
pub const ENQUIRE_LINK_ID: u32 = 0x00000015;
pub const GENERIC_NACK_ID: u32 = 0x80000000;
pub const BIND_RECEIVER_RESP_ID: u32 = 0x80000001;
pub const BIND_TRANSMITTER_RESP_ID: u32 = 0x80000002;
pub const SUBMIT_SM_RESP_ID: u32 = 0x80000004;
pub const BIND_TRANSCEIVER_RESP_ID: u32 = 0x80000009;
pub const ENQUIRE_LINK_RESP_ID: u32 = 0x80000015;

// Command statuses the core emits (SMPP v3.4 section 5.1.3).
pub const ESME_ROK: u32 = 0x00000000;
pub const ESME_RINVCMDLEN: u32 = 0x00000002;
pub const ESME_RINVCMDID: u32 = 0x00000003;
pub const ESME_RSYSERR: u32 = 0x00000008;
pub const ESME_RINVPASWD: u32 = 0x0000000E;

/// The three bind modes an ESME may request.
#[derive(Clone, Copy, Debug, PartialEq, Eq, Structural)]
pub enum BindKind {
    Receiver,
    Transmitter,
    Transceiver,
}

impl BindKind {
    /// Command id of the bind request in this mode.
    pub open spec fn spec_request_id(self) -> u32 {
        match self {
            BindKind::Receiver => BIND_RECEIVER_ID,
            BindKind::Transmitter => BIND_TRANSMITTER_ID,
            BindKind::Transceiver => BIND_TRANSCEIVER_ID,
        }
    }

    /// Command id of the matching bind response.
    pub open spec fn spec_resp_id(self) -> u32 {
        match self {
            BindKind::Receiver => BIND_RECEIVER_RESP_ID,
            BindKind::Transmitter => BIND_TRANSMITTER_RESP_ID,
            BindKind::Transceiver => BIND_TRANSCEIVER_RESP_ID,
        }
    }

    pub fn request_id(self) -> (r: u32)
        ensures
            r == self.spec_request_id(),
    {
        match self {
            BindKind::Receiver => BIND_RECEIVER_ID,
            BindKind::Transmitter => BIND_TRANSMITTER_ID,
            BindKind::Transceiver => BIND_TRANSCEIVER_ID,
        }
    }

    pub fn resp_id(self) -> (r: u32)
        ensures
            r == self.spec_resp_id(),
    {
        match self {
            BindKind::Receiver => BIND_RECEIVER_RESP_ID,
            BindKind::Transmitter => BIND_TRANSMITTER_RESP_ID,
            BindKind::Transceiver => BIND_TRANSCEIVER_RESP_ID,
        }
    }
}

/// The fields of a bind request body, as plain values.
#[derive(Debug)]
pub struct BindRequestData {
    pub system_id: String,
    pub password: String,
    pub system_type: String,
    pub interface_version: u8,
    pub addr_ton: u8,
    pub addr_npi: u8,
    pub address_range: String,
}

/// The fields of a submit_sm body that the core and its logic seam read.
#[derive(Debug)]
pub struct SubmitSmData {
    pub source_addr_ton: u8,
    pub source_addr_npi: u8,
    pub source_addr: String,
    pub dest_addr_ton: u8,
    pub dest_addr_npi: u8,
    pub destination_addr: String,
    pub short_message: Vec<u8>,
}

/// The fields of a deliver_sm body that the routing hub reads.
///
/// `receipted_message_id` is the message id the delivery receipt refers
/// to, extracted by the codec from the receipted_message_id TLV or from
/// the `id:` marker of the receipt text.
#[derive(Debug)]
pub struct DeliverSmData {
    pub source_addr: String,
    pub receipted_message_id: Option<String>,
}

/// What the logic seam answers to an accepted submit_sm: the message id
/// it assigned, carried back to the ESME in the response body.
#[derive(Debug)]
pub struct SubmitSmResp {
    pub message_id: String,
}

/// Body of an inbound PDU, by the kinds the core dispatches on.
///
/// Every kind the server does not serve, the `*_resp` forms and
/// generic_nack included, is `Other`.
#[derive(Debug)]
pub enum PduBody {
    Bind { kind: BindKind, data: BindRequestData },
    EnquireLink,
    SubmitSm { data: SubmitSmData },
    DeliverSm { data: DeliverSmData },
    Other,
}

/// An inbound PDU as the core sees it.
#[derive(Debug)]
pub struct PduModel {
    pub command_id: u32,
    pub command_status: u32,
    pub sequence_number: u32,
    pub body: PduBody,
}

/// Body of a response the server writes.
///
/// A `None` in `system_id` or `message_id` is the error form of the
/// body, which carries no fields on the wire.
#[derive(Debug)]
pub enum RespBody {
    BindResp { kind: BindKind, system_id: Option<String> },
    EnquireLinkResp,
    SubmitSmResp { message_id: Option<String> },
    GenericNack,
}

/// A response PDU as the core builds it.
#[derive(Debug)]
pub struct Response {
    pub command_status: u32,
    pub sequence_number: u32,
    pub body: RespBody,
}

impl Response {
    /// Command id implied by the body kind.
    pub open spec fn spec_command_id(&self) -> u32 {
        match self.body {
            RespBody::BindResp { kind, .. } => kind.spec_resp_id(),
            RespBody::EnquireLinkResp => ENQUIRE_LINK_RESP_ID,
            RespBody::SubmitSmResp { .. } => SUBMIT_SM_RESP_ID,
            RespBody::GenericNack => GENERIC_NACK_ID,
        }
    }

    pub fn command_id(&self) -> (r: u32)
        ensures
            r == self.spec_command_id(),
    {
        match &self.body {
            RespBody::BindResp { kind, .. } => kind.resp_id(),
            RespBody::EnquireLinkResp => ENQUIRE_LINK_RESP_ID,
            RespBody::SubmitSmResp { .. } => SUBMIT_SM_RESP_ID,
            RespBody::GenericNack => GENERIC_NACK_ID,
        }
    }
}

/// A successful bind response: matching kind, status ESME_ROK, echoed
/// sequence number, body carrying the server's system_id.
pub open spec fn is_bind_resp_ok(r: Response, kind: BindKind, seq: u32, system_id: Seq<char>) -> bool {
    &&& r.command_status == ESME_ROK
    &&& r.sequence_number == seq
    &&& r.body matches RespBody::BindResp { kind: k, system_id: s }
    &&& k == kind
    &&& s matches Some(sid)
    &&& sid@ == system_id
}

/// A failed bind response: matching kind, the given non-zero status,
/// echoed sequence number, error body without fields.
pub open spec fn is_bind_resp_err(r: Response, kind: BindKind, seq: u32, status: u32) -> bool {
    &&& r.command_status == status
    &&& r.sequence_number == seq
    &&& r.body matches RespBody::BindResp { kind: k, system_id: s }
    &&& k == kind
    &&& s is None
}

/// The enquire_link response: status ESME_ROK, echoed sequence number.
pub open spec fn is_enquire_link_resp(r: Response, seq: u32) -> bool {
    &&& r.command_status == ESME_ROK
    &&& r.sequence_number == seq
    &&& r.body is EnquireLinkResp
}

/// A successful submit_sm response carrying the message id the logic
/// assigned.
pub open spec fn is_submit_sm_resp_ok(r: Response, seq: u32, message_id: Seq<char>) -> bool {
    &&& r.command_status == ESME_ROK
    &&& r.sequence_number == seq
    &&& r.body matches RespBody::SubmitSmResp { message_id: m }
    &&& m matches Some(mid)
    &&& mid@ == message_id
}

/// A failed submit_sm response: the given status, error body.
pub open spec fn is_submit_sm_resp_err(r: Response, seq: u32, status: u32) -> bool {
    &&& r.command_status == status
    &&& r.sequence_number == seq
    &&& r.body matches RespBody::SubmitSmResp { message_id: m }
    &&& m is None
}

/// A generic_nack with the given status and sequence number.
pub open spec fn is_generic_nack(r: Response, seq: u32, status: u32) -> bool {
    &&& r.command_status == status
    &&& r.sequence_number == seq
    &&& r.body is GenericNack
}

} // verus!
