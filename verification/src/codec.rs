//! The seam to the PDU codec.
//!
//! The smpp_pdu crate defines every PDU body, parses a framed byte
//! sequence into one and serialises responses.  That work stays outside;
//! this module declares the codec's types, wraps the calls the core
//! makes, and converts between codec values and the plain models of
//! `pdu`.  Everything below a wrapper is the codec's to get right; what
//! the core decides about the resulting models is verified.

use vstd::prelude::*;
use crate::errors::ParseErrorData;
use crate::frame::spec_frame_check;
use crate::pdu::{
    BindRequestData, BindKind, DeliverSmData, PduBody, PduModel, RespBody, Response, SubmitSmData,
    ENQUIRE_LINK_ID,
};

verus! {

#[verifier::external_type_specification]
#[verifier::external_body]
pub struct ExPdu(smpp_pdu::pdu::Pdu);

#[verifier::external_type_specification]
#[verifier::external_body]
pub struct ExPduParseError(smpp_pdu::pdu::PduParseError);

#[verifier::external_type_specification]
#[verifier::external_body]
pub struct ExBindData(smpp_pdu::pdu::data::bind_data::BindData);

/// Relies on smpp_pdu's Pdu::parse: decodes one whole frame, or reports
/// why it could not.  Only a frame the framing rule accepts may come
/// in: Pdu::parse subtracts 4 from the declared length before it
/// validates the length, so on a declared length below 4 that
/// arithmetic underflows.  On accepted frames it does not panic: the
/// body dispatch of Pdu::parse has an arm for each command id it can
/// decode and answers every other id, an inbound generic_nack included,
/// with its unknown-command error, so the codec's unimplemented
/// generic_nack body parse is never reached from here.
#[verifier::external_body]
fn parse_frame(frame: &[u8]) -> (r: Result<smpp_pdu::pdu::Pdu, smpp_pdu::pdu::PduParseError>)
    requires
        spec_frame_check(frame@) is Ready,
{
    let mut cursor = std::io::Cursor::new(frame);
    smpp_pdu::pdu::Pdu::parse(&mut cursor)
}

/// Relies on smpp_pdu's PduParseError: its header fields, read when the
/// codec got far enough, and its mapping of the failure to an SMPP
/// command_status.
#[verifier::external_body]
fn parse_error_data(e: &smpp_pdu::pdu::PduParseError) -> (r: ParseErrorData) {
    ParseErrorData {
        command_id: e.command_id,
        sequence_number: e.sequence_number,
        status: e.status(),
    }
}

/// Relies on smpp_pdu's Pdu: command_id is derived from the body
/// variant; status and sequence number are header fields.
#[verifier::external_body]
fn pdu_header(p: &smpp_pdu::pdu::Pdu) -> (r: (u32, u32, u32)) {
    (p.command_id().value, p.command_status.value, p.sequence_number.value)
}

/// Relies on smpp_pdu's PduBody: the three bind request variants carry
/// the bind fields.
#[verifier::external_body]
fn pdu_bind_part<'a>(p: &'a smpp_pdu::pdu::Pdu) -> (r: Option<
    (BindKind, &'a smpp_pdu::pdu::data::bind_data::BindData),
>) {
    match p.body() {
        smpp_pdu::pdu::PduBody::BindReceiver(b) => Some((BindKind::Receiver, b.bind_data())),
        smpp_pdu::pdu::PduBody::BindTransmitter(b) => Some((BindKind::Transmitter, b.bind_data())),
        smpp_pdu::pdu::PduBody::BindTransceiver(b) => Some((BindKind::Transceiver, b.bind_data())),
        _ => None,
    }
}

/// Relies on smpp_pdu's BindData: its C-octet-string and integer fields.
#[verifier::external_body]
fn bind_data_model(b: &smpp_pdu::pdu::data::bind_data::BindData) -> (r: BindRequestData) {
    BindRequestData {
        system_id: b.system_id.value.to_string(),
        password: b.password.value.to_string(),
        system_type: b.system_type.value.to_string(),
        interface_version: b.interface_version.value,
        addr_ton: b.addr_ton.value,
        addr_npi: b.addr_npi.value,
        address_range: b.address_range.value.to_string(),
    }
}

/// Relies on smpp_pdu's SubmitSmPdu: its address getters and the
/// short_message octets.
#[verifier::external_body]
fn pdu_submit_part(p: &smpp_pdu::pdu::Pdu) -> (r: Option<SubmitSmData>) {
    match p.body() {
        smpp_pdu::pdu::PduBody::SubmitSm(b) => Some(
            SubmitSmData {
                source_addr_ton: b.source_addr_ton(),
                source_addr_npi: b.source_addr_npi(),
                source_addr: b.source_addr(),
                dest_addr_ton: b.dest_addr_ton(),
                dest_addr_npi: b.dest_addr_npi(),
                destination_addr: b.destination_addr(),
                short_message: b.0.short_message.value.clone(),
            },
        ),
        _ => None,
    }
}

/// Relies on smpp_pdu's DeliverSmPdu: its source_addr and
/// extract_receipted_message_id, which reads the receipted_message_id
/// TLV or the `id:` marker of the receipt text.
#[verifier::external_body]
fn pdu_deliver_part(p: &smpp_pdu::pdu::Pdu) -> (r: Option<DeliverSmData>) {
    match p.body() {
        smpp_pdu::pdu::PduBody::DeliverSm(b) => Some(
            DeliverSmData {
                source_addr: b.source_addr(),
                receipted_message_id: b.extract_receipted_message_id(),
            },
        ),
        _ => None,
    }
}

/// The plain model of a decoded PDU: header fields, and the body fields
/// of the kinds the core serves.
pub fn pdu_model(p: &smpp_pdu::pdu::Pdu) -> (r: PduModel)
    ensures
        r.body is EnquireLink ==> r.command_id == ENQUIRE_LINK_ID,
{
    let (command_id, command_status, sequence_number) = pdu_header(p);
    let body = match pdu_bind_part(p) {
        Some((kind, b)) => PduBody::Bind { kind, data: bind_data_model(b) },
        None => match pdu_submit_part(p) {
            Some(data) => PduBody::SubmitSm { data },
            None => match pdu_deliver_part(p) {
                Some(data) => PduBody::DeliverSm { data },
                None => if command_id == ENQUIRE_LINK_ID {
                    PduBody::EnquireLink
                } else {
                    PduBody::Other
                },
            },
        },
    };
    PduModel { command_id, command_status, sequence_number, body }
}

/// Decode one frame into its model, or into the codec's account of why
/// it does not parse.
///
/// The frame must be one the framing rule accepts, as `FrameReader`
/// hands them out; an unverified caller tests that with `check_frame`
/// first.
pub fn parse_frame_model(frame: &[u8]) -> Result<PduModel, ParseErrorData>
    requires
        spec_frame_check(frame@) is Ready,
{
    match parse_frame(frame) {
        Ok(p) => Ok(pdu_model(&p)),
        Err(e) => Err(parse_error_data(&e)),
    }
}

/// Relies on smpp_pdu's bind response constructors and Pdu::new.  `None`
/// comes only of a system_id that does not fit the body's
/// C-octet-string, or header fields the codec refuses.
#[verifier::external_body]
fn bind_resp_pdu(kind: BindKind, status: u32, seq: u32, system_id: Option<&str>) -> (r: Option<
    smpp_pdu::pdu::Pdu,
>) {
    let body: smpp_pdu::pdu::PduBody = match (kind, system_id) {
        (BindKind::Receiver, Some(s)) => smpp_pdu::pdu::BindReceiverRespPdu::new(s).ok()?.into(),
        (BindKind::Receiver, None) => smpp_pdu::pdu::BindReceiverRespPdu::new_error().into(),
        (BindKind::Transmitter, Some(s)) => smpp_pdu::pdu::BindTransmitterRespPdu::new(s).ok()?.into(),
        (BindKind::Transmitter, None) => smpp_pdu::pdu::BindTransmitterRespPdu::new_error().into(),
        (BindKind::Transceiver, Some(s)) => smpp_pdu::pdu::BindTransceiverRespPdu::new(s).ok()?.into(),
        (BindKind::Transceiver, None) => smpp_pdu::pdu::BindTransceiverRespPdu::new_error().into(),
    };
    smpp_pdu::pdu::Pdu::new(status, seq, body).ok()
}

/// Relies on smpp_pdu's EnquireLinkRespPdu and Pdu::new.
#[verifier::external_body]
fn enquire_link_resp_pdu(status: u32, seq: u32) -> (r: Option<smpp_pdu::pdu::Pdu>) {
    smpp_pdu::pdu::Pdu::new(status, seq, smpp_pdu::pdu::EnquireLinkRespPdu::new().into()).ok()
}

/// Relies on smpp_pdu's SubmitSmRespPdu and Pdu::new.
#[verifier::external_body]
fn submit_sm_resp_pdu(status: u32, seq: u32, message_id: Option<&str>) -> (r: Option<
    smpp_pdu::pdu::Pdu,
>) {
    let body: smpp_pdu::pdu::PduBody = match message_id {
        Some(m) => smpp_pdu::pdu::SubmitSmRespPdu::new(m).ok()?.into(),
        None => smpp_pdu::pdu::SubmitSmRespPdu::new_error().into(),
    };
    smpp_pdu::pdu::Pdu::new(status, seq, body).ok()
}

/// Relies on smpp_pdu's GenericNackPdu and Pdu::new.
#[verifier::external_body]
fn generic_nack_pdu(status: u32, seq: u32) -> (r: Option<smpp_pdu::pdu::Pdu>) {
    smpp_pdu::pdu::Pdu::new(status, seq, smpp_pdu::pdu::GenericNackPdu::new_error().into()).ok()
}

/// Build the codec PDU that a response model stands for, ready to be
/// serialised onto the wire.  `None` comes only of field values the
/// codec refuses, such as a sequence number of zero.
pub fn response_pdu(r: &Response) -> Option<smpp_pdu::pdu::Pdu> {
    match &r.body {
        RespBody::BindResp { kind, system_id } => bind_resp_pdu(
            *kind,
            r.command_status,
            r.sequence_number,
            match system_id {
                Some(s) => Some(s.as_str()),
                None => None,
            },
        ),
        RespBody::EnquireLinkResp => enquire_link_resp_pdu(r.command_status, r.sequence_number),
        RespBody::SubmitSmResp { message_id } => submit_sm_resp_pdu(
            r.command_status,
            r.sequence_number,
            match message_id {
                Some(m) => Some(m.as_str()),
                None => None,
            },
        ),
        RespBody::GenericNack => generic_nack_pdu(r.command_status, r.sequence_number),
    }
}

} // verus!
