use smpp::codec::{parse_frame_model, response_pdu};
use smpp::config::SmscConfig;
use smpp::connection::BindState;
use smpp::errors::{BindError, SubmitSmError};
use smpp::frame::{FrameReader, FrameStep};
use smpp::message_unique_key::MessageUniqueKey;
use smpp::pdu::{PduModel, SubmitSmData, SubmitSmResp};
use smpp::processor::{handle_pdu, SmscLogic};
use smpp::smsc::Smsc;

fn pdu_bytes(p: &smpp_pdu::pdu::Pdu) -> Vec<u8> {
    let mut buf: Vec<u8> = Vec::new();
    futures::executor::block_on(p.write(&mut buf)).unwrap();
    buf
}

fn test_config() -> SmscConfig {
    SmscConfig {
        bind_address: String::from("0.0.0.0:8080"),
        max_open_sockets: 100,
        system_id: String::from("TestServer"),
    }
}

fn parse_one(input: &[u8]) -> PduModel {
    let mut reader = FrameReader::new();
    reader.push_bytes(input);
    match reader.next_frame() {
        FrameStep::Frame(f) => parse_frame_model(&f).unwrap(),
        other => panic!("expected a whole frame, got {:?}", other),
    }
}

struct AcceptAll;

impl SmscLogic for AcceptAll {
    fn bind(&mut self, _bind_data: &smpp::pdu::BindRequestData) -> Result<(), BindError> {
        Ok(())
    }

    fn submit_sm(
        &mut self,
        _pdu: &SubmitSmData,
        _sequence_number: u32,
    ) -> Result<(SubmitSmResp, MessageUniqueKey), SubmitSmError> {
        panic!("submit_sm not implemented")
    }
}

struct RejectPassword;

impl SmscLogic for RejectPassword {
    fn bind(&mut self, _bind_data: &smpp::pdu::BindRequestData) -> Result<(), BindError> {
        Err(BindError::IncorrectPassword)
    }

    fn submit_sm(
        &mut self,
        _pdu: &SubmitSmData,
        _sequence_number: u32,
    ) -> Result<(SubmitSmResp, MessageUniqueKey), SubmitSmError> {
        panic!("submit_sm not implemented")
    }
}

fn respond(input: &[u8], logic: &mut dyn FnMut(&PduModel) -> smpp::processor::HandleOutcome) -> Vec<u8> {
    let model = parse_one(input);
    let outcome = logic(&model);
    pdu_bytes(&response_pdu(&outcome.response).unwrap())
}

const BIND_TRANSMITTER: &[u8] =
    b"\x00\x00\x00\x29\x00\x00\x00\x02\x00\x00\x00\x00\x00\x00\x00\x02esmeid\0password\0type\0\x34\x00\x00\0";

fn bind_request_bytes(command_id: u32, sequence_number: u32) -> Vec<u8> {
    let mut bytes = BIND_TRANSMITTER.to_vec();
    bytes[4..8].copy_from_slice(&command_id.to_be_bytes());
    bytes[12..16].copy_from_slice(&sequence_number.to_be_bytes());
    bytes
}

#[test]
fn when_we_receive_bind_transmitter_we_respond_with_resp() {
    let mut state = BindState::new();
    let mut smsc: Smsc<u32> = Smsc::new();
    let resp = respond(BIND_TRANSMITTER, &mut |model| {
        handle_pdu(model, &mut state, 7u32, &test_config(), &mut AcceptAll, &mut smsc)
    });
    assert_eq!(
        resp,
        b"\x00\x00\x00\x1b\x80\x00\x00\x02\x00\x00\x00\x00\x00\x00\x00\x02TestServer\0"
    );
    assert_eq!(state.bound_esme_id().unwrap().system_id, "esmeid");
    assert_eq!(state.bound_esme_id().unwrap().system_type, "type");
}

#[test]
fn when_we_receive_bind_receiver_we_respond_with_resp() {
    let mut state = BindState::new();
    let mut smsc: Smsc<u32> = Smsc::new();
    let resp = respond(&bind_request_bytes(0x00000001, 2), &mut |model| {
        handle_pdu(model, &mut state, 7u32, &test_config(), &mut AcceptAll, &mut smsc)
    });
    assert_eq!(
        resp,
        b"\x00\x00\x00\x1b\x80\x00\x00\x01\x00\x00\x00\x00\x00\x00\x00\x02TestServer\0"
    );
}

#[test]
fn when_we_receive_bind_transceiver_we_respond_with_resp() {
    let mut state = BindState::new();
    let mut smsc: Smsc<u32> = Smsc::new();
    let resp = respond(&bind_request_bytes(0x00000009, 2), &mut |model| {
        handle_pdu(model, &mut state, 7u32, &test_config(), &mut AcceptAll, &mut smsc)
    });
    assert_eq!(
        resp,
        b"\x00\x00\x00\x1b\x80\x00\x00\x09\x00\x00\x00\x00\x00\x00\x00\x02TestServer\0"
    );
}

#[test]
fn when_we_bind_with_incorrect_password_we_receive_error() {
    let expectations: [(u32, &[u8]); 3] = [
        (
            0x00000009,
            b"\x00\x00\x00\x10\x80\x00\x00\x09\x00\x00\x00\x0e\x00\x00\x00\x06",
        ),
        (
            0x00000001,
            b"\x00\x00\x00\x10\x80\x00\x00\x01\x00\x00\x00\x0e\x00\x00\x00\x06",
        ),
        (
            0x00000002,
            b"\x00\x00\x00\x10\x80\x00\x00\x02\x00\x00\x00\x0e\x00\x00\x00\x06",
        ),
    ];
    for (command_id, expected) in expectations {
        let mut state = BindState::new();
        let mut smsc: Smsc<u32> = Smsc::new();
        let resp = respond(&bind_request_bytes(command_id, 6), &mut |model| {
            handle_pdu(model, &mut state, 7u32, &test_config(), &mut RejectPassword, &mut smsc)
        });
        assert_eq!(resp, expected);
        // The refused connection is neither bound nor registered.
        assert!(state.bound_esme_id().is_none());
    }
}

#[test]
fn when_we_receive_enquire_link_we_respond_with_resp() {
    let mut state = BindState::new();
    let mut smsc: Smsc<u32> = Smsc::new();
    let resp = respond(
        b"\x00\x00\x00\x10\x00\x00\x00\x15\x00\x00\x00\x00\x00\x00\x00\x12",
        &mut |model| {
            handle_pdu(model, &mut state, 7u32, &test_config(), &mut AcceptAll, &mut smsc)
        },
    );
    assert_eq!(
        resp,
        b"\x00\x00\x00\x10\x80\x00\x00\x15\x00\x00\x00\x00\x00\x00\x00\x12"
    );
}

#[test]
fn when_we_receive_wrong_type_of_pdu_we_respond_generic_nack() {
    // A bind_transmitter_resp arriving at the server goes the wrong way.
    let mut input: Vec<u8> =
        b"\x00\x00\x00\x1b\x80\x00\x00\x02\x00\x00\x00\x00\x00\x00\x00\x02".to_vec();
    input.extend(b"TestServer\0");
    let mut state = BindState::new();
    let mut smsc: Smsc<u32> = Smsc::new();
    let model = parse_one(&input);
    let outcome = handle_pdu(&model, &mut state, 7u32, &test_config(), &mut AcceptAll, &mut smsc);
    assert_eq!(
        pdu_bytes(&response_pdu(&outcome.response).unwrap()),
        b"\x00\x00\x00\x10\x80\x00\x00\x00\x00\x00\x00\x03\x00\x00\x00\x02"
    );
    assert!(matches!(
        outcome.fatal,
        Some(smpp::errors::ProcessError::UnexpectedPduType {
            command_id: 0x80000002,
            sequence_number: 2,
        })
    ));
}

#[test]
fn pipelined_pdus_are_answered_in_arrival_order() {
    let mut input: Vec<u8> =
        b"\x00\x00\x00\x10\x00\x00\x00\x15\x00\x00\x00\x00\x00\x00\x00\x12".to_vec();
    input.extend(b"\x00\x00\x00\x10\x00\x00\x00\x15\x00\x00\x00\x00\x00\x00\x00\x13");
    let mut reader = FrameReader::new();
    reader.push_bytes(&input);
    let mut state = BindState::new();
    let mut smsc: Smsc<u32> = Smsc::new();
    for expected_seq in [0x12u32, 0x13u32] {
        let frame = match reader.next_frame() {
            FrameStep::Frame(f) => f,
            other => panic!("expected a whole frame, got {:?}", other),
        };
        let model = parse_frame_model(&frame).unwrap();
        let outcome =
            handle_pdu(&model, &mut state, 7u32, &test_config(), &mut AcceptAll, &mut smsc);
        assert_eq!(outcome.response.sequence_number, expected_seq);
    }
    assert!(matches!(reader.next_frame(), FrameStep::NeedMore));
}

#[test]
fn bind_error_statuses_follow_the_smpp_mapping() {
    assert_eq!(BindError::IncorrectPassword.command_status(), 0x0000000e);
    assert_eq!(BindError::InternalError.command_status(), 0x00000008);
    assert_eq!(SubmitSmError::InternalError.command_status(), 0x00000008);
}
