use smpp::codec::pdu_model;
use smpp::connection::EsmeId;
use smpp::message_unique_key::MessageUniqueKey;
use smpp::pdu::{DeliverSmData, PduBody, PduModel};
use smpp::smsc::{ReceivePduError, RouteError, Smsc};
use smpp_pdu::pdu::tlvs::Tlvs;
use smpp_pdu::pdu::{DeliverSmPdu, Pdu};

fn esme(system_id: &str, system_type: &str) -> EsmeId {
    EsmeId {
        system_id: String::from(system_id),
        system_type: String::from(system_type),
    }
}

fn key(namespace_id: &str, message_id: &str, destination_addr: &str) -> MessageUniqueKey {
    MessageUniqueKey::new(
        String::from(namespace_id),
        String::from(message_id),
        String::from(destination_addr),
    )
}

fn deliver_model(source_addr: &str, receipted_message_id: Option<&str>) -> PduModel {
    PduModel {
        command_id: 0x00000005,
        command_status: 0,
        sequence_number: 0x6d,
        body: PduBody::DeliverSm {
            data: DeliverSmData {
                source_addr: String::from(source_addr),
                receipted_message_id: receipted_message_id.map(String::from),
            },
        },
    }
}

#[test]
fn a_recorded_message_routes_to_the_connection_of_its_esme() {
    let mut smsc: Smsc<u32> = Smsc::new();
    smsc.add_connection(esme("client1", "t"), 11u32);
    smsc.add_message(key("ns", "m1", "447111222222"), esme("client1", "t"));
    let conn = smsc
        .receive_pdu("ns", &deliver_model("447111222222", Some("m1")))
        .unwrap();
    assert_eq!(*conn, 11u32);
}

#[test]
fn a_second_bind_under_the_same_identity_takes_over_the_route() {
    let mut smsc: Smsc<u32> = Smsc::new();
    smsc.add_connection(esme("client1", "t"), 11u32);
    smsc.add_message(key("ns", "m1", "447111222222"), esme("client1", "t"));
    smsc.add_connection(esme("client1", "t"), 12u32);
    let conn = smsc
        .receive_pdu("ns", &deliver_model("447111222222", Some("m1")))
        .unwrap();
    assert_eq!(*conn, 12u32);
}

#[test]
fn an_unrecorded_message_is_a_route_miss() {
    let mut smsc: Smsc<u32> = Smsc::new();
    smsc.add_connection(esme("client1", "t"), 11u32);
    match smsc.receive_pdu("ns", &deliver_model("447111222222", Some("m1"))) {
        Err(ReceivePduError::RouteMiss(RouteError::NoSuchMessage { key: k })) => {
            assert_eq!(k.namespace_id, "ns");
            assert_eq!(k.message_id, "m1");
            assert_eq!(k.destination_addr, "447111222222");
        }
        other => panic!("expected a missing-message route miss, got {:?}", other),
    }
}

#[test]
fn a_message_whose_esme_is_gone_is_a_route_miss() {
    let mut smsc: Smsc<u32> = Smsc::new();
    smsc.add_message(key("ns", "m1", "447111222222"), esme("client1", "t"));
    match smsc.receive_pdu("ns", &deliver_model("447111222222", Some("m1"))) {
        Err(ReceivePduError::RouteMiss(RouteError::NoSuchConnection { esme_id })) => {
            assert_eq!(esme_id.system_id, "client1");
            assert_eq!(esme_id.system_type, "t");
        }
        other => panic!("expected a missing-connection route miss, got {:?}", other),
    }
}

#[test]
fn namespaces_keep_equal_message_ids_apart() {
    let mut smsc: Smsc<u32> = Smsc::new();
    smsc.add_connection(esme("client1", "t"), 11u32);
    smsc.add_connection(esme("client2", "t"), 22u32);
    smsc.add_message(key("ns1", "m1", "447111222222"), esme("client1", "t"));
    smsc.add_message(key("ns2", "m1", "447111222222"), esme("client2", "t"));
    let model = deliver_model("447111222222", Some("m1"));
    assert_eq!(*smsc.receive_pdu("ns1", &model).unwrap(), 11u32);
    assert_eq!(*smsc.receive_pdu("ns2", &model).unwrap(), 22u32);
}

#[test]
fn only_a_deliver_sm_can_be_injected() {
    let smsc: Smsc<u32> = Smsc::new();
    let enquire = PduModel {
        command_id: 0x00000015,
        command_status: 0,
        sequence_number: 1,
        body: PduBody::EnquireLink,
    };
    assert!(matches!(
        smsc.receive_pdu("ns", &enquire),
        Err(ReceivePduError::UnexpectedPduType)
    ));
}

#[test]
fn a_receipt_without_a_message_id_cannot_be_routed() {
    let smsc: Smsc<u32> = Smsc::new();
    assert!(matches!(
        smsc.receive_pdu("ns", &deliver_model("447111222222", None)),
        Err(ReceivePduError::MissingMessageId)
    ));
}

#[test]
fn from_dr_takes_the_destination_from_the_receipts_source_addr() {
    let data = DeliverSmData {
        source_addr: String::from("447111222222"),
        receipted_message_id: Some(String::from("m1")),
    };
    let k = MessageUniqueKey::from_dr(String::from("ns"), &data).unwrap();
    assert_eq!(k.namespace_id, "ns");
    assert_eq!(k.message_id, "m1");
    assert_eq!(k.destination_addr, "447111222222");
    assert_eq!(k, key("ns", "m1", "447111222222"));
}

#[test]
fn from_dr_without_a_message_id_yields_nothing() {
    let data = DeliverSmData {
        source_addr: String::from("447111222222"),
        receipted_message_id: None,
    };
    assert!(MessageUniqueKey::from_dr(String::from("ns"), &data).is_none());
}

#[test]
fn the_codec_extracts_a_receipted_message_id_from_the_receipt_text() {
    let dr = Pdu::new(
        0x00,
        0x6d,
        DeliverSmPdu::new(
            "", 0, 0, "447777222222", 0, 0, "MyCompany", 0x04, 0x34, 1, "", "", 1, 0, 3, 0,
            b"id:ab87J submit date:2103301649", Tlvs::new(),
        )
        .unwrap()
        .into(),
    )
    .unwrap();
    match pdu_model(&dr).body {
        PduBody::DeliverSm { data } => {
            assert_eq!(data.source_addr, "447777222222");
            assert_eq!(data.receipted_message_id.as_deref(), Some("ab87J"));
        }
        other => panic!("expected deliver_sm, got {:?}", other),
    }
}
