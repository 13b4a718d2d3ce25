//! The key under which an outstanding message is recorded for routing.

use vstd::prelude::*;
use crate::pdu::DeliverSmData;

verus! {

/// Ghost image of a `MessageUniqueKey`: the characters of its fields.
pub ghost struct MessageUniqueKeyView {
    pub namespace_id: Seq<char>,
    pub message_id: Seq<char>,
    pub destination_addr: Seq<char>,
}

/// A way to identify a message based on the message id some remote
/// system assigned it.
#[derive(Debug)]
pub struct MessageUniqueKey {
    /// Which system generated `message_id`: a namespace that keeps ids
    /// of separate suppliers apart.
    pub namespace_id: String,
    /// The message id the external system provided.  It may not be very
    /// unique on its own, hence `destination_addr` as well.
    pub message_id: String,
    /// The destination_addr of the original MT.  In a delivery receipt
    /// the same number arrives as the source_addr (SMPP v3.4 section
    /// 2.11: a receipt's source address is the destination address of
    /// the message it reports on).
    pub destination_addr: String,
}

impl View for MessageUniqueKey {
    type V = MessageUniqueKeyView;

    open spec fn view(&self) -> MessageUniqueKeyView {
        MessageUniqueKeyView {
            namespace_id: self.namespace_id@,
            message_id: self.message_id@,
            destination_addr: self.destination_addr@,
        }
    }
}

impl PartialEq for MessageUniqueKey {
    fn eq(&self, other: &MessageUniqueKey) -> (r: bool) {
        self.namespace_id == other.namespace_id && self.message_id == other.message_id
            && self.destination_addr == other.destination_addr
    }
}

impl vstd::std_specs::cmp::PartialEqSpecImpl for MessageUniqueKey {
    open spec fn obeys_eq_spec() -> bool {
        true
    }

    open spec fn eq_spec(&self, other: &MessageUniqueKey) -> bool {
        self@ == other@
    }
}

impl MessageUniqueKey {
    pub fn new(namespace_id: String, message_id: String, destination_addr: String) -> (r:
        MessageUniqueKey)
        ensures
            r@.namespace_id == namespace_id@,
            r@.message_id == message_id@,
            r@.destination_addr == destination_addr@,
    {
        MessageUniqueKey { namespace_id, message_id, destination_addr }
    }

    /// The key a delivery receipt refers to: its receipted message id
    /// under the supplier's namespace, with the receipt's source_addr
    /// standing for the original destination_addr.  `None` exactly when
    /// the receipt carries no message id.
    pub fn from_dr(namespace_id: String, pdu: &DeliverSmData) -> (r: Option<MessageUniqueKey>)
        ensures
            match r {
                Some(k) => {
                    &&& pdu.receipted_message_id matches Some(mid)
                    &&& k@.namespace_id == namespace_id@
                    &&& k@.message_id == mid@
                    &&& k@.destination_addr == pdu.source_addr@
                },
                None => pdu.receipted_message_id is None,
            },
    {
        match &pdu.receipted_message_id {
            Some(mid) => Some(
                MessageUniqueKey {
                    namespace_id,
                    message_id: mid.clone(),
                    destination_addr: pdu.source_addr.clone(),
                },
            ),
            None => None,
        }
    }

    /// A fresh value with the same characters.
    pub fn duplicate(&self) -> (r: MessageUniqueKey)
        ensures
            r@ == self@,
    {
        MessageUniqueKey {
            namespace_id: self.namespace_id.clone(),
            message_id: self.message_id.clone(),
            destination_addr: self.destination_addr.clone(),
        }
    }
}

} // verus!
