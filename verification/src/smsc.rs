//! The routing hub: which connection serves which ESME, and which ESME
//! an outstanding message came from.
//!
//! Both mappings are association lists with distinct keys, so that each
//! is abstractly a `Map`.  An operation walks its list, so it is linear
//! where a hash table would be constant-time; the keys are short
//! strings and the lists stay small, and in exchange every lookup and
//! update is proved exact.  The hub is generic in the connection handle
//! `C`; the surrounding server decides what a handle is and performs
//! the writes that the hub's answers call for.

use vstd::prelude::*;
use crate::connection::{EsmeId, EsmeIdView};
use crate::message_unique_key::{MessageUniqueKey, MessageUniqueKeyView};
use crate::pdu::{DeliverSmData, PduBody, PduModel};

verus! {

// ---------------------------------------------------------------------
// Association lists with distinct keys.
// ---------------------------------------------------------------------

/// A key of one of the hub's maps: viewable, and comparable by an
/// equality test that decides equality of the views.
pub(crate) trait MapKey: View + Sized {
    fn key_eq(&self, other: &Self) -> (r: bool)
        ensures
            r == (self@ == other@),
    ;
}

impl MapKey for EsmeId {
    fn key_eq(&self, other: &Self) -> (r: bool) {
        *self == *other
    }
}

impl MapKey for MessageUniqueKey {
    fn key_eq(&self, other: &Self) -> (r: bool) {
        *self == *other
    }
}

pub(crate) open spec fn alist_keys_distinct<K: View, V>(s: Seq<(K, V)>) -> bool {
    forall|i: int, j: int| 0 <= i < j < s.len() ==> s[i].0@ != s[j].0@
}

pub(crate) open spec fn alist_map<K: View, V>(s: Seq<(K, V)>) -> Map<K::V, V>
    decreases s.len(),
{
    if s.len() == 0 {
        Map::empty()
    } else {
        alist_map(s.drop_last()).insert(s.last().0@, s.last().1)
    }
}

proof fn lemma_alist_absent<K: View, V>(s: Seq<(K, V)>, k: K::V)
    requires
        forall|i: int| 0 <= i < s.len() ==> s[i].0@ != k,
    ensures
        !alist_map(s).contains_key(k),
    decreases s.len(),
{
    if s.len() > 0 {
        assert(forall|i: int| 0 <= i < s.drop_last().len() ==> s.drop_last()[i] == s[i]);
        lemma_alist_absent(s.drop_last(), k);
    }
}

proof fn lemma_alist_present<K: View, V>(s: Seq<(K, V)>, i: int)
    requires
        alist_keys_distinct(s),
        0 <= i < s.len(),
    ensures
        alist_map(s).contains_key(s[i].0@),
        alist_map(s)[s[i].0@] == s[i].1,
    decreases s.len(),
{
    if i == s.len() - 1 {
    } else {
        assert(forall|m: int| 0 <= m < s.drop_last().len() ==> s.drop_last()[m] == s[m]);
        lemma_alist_present(s.drop_last(), i);
        assert(s[i].0@ != s.last().0@);
    }
}

proof fn lemma_alist_remove_at<K: View, V>(s: Seq<(K, V)>, i: int)
    requires
        alist_keys_distinct(s),
        0 <= i < s.len(),
    ensures
        alist_keys_distinct(s.remove(i)),
        alist_map(s.remove(i)) == alist_map(s).remove(s[i].0@),
    decreases s.len(),
{
    let k = s[i].0@;
    if i == s.len() - 1 {
        assert(s.remove(i) =~= s.drop_last());
        assert(forall|m: int| 0 <= m < s.drop_last().len() ==> s.drop_last()[m] == s[m]);
        lemma_alist_absent(s.drop_last(), k);
        assert(alist_map(s.drop_last()) =~= alist_map(s.drop_last()).insert(k, s[i].1).remove(k));
    } else {
        let prefix = s.drop_last();
        assert(forall|m: int| 0 <= m < prefix.len() ==> prefix[m] == s[m]);
        lemma_alist_remove_at(prefix, i);
        assert(s.remove(i).drop_last() =~= prefix.remove(i));
        assert(s.remove(i).last() == s.last());
        assert forall|a: int, b: int| 0 <= a < b < s.remove(i).len() implies s.remove(i)[a].0@ != s.remove(
            i,
        )[b].0@ by {
            let sa = if a < i { a } else { a + 1 };
            let sb = if b < i { b } else { b + 1 };
            assert(s.remove(i)[a] == s[sa]);
            assert(s.remove(i)[b] == s[sb]);
        }
        assert(k != s.last().0@);
        assert(alist_map(s.remove(i)) == alist_map(prefix.remove(i)).insert(
            s.last().0@,
            s.last().1,
        ));
        assert(alist_map(prefix).remove(k).insert(s.last().0@, s.last().1) =~= alist_map(
            prefix,
        ).insert(s.last().0@, s.last().1).remove(k));
    }
}

pub(crate) struct AssocMap<K, V> {
    entries: Vec<(K, V)>,
}

impl<K: MapKey, V> AssocMap<K, V> {
    pub(crate) closed spec fn view(&self) -> Map<K::V, V> {
        alist_map(self.entries@)
    }

    pub(crate) closed spec fn wf(&self) -> bool {
        alist_keys_distinct(self.entries@)
    }

    pub(crate) fn new() -> (r: AssocMap<K, V>)
        ensures
            r.wf(),
            r.view() == Map::<K::V, V>::empty(),
    {
        AssocMap { entries: Vec::new() }
    }

    fn find_index(&self, key: &K) -> (r: Option<usize>)
        ensures
            match r {
                Some(i) => i < self.entries@.len() && self.entries@[i as int].0@ == key@,
                None => forall|i: int| 0 <= i < self.entries@.len() ==> self.entries@[i].0@ != key@,
            },
    {
        let mut i: usize = 0;
        while i < self.entries.len()
            invariant
                i <= self.entries@.len(),
                forall|j: int| 0 <= j < i ==> self.entries@[j].0@ != key@,
            decreases self.entries@.len() - i,
        {
            if self.entries[i].0.key_eq(key) {
                return Some(i);
            }
            i = i + 1;
        }
        None
    }

    pub(crate) fn insert(&mut self, key: K, value: V)
        requires
            old(self).wf(),
        ensures
            final(self).wf(),
            final(self).view() == old(self).view().insert(key@, value),
    {
        let ghost s0 = self.entries@;
        match self.find_index(&key) {
            Some(i) => {
                proof {
                    lemma_alist_remove_at(s0, i as int);
                }
                self.entries.remove(i);
                proof {
                    lemma_alist_absent(self.entries@, key@);
                }
            },
            None => {
                proof {
                    lemma_alist_absent(s0, key@);
                }
            },
        }
        let ghost s1 = self.entries@;
        self.entries.push((key, value));
        proof {
            assert(self.entries@.drop_last() =~= s1);
            assert(alist_map(self.entries@) == alist_map(s1).insert(key@, value));
            assert(alist_map(s1).insert(key@, value) =~= alist_map(s0).insert(key@, value));
            assert forall|a: int, b: int|
                0 <= a < b < self.entries@.len() implies self.entries@[a].0@
                != self.entries@[b].0@ by {
                if b == self.entries@.len() - 1 {
                    assert(s1[a].0@ != key@);
                }
            }
        }
    }

    pub(crate) fn remove(&mut self, key: &K)
        requires
            old(self).wf(),
        ensures
            final(self).wf(),
            final(self).view() == old(self).view().remove(key@),
    {
        match self.find_index(key) {
            Some(i) => {
                proof {
                    lemma_alist_remove_at(self.entries@, i as int);
                }
                self.entries.remove(i);
            },
            None => {
                proof {
                    lemma_alist_absent(self.entries@, key@);
                    assert(alist_map(self.entries@) =~= alist_map(self.entries@).remove(key@));
                }
            },
        }
    }

    pub(crate) fn get(&self, key: &K) -> (r: Option<&V>)
        requires
            self.wf(),
        ensures
            match r {
                Some(v) => self.view().contains_key(key@) && *v == self.view()[key@],
                None => !self.view().contains_key(key@),
            },
    {
        match self.find_index(key) {
            Some(i) => {
                proof {
                    lemma_alist_present(self.entries@, i as int);
                }
                Some(&self.entries[i].1)
            },
            None => {
                proof {
                    lemma_alist_absent(self.entries@, key@);
                }
                None
            },
        }
    }
}

// ---------------------------------------------------------------------
// The hub itself.
// ---------------------------------------------------------------------

/// Ghost image of the hub: its two mappings.
pub ghost struct SmscView<C> {
    pub connections: Map<EsmeIdView, C>,
    pub messages: Map<MessageUniqueKeyView, EsmeIdView>,
}

/// The message map, with each recorded identity taken to its view.
pub(crate) open spec fn by_view(m: Map<MessageUniqueKeyView, EsmeId>) -> Map<
    MessageUniqueKeyView,
    EsmeIdView,
> {
    m.map_values(|e: EsmeId| e@)
}

/// Why a delivery receipt found no connection to go to.
#[derive(Debug)]
pub enum RouteError {
    /// No record of a message under this key.
    NoSuchMessage { key: MessageUniqueKey },
    /// The message is recorded, but no connection is bound under its
    /// ESME identity.
    NoSuchConnection { esme_id: EsmeId },
}

/// Why an injected PDU was not routed.
#[derive(Debug)]
pub enum ReceivePduError {
    /// Only deliver_sm PDUs can be injected.
    UnexpectedPduType,
    /// The deliver_sm carries no receipted message id.
    MissingMessageId,
    /// No connection matched the receipt's key.
    RouteMiss(RouteError),
}

/// The key a delivery receipt refers to, ghost-level.
pub open spec fn spec_dr_key(namespace_id: Seq<char>, data: DeliverSmData) -> MessageUniqueKeyView
    recommends
        data.receipted_message_id is Some,
{
    MessageUniqueKeyView {
        namespace_id,
        message_id: data.receipted_message_id->0@,
        destination_addr: data.source_addr@,
    }
}

/// The routing hub.
pub struct Smsc<C> {
    connections: AssocMap<EsmeId, C>,
    messages: AssocMap<MessageUniqueKey, EsmeId>,
}

impl<C> View for Smsc<C> {
    type V = SmscView<C>;

    closed spec fn view(&self) -> SmscView<C> {
        SmscView {
            connections: self.connections.view(),
            messages: by_view(self.messages.view()),
        }
    }
}

impl<C> Smsc<C> {
    /// Both association lists keep their keys distinct.
    pub closed spec fn wf(&self) -> bool {
        &&& self.connections.wf()
        &&& self.messages.wf()
    }

    pub fn new() -> (r: Smsc<C>)
        ensures
            r.wf(),
            r@.connections == Map::<EsmeIdView, C>::empty(),
            r@.messages == Map::<MessageUniqueKeyView, EsmeIdView>::empty(),
    {
        let r = Smsc { connections: AssocMap::new(), messages: AssocMap::new() };
        proof {
            assert(r@.messages =~= Map::<MessageUniqueKeyView, EsmeIdView>::empty());
        }
        r
    }

    /// Register a connection under the identity it bound with; a second
    /// bind under the same identity replaces the first.
    pub fn add_connection(&mut self, esme_id: EsmeId, connection: C)
        requires
            old(self).wf(),
        ensures
            final(self).wf(),
            final(self)@.connections == old(self)@.connections.insert(esme_id@, connection),
            final(self)@.messages == old(self)@.messages,
    {
        self.connections.insert(esme_id, connection);
    }

    /// Drop the entry of this identity; messages stay recorded and will
    /// miss their route until the ESME binds again.
    pub fn remove_connection(&mut self, esme_id: &EsmeId)
        requires
            old(self).wf(),
        ensures
            final(self).wf(),
            final(self)@.connections == old(self)@.connections.remove(esme_id@),
            final(self)@.messages == old(self)@.messages,
    {
        self.connections.remove(esme_id);
    }

    /// Record which ESME an outstanding message came from.
    pub fn add_message(&mut self, key: MessageUniqueKey, esme_id: EsmeId)
        requires
            old(self).wf(),
        ensures
            final(self).wf(),
            final(self)@.messages == old(self)@.messages.insert(key@, esme_id@),
            final(self)@.connections == old(self)@.connections,
    {
        let ghost kv = key@;
        let ghost ev = esme_id;
        let ghost m0 = self.messages.view();
        self.messages.insert(key, esme_id);
        proof {
            assert(self.messages.view() == m0.insert(kv, ev));
            assert(by_view(m0.insert(kv, ev)) =~= by_view(m0).insert(kv, ev@));
        }
    }

    /// The connection a message's delivery receipt must go to: the one
    /// bound under the identity recorded with the message's key.
    pub fn connection_for_message(&self, key: &MessageUniqueKey) -> (r: Result<&C, RouteError>)
        requires
            self.wf(),
        ensures
            match r {
                Ok(c) => {
                    &&& self@.messages.contains_key(key@)
                    &&& self@.connections.contains_key(self@.messages[key@])
                    &&& *c == self@.connections[self@.messages[key@]]
                },
                Err(RouteError::NoSuchMessage { key: k }) => {
                    &&& !self@.messages.contains_key(key@)
                    &&& k@ == key@
                },
                Err(RouteError::NoSuchConnection { esme_id: e }) => {
                    &&& self@.messages.contains_key(key@)
                    &&& !self@.connections.contains_key(self@.messages[key@])
                    &&& e@ == self@.messages[key@]
                },
            },
    {
        match self.messages.get(key) {
            None => Err(RouteError::NoSuchMessage { key: key.duplicate() }),
            Some(esme_id) => match self.connections.get(esme_id) {
                None => Err(RouteError::NoSuchConnection { esme_id: esme_id.duplicate() }),
                Some(c) => Ok(c),
            },
        }
    }

    /// Take in a PDU pushed from outside (a delivery receipt a logic
    /// implementation or an upstream supplier injects) and answer which
    /// connection it must be written to.  Only a deliver_sm carrying a
    /// receipted message id can be routed; the key is built from it with
    /// the receipt's source_addr standing for the original
    /// destination_addr.
    pub fn receive_pdu(&self, namespace_id: &str, pdu: &PduModel) -> (r: Result<
        &C,
        ReceivePduError,
    >)
        requires
            self.wf(),
        ensures
            match r {
                Ok(c) => {
                    &&& pdu.body matches PduBody::DeliverSm { data }
                    &&& data.receipted_message_id is Some
                    &&& self@.messages.contains_key(spec_dr_key(namespace_id@, data))
                    &&& self@.connections.contains_key(
                        self@.messages[spec_dr_key(namespace_id@, data)],
                    )
                    &&& *c == self@.connections[self@.messages[spec_dr_key(namespace_id@, data)]]
                },
                Err(ReceivePduError::UnexpectedPduType) => !(pdu.body is DeliverSm),
                Err(ReceivePduError::MissingMessageId) => {
                    &&& pdu.body matches PduBody::DeliverSm { data }
                    &&& data.receipted_message_id is None
                },
                Err(ReceivePduError::RouteMiss(e)) => {
                    &&& pdu.body matches PduBody::DeliverSm { data }
                    &&& data.receipted_message_id is Some
                    &&& match e {
                        RouteError::NoSuchMessage { key: k } => {
                            &&& !self@.messages.contains_key(spec_dr_key(namespace_id@, data))
                            &&& k@ == spec_dr_key(namespace_id@, data)
                        },
                        RouteError::NoSuchConnection { esme_id: e2 } => {
                            &&& self@.messages.contains_key(spec_dr_key(namespace_id@, data))
                            &&& !self@.connections.contains_key(
                                self@.messages[spec_dr_key(namespace_id@, data)],
                            )
                            &&& e2@ == self@.messages[spec_dr_key(namespace_id@, data)]
                        },
                    }
                },
            },
    {
        match &pdu.body {
            PduBody::DeliverSm { data } => {
                match MessageUniqueKey::from_dr(namespace_id.to_owned(), data) {
                    None => Err(ReceivePduError::MissingMessageId),
                    Some(key) => match self.connection_for_message(&key) {
                        Ok(c) => Ok(c),
                        Err(e) => Err(ReceivePduError::RouteMiss(e)),
                    },
                }
            },
            _ => Err(ReceivePduError::UnexpectedPduType),
        }
    }
}

} // verus!
