//! Identity and bind state of one ESME connection.

use vstd::prelude::*;

verus! {

/// Ghost image of an `EsmeId`: the characters of both fields.
pub ghost struct EsmeIdView {
    pub system_id: Seq<char>,
    pub system_type: Seq<char>,
}

/// What identifies an ESME in the routing hub: the pair of `system_id`
/// and `system_type` from its bind request.  Not unique across
/// reconnects; at the hub the last bind under a pair wins.
#[derive(Debug)]
pub struct EsmeId {
    pub system_id: String,
    pub system_type: String,
}

impl View for EsmeId {
    type V = EsmeIdView;

    open spec fn view(&self) -> EsmeIdView {
        EsmeIdView { system_id: self.system_id@, system_type: self.system_type@ }
    }
}

impl PartialEq for EsmeId {
    fn eq(&self, other: &EsmeId) -> (r: bool) {
        self.system_id == other.system_id && self.system_type == other.system_type
    }
}

impl vstd::std_specs::cmp::PartialEqSpecImpl for EsmeId {
    open spec fn obeys_eq_spec() -> bool {
        true
    }

    open spec fn eq_spec(&self, other: &EsmeId) -> bool {
        self@ == other@
    }
}

impl EsmeId {
    /// A fresh value with the same characters.
    pub fn duplicate(&self) -> (r: EsmeId)
        ensures
            r@ == self@,
    {
        EsmeId { system_id: self.system_id.clone(), system_type: self.system_type.clone() }
    }
}

/// The bind state of one connection.
///
/// Absent until the first successful bind; a later successful bind on
/// the same connection leaves it as it is.
pub struct BindState {
    bound_esme_id: Option<EsmeId>,
}

impl View for BindState {
    type V = Option<EsmeIdView>;

    closed spec fn view(&self) -> Option<EsmeIdView> {
        match self.bound_esme_id {
            Some(id) => Some(id@),
            None => None,
        }
    }
}

impl BindState {
    pub fn new() -> (r: BindState)
        ensures
            r@ is None,
    {
        BindState { bound_esme_id: None }
    }

    /// Record a successful bind; only the first one takes.
    pub fn bind(&mut self, esme_id: EsmeId)
        ensures
            old(self)@ is None ==> final(self)@ == Some(esme_id@),
            old(self)@ is Some ==> final(self)@ == old(self)@,
    {
        if self.bound_esme_id.is_none() {
            self.bound_esme_id = Some(esme_id);
        }
    }

    /// The identity this connection bound under, if any.
    pub fn bound_esme_id(&self) -> (r: Option<&EsmeId>)
        ensures
            match r {
                Some(id) => self@ == Some(id@),
                None => self@ is None,
            },
    {
        self.bound_esme_id.as_ref()
    }
}

} // verus!
