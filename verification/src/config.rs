//! Server configuration.

use vstd::prelude::*;

verus! {

/// Settings of the SMSC server.
#[derive(Clone, Debug)]
pub struct SmscConfig {
    /// Address the TCP listener binds on.
    pub bind_address: String,
    /// Cap on concurrently open sockets; connections over it are dropped.
    pub max_open_sockets: usize,
    /// Identifier of this SMSC, echoed in the body of every successful
    /// bind response.  To fit that body's C-octet-string it must be
    /// ASCII and at most 15 octets; a longer one leaves the codec
    /// refusing to build the response.
    pub system_id: String,
}

} // verus!
