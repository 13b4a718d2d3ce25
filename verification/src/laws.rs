//! Laws of the routing hub that span several operations.
//!
//! Each proof function here states, over the hub's ghost image, a
//! guarantee that follows from the contracts of the operations it
//! names; together with those contracts it holds of every execution.

use vstd::prelude::*;
use crate::connection::EsmeIdView;
use crate::message_unique_key::MessageUniqueKeyView;
use crate::smsc::SmscView;

verus! {

/// A delivery receipt goes only to the connection recorded for its
/// message: once `add_message` has recorded `key` under `esme` and
/// `add_connection` has registered `conn` under `esme`, the route of
/// `key` is exactly `conn` — whatever the hub held before.
pub proof fn law_record_then_route<C>(
    v: SmscView<C>,
    key: MessageUniqueKeyView,
    esme: EsmeIdView,
    conn: C,
)
    ensures
        ({
            let after = SmscView {
                connections: v.connections.insert(esme, conn),
                messages: v.messages.insert(key, esme),
            };
            &&& after.messages.contains_key(key)
            &&& after.connections.contains_key(after.messages[key])
            &&& after.connections[after.messages[key]] == conn
        }),
{
}

/// Distinct recorded keys route independently: recording one message
/// leaves the route of every other key as it was.
pub proof fn law_record_preserves_other_routes<C>(
    v: SmscView<C>,
    key: MessageUniqueKeyView,
    other: MessageUniqueKeyView,
    esme: EsmeIdView,
)
    requires
        key != other,
    ensures
        v.messages.insert(key, esme).contains_key(other) == v.messages.contains_key(other),
        v.messages.contains_key(other) ==> v.messages.insert(key, esme)[other]
            == v.messages[other],
{
}

/// After a connection is torn down, no connection is registered under
/// its identity any more: a receipt for one of its messages misses its
/// route instead of going elsewhere.
pub proof fn law_teardown_unregisters<C>(v: SmscView<C>, esme: EsmeIdView)
    ensures
        !v.connections.remove(esme).contains_key(esme),
{
}

/// A second bind under the same identity replaces the first at the hub:
/// the receipts of both connections' messages go to the connection of
/// the last bind.
pub proof fn law_last_bind_wins<C>(v: SmscView<C>, esme: EsmeIdView, first: C, second: C)
    ensures
        v.connections.insert(esme, first).insert(esme, second)[esme] == second,
{
}

} // verus!
