//! The realtime channel's connection registry: connections keyed by
//! their id, insertion replacing any prior connection with the same id.
//! Delivering messages over the wire is a collaborator's concern.

use vstd::prelude::*;

verus! {

use crate::text::str_eq;

/// Mathematical value of a `WsConnection`.
pub struct WsConnectionV {
    pub id: Seq<char>,
    pub user_id: Seq<char>,
    pub project_id: Option<Seq<char>>,
}

/// One live connection: its id, its user, and the project it follows.
pub struct WsConnection {
    pub id: String,
    pub user_id: String,
    pub project_id: Option<String>,
}

impl View for WsConnection {
    type V = WsConnectionV;

    open spec fn view(&self) -> WsConnectionV {
        WsConnectionV {
            id: self.id@,
            user_id: self.user_id@,
            project_id: match self.project_id {
                Some(ref p) => Some(p@),
                None => None,
            },
        }
    }
}

/// The registry without the connections carrying the given id, from
/// index `i` on.
pub open spec fn conns_without_from(conns: Seq<WsConnectionV>, id: Seq<char>, i: int) -> Seq<
    WsConnectionV,
>
    decreases conns.len() - i,
{
    if i < 0 || i >= conns.len() {
        Seq::empty()
    } else {
        (if conns[i].id == id {
            Seq::empty()
        } else {
            seq![conns[i]]
        }) + conns_without_from(conns, id, i + 1)
    }
}

/// The registry without the connections carrying the given id.
pub open spec fn conns_without(conns: Seq<WsConnectionV>, id: Seq<char>) -> Seq<WsConnectionV> {
    conns_without_from(conns, id, 0)
}

/// The connection registry.
pub struct WsState {
    connections: Vec<WsConnection>,
}

impl WsState {
    /// The registered connections, in registration order.
    pub closed spec fn conns(&self) -> Seq<WsConnectionV> {
        self.connections@.map_values(|c: WsConnection| c@)
    }

    pub fn new() -> (r: Self)
        ensures
            r.conns() == Seq::<WsConnectionV>::empty(),
    {
        let r = WsState { connections: Vec::new() };
        proof {
            assert(r.conns() =~= Seq::<WsConnectionV>::empty());
        }
        r
    }

    /// How many connections are registered.
    pub fn connection_count(&self) -> (r: usize)
        ensures
            r as int == self.conns().len(),
    {
        self.connections.len()
    }

    /// Register a connection under its id, replacing any prior
    /// connection with the same id.
    pub fn add_connection(&mut self, conn: WsConnection)
        ensures
            final(self).conns() == conns_without(old(self).conns(), conn@.id).push(conn@),
    {
        let ghost cv = conn@;
        self.remove_connection(conn.id.as_str());
        let ghost removed = self.conns();
        self.connections.push(conn);
        proof {
            assert(self.conns() =~= removed.push(cv));
        }
    }

    /// Drop the connection with the given id; an absent id changes
    /// nothing.
    pub fn remove_connection(&mut self, id: &str)
        ensures
            final(self).conns() == conns_without(old(self).conns(), id@),
    {
        let ghost orig = self.connections@;
        let ghost orig_conns = old(self).conns();
        let mut kept: Vec<WsConnection> = Vec::new();
        let ghost mut c: int = 0;
        proof {
            assert(kept@.map_values(|q: WsConnection| q@) =~= Seq::<WsConnectionV>::empty());
            assert(self.connections@ =~= orig.skip(0));
        }
        while self.connections.len() > 0
            invariant
                orig_conns == orig.map_values(|q: WsConnection| q@),
                0 <= c <= orig.len(),
                self.connections@ == orig.skip(c),
                conns_without(orig_conns, id@) == kept@.map_values(|q: WsConnection| q@)
                    + conns_without_from(orig_conns, id@, c),
            decreases self.connections@.len(),
        {
            let e = self.connections.remove(0);
            let ghost ev = e@;
            proof {
                assert(orig.skip(c)[0] == orig[c]);
                assert(ev == orig_conns[c]);
                assert(orig.skip(c).skip(1) =~= orig.skip(c + 1));
            }
            let ghost old_map = kept@.map_values(|q: WsConnection| q@);
            if !str_eq(e.id.as_str(), id) {
                kept.push(e);
                proof {
                    assert(kept@.map_values(|q: WsConnection| q@) =~= old_map + seq![ev]);
                }
            }
            proof {
                assert(conns_without_from(orig_conns, id@, c) == (if orig_conns[c].id == id@ {
                    Seq::<WsConnectionV>::empty()
                } else {
                    seq![orig_conns[c]]
                }) + conns_without_from(orig_conns, id@, c + 1));
                c = c + 1;
            }
        }
        proof {
            assert(conns_without_from(orig_conns, id@, c) =~= Seq::<WsConnectionV>::empty());
            assert(kept@.map_values(|q: WsConnection| q@) =~= kept@.map_values(
                |q: WsConnection| q@,
            ) + conns_without_from(orig_conns, id@, c));
        }
        self.connections = kept;
    }
}

} // verus!
