//! The tables of the server: agents, the clients of each, and the connections that wait for their
//! two sides.

use std::collections::hash_map::Entry;
use std::collections::HashMap;
use vstd::prelude::*;
use tokio::net::TcpStream;
use tokio::sync::oneshot::{Receiver, Sender};
use crate::channel::{connected, stream_channel};
use crate::link::Handle;
use crate::seed::{next_id, next_seed};

verus! {

broadcast use {
    vstd::std_specs::hash::group_hash_axioms,
    vstd::std_specs::hash::axiom_spec_keys_iter,
    vstd::std_specs::hash::axiom_has_resolved_occupied_entry,
    vstd::std_specs::hash::axiom_has_resolved_vacant_entry,
};

/// A connection that waits for its two sides. The client's side takes the receiving end and waits
/// on it; the agent's side takes the sending end and puts its stream in.
pub struct Conn {
    pub id: u32,
    pub sx: Option<Sender<TcpStream>>,
    pub rx: Option<Receiver<TcpStream>>,
    /// The two ends that the connection was made with.
    pub ends: Ghost<(Sender<TcpStream>, Receiver<TcpStream>)>,
}

/// A connection as contracts speak of it: its id, the ends still in place, and the ends that it
/// was made with.
pub struct ConnModel {
    pub id: u32,
    pub sx: Option<Sender<TcpStream>>,
    pub rx: Option<Receiver<TcpStream>>,
    pub ends: (Sender<TcpStream>, Receiver<TcpStream>),
}

impl ConnModel {
    /// The ends were made as one channel, and an end still in place is the one it was made with.
    pub open spec fn wf(self) -> bool {
        &&& connected(self.ends.0, self.ends.1)
        &&& self.sx matches Some(sx) ==> sx == self.ends.0
        &&& self.rx matches Some(rx) ==> rx == self.ends.1
    }

    /// A connection of which neither end was taken.
    pub open spec fn fresh(self, id: u32) -> bool {
        &&& self.id == id
        &&& self.sx == Some(self.ends.0)
        &&& self.rx == Some(self.ends.1)
        &&& connected(self.ends.0, self.ends.1)
    }
}

impl View for Conn {
    type V = ConnModel;

    open spec fn view(&self) -> ConnModel {
        ConnModel { id: self.id, sx: self.sx, rx: self.rx, ends: self.ends@ }
    }
}

impl Conn {
    /// A connection with both ends of a new channel.
    pub fn new(id: u32) -> (r: Conn)
        ensures
            r@.fresh(id),
    {
        let (sx, rx) = stream_channel();
        let ghost ends = (sx, rx);
        Conn { id, sx: Some(sx), rx: Some(rx), ends: Ghost(ends) }
    }
}

/// A client: the port it publishes on, its link, and its connections by id.
pub struct Client {
    pub id: u32,
    pub port: u16,
    pub handle: Handle,
    pub conns: HashMap<u32, Conn>,
}

/// A client as contracts speak of it.
pub struct ClientModel {
    pub id: u32,
    pub port: u16,
    pub handle: Handle,
    pub conns: Map<u32, ConnModel>,
}

impl ClientModel {
    pub open spec fn wf(self) -> bool {
        forall|sid: u32| #[trigger]
            self.conns.contains_key(sid) ==> self.conns[sid].id == sid && self.conns[sid].wf()
    }

    /// The client with other connections.
    pub open spec fn with_conns(self, conns: Map<u32, ConnModel>) -> ClientModel {
        ClientModel { conns, ..self }
    }

    /// The receiving end of a connection, if the connection is there and has it.
    pub open spec fn rx(self, sid: u32) -> Option<Receiver<TcpStream>> {
        if self.conns.contains_key(sid) {
            self.conns[sid].rx
        } else {
            None
        }
    }

    /// The sending end of a connection, if the connection is there and has it.
    pub open spec fn sx(self, sid: u32) -> Option<Sender<TcpStream>> {
        if self.conns.contains_key(sid) {
            self.conns[sid].sx
        } else {
            None
        }
    }

    /// The client with the receiving end of a connection taken.
    pub open spec fn without_rx(self, sid: u32) -> ClientModel {
        if self.conns.contains_key(sid) {
            self.with_conns(self.conns.insert(sid, ConnModel { rx: None, ..self.conns[sid] }))
        } else {
            self
        }
    }

    /// The client with the sending end of a connection taken.
    pub open spec fn without_sx(self, sid: u32) -> ClientModel {
        if self.conns.contains_key(sid) {
            self.with_conns(self.conns.insert(sid, ConnModel { sx: None, ..self.conns[sid] }))
        } else {
            self
        }
    }
}

impl View for Client {
    type V = ClientModel;

    open spec fn view(&self) -> ClientModel {
        ClientModel {
            id: self.id,
            port: self.port,
            handle: self.handle,
            conns: self.conns@.map_values(|c: Conn| c@),
        }
    }
}

impl Client {
    /// A client without connections.
    pub fn new(id: u32, handle: Handle, port: u16) -> (r: Client)
        ensures
            r@ == (ClientModel { id, port, handle, conns: Map::empty() }),
    {
        let r = Client { id, port, handle, conns: HashMap::new() };
        assert(r@.conns =~= Map::empty());
        r
    }

    /// Adds or replaces a connection, with both ends in place.
    pub fn insert_conn(&mut self, sid: u32)
        ensures
            final(self)@.conns[sid].fresh(sid),
            final(self)@ == old(self)@.with_conns(
                old(self)@.conns.insert(sid, final(self)@.conns[sid]),
            ),
    {
        self.conns.insert(sid, Conn::new(sid));
        assert(self@.conns =~= old(self)@.conns.insert(sid, self@.conns[sid]));
    }

    /// Drops a connection.
    pub fn remove_conn(&mut self, sid: u32)
        ensures
            final(self)@ == old(self)@.with_conns(old(self)@.conns.remove(sid)),
    {
        self.conns.remove(&sid);
        assert(self@.conns =~= old(self)@.conns.remove(sid));
    }

    /// Takes the receiving end out of a connection.
    pub fn take_rx(&mut self, sid: u32) -> (r: Option<Receiver<TcpStream>>)
        ensures
            r == old(self)@.rx(sid),
            final(self)@ == old(self)@.without_rx(sid),
    {
        let r = match self.conns.entry(sid) {
            Entry::Occupied(slot) => slot.into_mut().rx.take(),
            Entry::Vacant(_) => None,
        };
        assert(self@.conns =~= old(self)@.without_rx(sid).conns);
        r
    }

    /// Takes the sending end out of a connection.
    pub fn take_sx(&mut self, sid: u32) -> (r: Option<Sender<TcpStream>>)
        ensures
            r == old(self)@.sx(sid),
            final(self)@ == old(self)@.without_sx(sid),
    {
        let r = match self.conns.entry(sid) {
            Entry::Occupied(slot) => slot.into_mut().sx.take(),
            Entry::Vacant(_) => None,
        };
        assert(self@.conns =~= old(self)@.without_sx(sid).conns);
        r
    }
}

/// An agent: its link, its clients by id, and the id that the next client gets.
pub struct Agent {
    pub id: u32,
    pub handle: Handle,
    pub seed: u32,
    pub clients: HashMap<u32, Client>,
}

/// An agent as contracts speak of it.
pub struct AgentModel {
    pub id: u32,
    pub handle: Handle,
    pub seed: u32,
    pub clients: Map<u32, ClientModel>,
}

impl AgentModel {
    pub open spec fn wf(self) -> bool {
        forall|cid: u32| #[trigger]
            self.clients.contains_key(cid) ==> self.clients[cid].id == cid
                && self.clients[cid].wf()
    }

    /// The link of a client, if there is such a client.
    pub open spec fn client_handle(self, cid: u32) -> Option<Handle> {
        if self.clients.contains_key(cid) {
            Some(self.clients[cid].handle)
        } else {
            None
        }
    }

    /// The receiving end of a connection of a client, if it is there to be taken.
    pub open spec fn rx(self, cid: u32, sid: u32) -> Option<Receiver<TcpStream>> {
        if self.clients.contains_key(cid) {
            self.clients[cid].rx(sid)
        } else {
            None
        }
    }

    /// The sending end of a connection of a client, if it is there to be taken.
    pub open spec fn sx(self, cid: u32, sid: u32) -> Option<Sender<TcpStream>> {
        if self.clients.contains_key(cid) {
            self.clients[cid].sx(sid)
        } else {
            None
        }
    }

    /// The agent with the receiving end of a connection taken.
    pub open spec fn without_rx(self, cid: u32, sid: u32) -> AgentModel {
        if self.clients.contains_key(cid) {
            self.with_client(cid, self.clients[cid].without_rx(sid))
        } else {
            self
        }
    }

    /// The agent with the sending end of a connection taken.
    pub open spec fn without_sx(self, cid: u32, sid: u32) -> AgentModel {
        if self.clients.contains_key(cid) {
            self.with_client(cid, self.clients[cid].without_sx(sid))
        } else {
            self
        }
    }

    /// A connection of a client that is in the table.
    pub open spec fn conn(self, cid: u32, sid: u32) -> ConnModel {
        self.clients[cid].conns[sid]
    }

    /// The agent with one client added or replaced.
    pub open spec fn with_client(self, cid: u32, client: ClientModel) -> AgentModel {
        AgentModel { clients: self.clients.insert(cid, client), ..self }
    }

    /// The agent without one client.
    pub open spec fn without_client(self, cid: u32) -> AgentModel {
        AgentModel { clients: self.clients.remove(cid), ..self }
    }

    /// The agent with one connection of a client that it has added or replaced.
    pub open spec fn with_conn(self, cid: u32, sid: u32, conn: ConnModel) -> AgentModel {
        self.with_client(
            cid,
            self.clients[cid].with_conns(self.clients[cid].conns.insert(sid, conn)),
        )
    }

    /// The agent without one connection of a client; nothing changes if there is no such client.
    pub open spec fn without_conn(self, cid: u32, sid: u32) -> AgentModel {
        if self.clients.contains_key(cid) {
            self.with_client(
                cid,
                self.clients[cid].with_conns(self.clients[cid].conns.remove(sid)),
            )
        } else {
            self
        }
    }

    /// The agent after its next client logged in on a link.
    pub open spec fn with_next_client(self, handle: Handle, port: u16) -> AgentModel {
        AgentModel {
            seed: next_seed(self.seed),
            ..self.with_client(
                self.seed,
                ClientModel { id: self.seed, port, handle, conns: Map::empty() },
            )
        }
    }
}

impl View for Agent {
    type V = AgentModel;

    open spec fn view(&self) -> AgentModel {
        AgentModel {
            id: self.id,
            handle: self.handle,
            seed: self.seed,
            clients: self.clients@.map_values(|c: Client| c@),
        }
    }
}

impl Agent {
    /// An agent without clients.
    pub fn new(id: u32, handle: Handle) -> (r: Agent)
        ensures
            r@ == (AgentModel { id, handle, seed: 0, clients: Map::empty() }),
    {
        let r = Agent { id, handle, seed: 0, clients: HashMap::new() };
        assert(r@.clients =~= Map::empty());
        r
    }

    /// The link of a client.
    pub fn get_client_handle(&self, id: u32) -> (r: Option<Handle>)
        ensures
            r == self@.client_handle(id),
    {
        match self.clients.get(&id) {
            Some(client) => Some(client.handle),
            None => None,
        }
    }

    /// Takes a client in under the next id. Returns the id and, where the ids have come round to
    /// one still in use, the link of the client that had it: that link is to be closed.
    pub fn insert_client(&mut self, handle: Handle, port: u16) -> (r: (u32, Option<Handle>))
        ensures
            r.0 == old(self)@.seed,
            r.1 == old(self)@.client_handle(r.0),
            final(self)@ == old(self)@.with_next_client(handle, port),
            old(self)@.wf() ==> final(self)@.wf(),
    {
        let cid: u32 = next_id(&mut self.seed);
        let replaced = self.clients.insert(cid, Client::new(cid, handle, port));
        assert(self@.clients =~= old(self)@.with_next_client(handle, port).clients);
        match replaced {
            Some(client) => (cid, Some(client.handle)),
            None => (cid, None),
        }
    }

    /// Drops a client and its connections.
    pub fn remove_client(&mut self, id: u32)
        ensures
            final(self)@ == old(self)@.without_client(id),
            old(self)@.wf() ==> final(self)@.wf(),
    {
        self.clients.remove(&id);
        assert(self@.clients =~= old(self)@.clients.remove(id));
    }

    /// The agent's own link.
    pub fn handle(&self) -> (r: Handle)
        ensures
            r == self@.handle,
    {
        self.handle
    }

    /// The links to be closed when the agent goes: those of its clients, in some order, each once,
    /// then its own.
    pub fn clear(&self) -> (r: Vec<Handle>)
        ensures
            closes_all(self@, r@),
    {
        let mut links: Vec<Handle> = Vec::new();
        let keys = self.clients.keys();
        let ghost order = vstd::std_specs::iter::IteratorSpec::remaining(&keys).unref();
        for cid in it: keys
            invariant
                it.seq().unref() == order,
                order.to_set() == self.clients@.dom(),
                links@ == order.take(it.index()).map_values(
                    |cid: u32| self@.clients[cid].handle,
                ),
        {
            match self.clients.get(cid) {
                Some(client) => links.push(client.handle),
                None => {},
            }
        }
        proof {
            assert(order.take(order.len() as int) == order);
            assert forall|i: int, j: int|
                0 <= i < order.len() && 0 <= j < order.len() && i != j implies order[i]
                != order[j] by {
                let keys_left = vstd::std_specs::iter::IteratorSpec::remaining(&keys);
                assert(*keys_left[i] == order[i] && *keys_left[j] == order[j]);
            }
            assert(order.to_set() =~= self@.clients.dom());
        }
        links.push(self.handle);
        assert(links@ == links_in(self@, order));
        links
    }

    /// Adds a connection with both ends in place to a client, or replaces it. Without such a
    /// client nothing happens.
    pub fn insert_conn(&mut self, cid: u32, sid: u32)
        ensures
            conn_inserted(old(self)@, final(self)@, cid, sid),
            old(self)@.wf() ==> final(self)@.wf(),
    {
        match self.clients.entry(cid) {
            Entry::Occupied(slot) => slot.into_mut().insert_conn(sid),
            Entry::Vacant(_) => {},
        }
        proof {
            if old(self)@.clients.contains_key(cid) {
                assert(self@.clients =~= old(self)@.with_conn(
                    cid,
                    sid,
                    self@.conn(cid, sid),
                ).clients);
            } else {
                assert(self@.clients =~= old(self)@.clients);
            }
        }
    }

    /// Drops a connection of a client.
    pub fn remove_conn(&mut self, cid: u32, sid: u32)
        ensures
            final(self)@ == old(self)@.without_conn(cid, sid),
            old(self)@.wf() ==> final(self)@.wf(),
    {
        match self.clients.entry(cid) {
            Entry::Occupied(slot) => slot.into_mut().remove_conn(sid),
            Entry::Vacant(_) => {},
        }
        assert(self@.clients =~= old(self)@.without_conn(cid, sid).clients);
    }

    /// Takes the receiving end out of a connection of a client.
    pub fn get_conn_rx(&mut self, cid: u32, sid: u32) -> (r: Option<Receiver<TcpStream>>)
        ensures
            r == old(self)@.rx(cid, sid),
            final(self)@ == old(self)@.without_rx(cid, sid),
            old(self)@.wf() ==> final(self)@.wf(),
    {
        let r = match self.clients.entry(cid) {
            Entry::Occupied(slot) => slot.into_mut().take_rx(sid),
            Entry::Vacant(_) => None,
        };
        assert(self@.clients =~= old(self)@.without_rx(cid, sid).clients);
        r
    }

    /// Takes the sending end out of a connection of a client.
    pub fn get_conn_sx(&mut self, cid: u32, sid: u32) -> (r: Option<Sender<TcpStream>>)
        ensures
            r == old(self)@.sx(cid, sid),
            final(self)@ == old(self)@.without_sx(cid, sid),
            old(self)@.wf() ==> final(self)@.wf(),
    {
        let r = match self.clients.entry(cid) {
            Entry::Occupied(slot) => slot.into_mut().take_sx(sid),
            Entry::Vacant(_) => None,
        };
        assert(self@.clients =~= old(self)@.without_sx(cid, sid).clients);
        r
    }
}

/// Whether `order` names every client of the agent, each once.
pub open spec fn lists_clients(agent: AgentModel, order: Seq<u32>) -> bool {
    order.no_duplicates() && order.to_set() == agent.clients.dom()
}

/// The links of clients in the order given, and then the agent's own.
pub open spec fn links_in(agent: AgentModel, order: Seq<u32>) -> Seq<Handle> {
    order.map_values(|cid: u32| agent.clients[cid].handle).push(agent.handle)
}

/// Whether `links` is the link of every client of the agent, each once, and then the agent's own.
pub open spec fn closes_all(agent: AgentModel, links: Seq<Handle>) -> bool {
    exists|order: Seq<u32>|
        lists_clients(agent, order) && links == #[trigger] links_in(agent, order)
}

/// What adding a connection comes to: the client has it, with neither end taken, and nothing else
/// has changed.
pub open spec fn conn_inserted(pre: AgentModel, post: AgentModel, cid: u32, sid: u32) -> bool {
    if pre.clients.contains_key(cid) {
        &&& post.conn(cid, sid).fresh(sid)
        &&& post == pre.with_conn(cid, sid, post.conn(cid, sid))
    } else {
        post == pre
    }
}

/// Whether two clients are the same but for their connections.
pub open spec fn same_client(p: ClientModel, q: ClientModel) -> bool {
    p.id == q.id && p.port == q.port && p.handle == q.handle
}

/// Whether two connections are the same but for the ends still in place.
pub open spec fn same_conn(p: ConnModel, q: ConnModel) -> bool {
    p.id == q.id && p.ends == q.ends
}

/// A new connection has its id, and both ends of one channel in place. Taking an end leaves the
/// other in place, and every connection in order.
pub proof fn law_new_connection_has_both_ends(conn: ConnModel, id: u32)
    requires
        conn.fresh(id),
    ensures
        conn.id == id,
        conn.sx is Some,
        conn.rx is Some,
        connected(conn.sx->0, conn.rx->0),
        conn.wf(),
        (ConnModel { rx: None, ..conn }).wf(),
        (ConnModel { sx: None, ..conn }).wf(),
{
}

/// In tables in order a client and a connection have the id that they are filed under, and two ends
/// in place are those of one channel.
pub proof fn law_order_of_an_agent(agent: AgentModel, cid: u32, sid: u32)
    requires
        agent.wf(),
        agent.clients.contains_key(cid),
    ensures
        agent.clients[cid].id == cid,
        agent.clients[cid].conns.contains_key(sid) ==> {
            let conn = agent.clients[cid].conns[sid];
            &&& conn.id == sid
            &&& connected(conn.ends.0, conn.ends.1)
            &&& conn.sx is Some ==> conn.sx->0 == conn.ends.0
            &&& conn.rx is Some ==> conn.rx->0 == conn.ends.1
        },
{
    assert(agent.clients[cid].wf());
}

/// What is found for a client is what is filed under its very id, and nothing is found where nothing
/// is filed.
pub proof fn law_found_is_what_is_filed(agent: AgentModel, cid: u32, sid: u32)
    ensures
        agent.client_handle(cid) == if agent.clients.contains_key(cid) {
            Some(agent.clients[cid].handle)
        } else {
            None
        },
        agent.clients.contains_key(cid) && agent.clients[cid].conns.contains_key(sid) ==> {
            &&& agent.rx(cid, sid) == agent.clients[cid].conns[sid].rx
            &&& agent.sx(cid, sid) == agent.clients[cid].conns[sid].sx
            &&& agent.clients[cid].rx(sid) == agent.clients[cid].conns[sid].rx
            &&& agent.clients[cid].sx(sid) == agent.clients[cid].conns[sid].sx
            &&& agent.conn(cid, sid) == agent.clients[cid].conns[sid]
        },
        !(agent.clients.contains_key(cid) && agent.clients[cid].conns.contains_key(sid)) ==> {
            &&& agent.rx(cid, sid) is None
            &&& agent.sx(cid, sid) is None
        },
        agent.clients.contains_key(cid) && !agent.clients[cid].conns.contains_key(sid) ==> {
            &&& agent.clients[cid].rx(sid) is None
            &&& agent.clients[cid].sx(sid) is None
        },
{
}

/// Taking an end takes that end of that connection and nothing else: the agent, its clients and the
/// other end, and every other connection, are what they were.
pub proof fn law_taking_an_end_takes_nothing_else(
    agent: AgentModel,
    cid: u32,
    sid: u32,
    other_cid: u32,
    other_sid: u32,
)
    ensures
        ({
            let no_rx = agent.without_rx(cid, sid);
            let no_sx = agent.without_sx(cid, sid);
            &&& (no_rx.id, no_rx.handle, no_rx.seed) == (agent.id, agent.handle, agent.seed)
            &&& (no_sx.id, no_sx.handle, no_sx.seed) == (agent.id, agent.handle, agent.seed)
            &&& no_rx.clients.dom() == agent.clients.dom()
            &&& no_sx.clients.dom() == agent.clients.dom()
            &&& agent.clients.contains_key(other_cid) ==> {
                let before = agent.clients[other_cid];
                let rx_gone = no_rx.clients[other_cid];
                let sx_gone = no_sx.clients[other_cid];
                &&& same_client(rx_gone, before)
                &&& same_client(sx_gone, before)
                &&& rx_gone.conns.dom() == before.conns.dom()
                &&& sx_gone.conns.dom() == before.conns.dom()
                &&& before.conns.contains_key(other_sid) ==> {
                    let conn = before.conns[other_sid];
                    let mine = other_cid == cid && other_sid == sid;
                    &&& same_conn(rx_gone.conns[other_sid], conn)
                    &&& same_conn(sx_gone.conns[other_sid], conn)
                    &&& rx_gone.conns[other_sid].sx == conn.sx
                    &&& sx_gone.conns[other_sid].rx == conn.rx
                    &&& mine ==> rx_gone.conns[other_sid].rx is None
                    &&& mine ==> sx_gone.conns[other_sid].sx is None
                    &&& !mine ==> rx_gone.conns[other_sid].rx == conn.rx
                    &&& !mine ==> sx_gone.conns[other_sid].sx == conn.sx
                }
            }
        }),
{
    assert(agent.without_rx(cid, sid).clients.dom() =~= agent.clients.dom());
    assert(agent.without_sx(cid, sid).clients.dom() =~= agent.clients.dom());
    if agent.clients.contains_key(cid) {
        let conns = agent.clients[cid].conns;
        assert(agent.clients[cid].without_rx(sid).conns.dom() =~= conns.dom());
        assert(agent.clients[cid].without_sx(sid).conns.dom() =~= conns.dom());
    }
}

/// The end that a client gives out is the one that it then no longer has; its other connections are
/// what they were.
pub proof fn law_client_gives_an_end_once(client: ClientModel, sid: u32, other: u32)
    ensures
        client.without_rx(sid).rx(sid) is None,
        client.without_sx(sid).sx(sid) is None,
        client.without_rx(sid).sx(sid) == client.sx(sid),
        client.without_sx(sid).rx(sid) == client.rx(sid),
        same_client(client.without_rx(sid), client),
        same_client(client.without_sx(sid), client),
        client.without_rx(sid).conns.dom() == client.conns.dom(),
        client.without_sx(sid).conns.dom() == client.conns.dom(),
        other != sid ==> {
            &&& client.without_rx(sid).conns[other] == client.conns[other]
            &&& client.without_sx(sid).conns[other] == client.conns[other]
        },
{
    assert(client.without_rx(sid).conns.dom() =~= client.conns.dom());
    assert(client.without_sx(sid).conns.dom() =~= client.conns.dom());
}

/// Dropping a client drops it alone; dropping a connection drops it alone. Neither changes the
/// agent, the id that the next client gets, or another client.
pub proof fn law_dropping_drops_nothing_else(
    agent: AgentModel,
    cid: u32,
    sid: u32,
    other_cid: u32,
    other_sid: u32,
)
    ensures
        ({
            let no_client = agent.without_client(cid);
            let no_conn = agent.without_conn(cid, sid);
            &&& (no_client.id, no_client.handle, no_client.seed) == (
                agent.id,
                agent.handle,
                agent.seed,
            )
            &&& (no_conn.id, no_conn.handle, no_conn.seed) == (agent.id, agent.handle, agent.seed)
            &&& !no_client.clients.contains_key(cid)
            &&& other_cid != cid ==> {
                &&& no_client.clients.contains_key(other_cid) == agent.clients.contains_key(
                    other_cid,
                )
                &&& no_client.clients[other_cid] == agent.clients[other_cid]
                &&& no_conn.clients[other_cid] == agent.clients[other_cid]
            }
            &&& no_conn.clients.dom() == agent.clients.dom()
            &&& agent.clients.contains_key(cid) ==> {
                let before = agent.clients[cid];
                let after = no_conn.clients[cid];
                &&& same_client(after, before)
                &&& !after.conns.contains_key(sid)
                &&& other_sid != sid ==> {
                    &&& after.conns.contains_key(other_sid) == before.conns.contains_key(other_sid)
                    &&& after.conns[other_sid] == before.conns[other_sid]
                }
            }
        }),
{
    assert(agent.without_conn(cid, sid).clients.dom() =~= agent.clients.dom());
}

/// Adding a connection to a client gives it a connection with that id and both ends of one channel;
/// every other connection, every client and the agent are what they were. Where there is no such
/// client, nothing changes.
pub proof fn law_adding_a_connection_adds_nothing_else(
    pre: AgentModel,
    post: AgentModel,
    cid: u32,
    sid: u32,
    other_cid: u32,
    other_sid: u32,
)
    requires
        conn_inserted(pre, post, cid, sid),
    ensures
        (post.id, post.handle, post.seed) == (pre.id, pre.handle, pre.seed),
        post.clients.dom() == pre.clients.dom(),
        !pre.clients.contains_key(cid) ==> post == pre,
        other_cid != cid ==> post.clients[other_cid] == pre.clients[other_cid],
        pre.clients.contains_key(cid) ==> {
            let before = pre.clients[cid];
            let after = post.clients[cid];
            &&& same_client(after, before)
            &&& after.conns.contains_key(sid)
            &&& after.conns[sid].id == sid
            &&& after.conns[sid].sx is Some
            &&& after.conns[sid].rx is Some
            &&& connected(after.conns[sid].sx->0, after.conns[sid].rx->0)
            &&& after.conns[sid].wf()
            &&& other_sid != sid ==> {
                &&& after.conns.contains_key(other_sid) == before.conns.contains_key(other_sid)
                &&& after.conns[other_sid] == before.conns[other_sid]
            }
        },
{
    assert(post.clients.dom() =~= pre.clients.dom());
}

/// A client that logs in is filed under the id that the agent was to give out next, with its own
/// link and port and without connections. The agent then gives out the number after that, and no
/// other client is touched.
pub proof fn law_login_takes_the_next_id(
    agent: AgentModel,
    handle: Handle,
    port: u16,
    sid: u32,
    other: u32,
)
    ensures
        ({
            let cid = agent.seed;
            let after = agent.with_next_client(handle, port);
            &&& after.id == agent.id
            &&& after.handle == agent.handle
            &&& after.seed == (agent.seed + 1) % 0x1_0000_0000
            &&& after.clients.contains_key(cid)
            &&& after.clients[cid].id == cid
            &&& after.clients[cid].handle == handle
            &&& after.clients[cid].port == port
            &&& !after.clients[cid].conns.contains_key(sid)
            &&& other != cid ==> {
                &&& after.clients.contains_key(other) == agent.clients.contains_key(other)
                &&& after.clients[other] == agent.clients[other]
            }
        }),
{
}

/// The agent after clients logged in one after the other, each with its link and port.
pub open spec fn after_logins(agent: AgentModel, logins: Seq<(Handle, u16)>) -> AgentModel
    decreases logins.len(),
{
    if logins.len() == 0 {
        agent
    } else {
        after_logins(agent, logins.drop_last()).with_next_client(
            logins.last().0,
            logins.last().1,
        )
    }
}

/// After logins the agent gives out the id that many numbers further on; any 2^32 logins in a row
/// get different ids.
pub proof fn law_ids_of_logins_differ(
    agent: AgentModel,
    logins: Seq<(Handle, u16)>,
    i: int,
    j: int,
)
    requires
        0 <= i < j <= logins.len(),
    ensures
        after_logins(agent, logins).seed == (agent.seed + logins.len()) % 0x1_0000_0000,
        j - i < 0x1_0000_0000 ==> after_logins(agent, logins.take(i)).seed != after_logins(
            agent,
            logins.take(j),
        ).seed,
{
    law_logins_keep_the_agent(agent, logins);
    law_logins_keep_the_agent(agent, logins.take(i));
    law_logins_keep_the_agent(agent, logins.take(j));
}

/// Logins count the next id on and change nothing else of the agent itself.
pub proof fn law_logins_keep_the_agent(agent: AgentModel, logins: Seq<(Handle, u16)>)
    ensures
        after_logins(agent, logins).seed == (agent.seed + logins.len()) % 0x1_0000_0000,
        after_logins(agent, logins).id == agent.id,
        after_logins(agent, logins).handle == agent.handle,
    decreases logins.len(),
{
    if logins.len() > 0 {
        law_logins_keep_the_agent(agent, logins.drop_last());
    }
}

/// A login replaces no client as long as the ids last: of up to 2^32 clients that log in at an agent
/// that had none, the first has id 0, the second id 1 and so on; each is still there under its id,
/// with its own link and port, when all have logged in, and nobody else is.
pub proof fn law_no_login_replaces_a_client(
    agent: AgentModel,
    logins: Seq<(Handle, u16)>,
    i: int,
    cid: u32,
)
    requires
        agent.seed == 0,
        agent.clients == Map::<u32, ClientModel>::empty(),
        logins.len() <= 0x1_0000_0000,
    ensures
        ({
            let after = after_logins(agent, logins);
            &&& after.clients.contains_key(cid) <==> cid < logins.len()
            &&& 0 <= i < logins.len() ==> {
                &&& after_logins(agent, logins.take(i)).seed == i
                &&& after_logins(agent, logins.take(i)).client_handle(i as u32) is None
                &&& after.clients[i as u32].id == i
                &&& after.clients[i as u32].handle == logins[i].0
                &&& after.clients[i as u32].port == logins[i].1
            }
        }),
    decreases logins.len(),
{
    law_logins_keep_the_agent(agent, logins);
    if logins.len() > 0 {
        let n = logins.len() - 1;
        law_logins_keep_the_agent(agent, logins.drop_last());
        law_no_login_replaces_a_client(agent, logins.drop_last(), i, cid);
        if 0 <= i < logins.len() {
            law_logins_keep_the_agent(agent, logins.take(i));
            law_no_login_replaces_a_client(agent, logins.take(i), 0, i as u32);
            if i < n {
                assert(logins.drop_last()[i] == logins[i]);
            }
        }
    }
}

/// When an agent goes, there is one link to close for each of its clients and one for itself: each
/// client's is among them, its own is the last, and every other is some client's.
pub proof fn law_links_to_close(agent: AgentModel, links: Seq<Handle>, cid: u32, i: int)
    requires
        closes_all(agent, links),
    ensures
        links.len() == agent.clients.dom().len() + 1,
        links.last() == agent.handle,
        agent.clients.contains_key(cid) ==> exists|j: int|
            0 <= j < links.len() - 1 && links[j] == agent.clients[cid].handle,
        0 <= i < links.len() - 1 ==> exists|other: u32| #[trigger]
            agent.clients.contains_key(other) && links[i] == agent.clients[other].handle,
{
    let order = choose|order: Seq<u32>|
        lists_clients(agent, order) && links == #[trigger] links_in(agent, order);
    order.unique_seq_to_set();
    if agent.clients.contains_key(cid) {
        assert(order.to_set().contains(cid));
        let j = choose|j: int| 0 <= j < order.len() && order[j] == cid;
        assert(links[j] == agent.clients[cid].handle);
    }
    if 0 <= i < links.len() - 1 {
        assert(order.to_set().contains(order[i]));
        assert(agent.clients.contains_key(order[i]));
    }
}

/// An agent is to contracts what it holds: its own numbers, and each client and connection under the
/// id that it is filed under.
pub proof fn law_tables_hold_what_contracts_say(agent: Agent, cid: u32, sid: u32)
    ensures
        agent@.id == agent.id,
        agent@.handle == agent.handle,
        agent@.seed == agent.seed,
        agent@.clients.contains_key(cid) <==> agent.clients@.contains_key(cid),
        agent.clients@.contains_key(cid) ==> {
            let client = agent.clients@[cid];
            &&& agent@.clients[cid].id == client.id
            &&& agent@.clients[cid].port == client.port
            &&& agent@.clients[cid].handle == client.handle
            &&& agent@.clients[cid].conns.contains_key(sid) <==> client.conns@.contains_key(sid)
            &&& client.conns@.contains_key(sid) ==> {
                let conn = client.conns@[sid];
                &&& agent@.clients[cid].conns[sid].id == conn.id
                &&& agent@.clients[cid].conns[sid].sx == conn.sx
                &&& agent@.clients[cid].conns[sid].rx == conn.rx
            }
        },
{
}

} // verus!
