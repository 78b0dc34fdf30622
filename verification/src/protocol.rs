//! The packets that travel on a control link, and the preamble that opens a data connection.

use vstd::prelude::*;

verus! {

/// The tag that a client puts above the connection id in a preamble.
pub const CLIENT_ID: u32 = 2;

/// The tag that an agent puts above the connection id in a preamble.
pub const AGENT_ID: u32 = 4;

/// The upper half of a preamble word: who opened the connection.
pub open spec fn tag_of(data: u64) -> int {
    data as int / 0x1_0000_0000
}

/// The lower half of a preamble word: the id of the connection.
pub open spec fn id_of(data: u64) -> int {
    data as int % 0x1_0000_0000
}

/// The tag of a side.
pub open spec fn side_tag(client: bool) -> u32 {
    if client {
        CLIENT_ID
    } else {
        AGENT_ID
    }
}

/// The preamble word of a side for a connection.
pub open spec fn composed(id: u32, client: bool) -> u64 {
    (side_tag(client) * 0x1_0000_0000 + id) as u64
}

/// Whether a client opened the connection.
#[inline]
pub fn is_client(data: &u64) -> (r: bool)
    ensures
        r <==> tag_of(*data) == CLIENT_ID,
{
    let word: u64 = *data;
    assert((word >> 32) as u32 == word / 0x1_0000_0000) by (bit_vector);
    ((word >> 32) as u32) == CLIENT_ID
}

/// Whether an agent opened the connection.
#[inline]
pub fn is_agent(data: &u64) -> (r: bool)
    ensures
        r <==> tag_of(*data) == AGENT_ID,
{
    let word: u64 = *data;
    assert((word >> 32) as u32 == word / 0x1_0000_0000) by (bit_vector);
    ((word >> 32) as u32) == AGENT_ID
}

/// The id of the connection.
#[inline]
pub fn get_id(data: &u64) -> (r: u32)
    ensures
        r == id_of(*data),
{
    let word: u64 = *data;
    assert((word & 0xFFFFFFFF) as u32 == word % 0x1_0000_0000) by (bit_vector);
    (word & 0xFFFFFFFF) as u32
}

/// The preamble word for connection `id`, from the client's side or from the agent's.
#[inline]
pub fn compose(id: u32, client: bool) -> (r: u64)
    ensures
        r == composed(id, client),
{
    if client {
        assert(id as u64 | (2u32 as u64) << 32 == 2 * 0x1_0000_0000 + id) by (bit_vector);
        id as u64 | (CLIENT_ID as u64) << 32
    } else {
        assert(id as u64 | (4u32 as u64) << 32 == 4 * 0x1_0000_0000 + id) by (bit_vector);
        id as u64 | (AGENT_ID as u64) << 32
    }
}

/// Taking a composed word apart gives back what went in: the id, and the side. A word of one side
/// is never taken for a word of the other.
pub proof fn law_compose_then_read(id: u32, client: bool)
    ensures
        id_of(composed(id, client)) == id,
        tag_of(composed(id, client)) == CLIENT_ID <==> client,
        tag_of(composed(id, client)) == AGENT_ID <==> !client,
{
}

/// A word that reads as one side's is the word that this side composes for the id in it.
pub proof fn law_read_then_compose(data: u64)
    ensures
        tag_of(data) == CLIENT_ID ==> composed(id_of(data) as u32, true) == data,
        tag_of(data) == AGENT_ID ==> composed(id_of(data) as u32, false) == data,
{
}

/// What opens a data connection on the server's connection port: the agent, the client of that
/// agent, and the word that names the side and the connection.
#[derive(Clone, Copy, PartialEq, Eq, Structural, Debug)]
pub struct Preamble {
    pub agent_id: u32,
    pub id: u32,
    pub data: u64,
}

impl Preamble {
    /// The preamble of one side for connection `sid` of client `id` at agent `agent_id`.
    pub fn new(agent_id: u32, id: u32, sid: u32, client: bool) -> (r: Preamble)
        ensures
            r == (Preamble { agent_id, id, data: composed(sid, client) }),
    {
        Preamble { agent_id, id, data: compose(sid, client) }
    }
}

/// A packet of a control link.
#[derive(Clone, Copy, PartialEq, Eq, Structural, Debug)]
pub enum Packet {
    /// Agent to server and back: the agent is alive.
    PacketHbAgent { id: u32 },
    /// Client to server and back: the client is alive.
    PacketHbClient { id: u32 },
    /// Agent to server: register under `id`.
    ReqAgentLogin { id: u32 },
    /// Server to agent: registered.
    RspAgentLoginOk,
    /// Server to agent: the id is taken.
    RspAgentLoginFailed,
    /// Client to server: publish the service on `port` of agent `id`.
    ReqClientLogin { id: u32, port: u16 },
    /// Server to client: registered as client `id` of the agent.
    RspClientLoginOk { agent_id: u32, id: u32 },
    /// Server to client: the agent could not listen on the port.
    RspClientLoginFailed,
    /// Server to client: there is no such agent.
    RspServiceNotFound,
    /// Server to agent: listen on `port` for client `id`.
    ReqAgentBuild { port: u16, id: u32 },
    /// Agent to server: connection `sid` was accepted for client `id`, or listening failed.
    RspAgentBuild { agent_id: u32, id: u32, sid: u32, ok: bool },
    /// Server to agent: there is no client `id`.
    RspClientNotFound { id: u32 },
    /// Server to client: open your side of connection `sid`.
    ReqNewConnectionClient { agent_id: u32, id: u32, sid: u32 },
    /// Server to agent: open your side of connection `sid`.
    ReqNewConnectionAgent { id: u32, sid: u32 },
    /// Client to server: the client could not open its side.
    RspNewConnFailedClient { agent_id: u32, id: u32, sid: u32 },
    /// Agent to server to client: the agent could not open its side.
    PacketInfoConnectFailed { agent_id: u32, cid: u32, sid: u32 },
    /// Server to agent: client `id` is gone.
    PacketInfoClientClosed { id: u32 },
}

/// A word is its upper half and its lower half: the tag is the one, the id the other.
pub proof fn law_word_is_tag_and_id(data: u64)
    ensures
        data == tag_of(data) * 0x1_0000_0000 + id_of(data),
        0 <= id_of(data) < 0x1_0000_0000,
        0 <= tag_of(data) < 0x1_0000_0000,
{
}

/// The word of a side has the id in its lower half and the side's number in its upper half: 2 for
/// the client, 4 for the agent. So no two connections or sides share a word.
pub proof fn law_word_names_side_and_id(id: u32, client: bool, other: u32, other_client: bool)
    ensures
        composed(id, true) == 0x2_0000_0000 + id,
        composed(id, false) == 0x4_0000_0000 + id,
        composed(id, client) == composed(other, other_client) <==> id == other && client
            == other_client,
{
}

} // verus!
