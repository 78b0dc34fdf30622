//! Control links: how they are named, what is done to them, and when one is given up.

use vstd::prelude::*;
use crate::protocol::Packet;

verus! {

/// How long a peer waits for the server before it counts a miss, in seconds.
pub const RECV_TIMEOUT_SECS: u64 = 20;

/// How often a peer tells the server that it is alive, in seconds.
pub const HEARTBEAT_SECS: u64 = 5;

/// How many misses in a row a peer puts up with.
pub const MAX_MISSES: u32 = 3;

/// Names one control link. The program that owns the sockets gives out the numbers.
#[derive(Clone, Copy, PartialEq, Eq, Structural, Debug)]
pub struct Handle {
    pub link: u64,
}

/// Something to be done to a control link.
#[derive(Clone, Copy, PartialEq, Eq, Structural, Debug)]
pub enum Action {
    /// Send the packet on the link.
    Send { to: Handle, packet: Packet },
    /// Close the link.
    Close { to: Handle },
}

/// The peer sent what the protocol does not allow here: its link ends.
#[derive(Clone, Copy, PartialEq, Eq, Structural, Debug)]
pub struct InvalidData;

/// Whether a packet number as read from the link is the number of some packet.
pub open spec fn in_packet_range(pid: u64) -> bool {
    pid <= u32::MAX
}

/// The packet number in the width that packets are registered under.
pub fn packet_id(pid: u64) -> (r: Result<u32, InvalidData>)
    ensures
        in_packet_range(pid) ==> r == Ok::<u32, InvalidData>(pid as u32),
        !in_packet_range(pid) ==> r == Err::<u32, InvalidData>(InvalidData),
{
    if pid > u32::MAX as u64 {
        Err(InvalidData)
    } else {
        Ok(pid as u32)
    }
}

/// Whether the packet that starts with `pid` is processed: `registered` says whether the receiver
/// has a packet registered under the number.
pub fn check_registered(pid: u64, registered: bool) -> (r: Result<u32, InvalidData>)
    ensures
        in_packet_range(pid) && registered ==> r == Ok::<u32, InvalidData>(pid as u32),
        !(in_packet_range(pid) && registered) ==> r == Err::<u32, InvalidData>(InvalidData),
{
    match packet_id(pid) {
        Ok(id) => if registered {
            Ok(id)
        } else {
            Err(InvalidData)
        },
        Err(e) => Err(e),
    }
}

/// What a peer sees on its link to the server.
#[derive(Clone, Copy, PartialEq, Eq, Structural, Debug)]
pub enum LinkEvent {
    /// Nothing arrived in time.
    TimedOut,
    /// The number of a packet arrived; `registered` says whether the peer knows the packet.
    Received { pid: u64, registered: bool },
    /// The link broke, or a packet could not be read or processed.
    Broken,
}

/// What a peer does next.
#[derive(Clone, Copy, PartialEq, Eq, Structural, Debug)]
pub enum LinkStep {
    /// Wait for the next event.
    Wait,
    /// Read and process the packet with this number.
    Dispatch(u32),
    /// Close the link and leave.
    GiveUp,
}

/// Counts the misses of a link in a row.
#[derive(Clone, Copy, PartialEq, Eq, Structural, Debug)]
pub struct Watchdog {
    pub misses: u32,
}

impl Watchdog {
    /// The counter after an event.
    pub open spec fn next(self, event: LinkEvent) -> Watchdog {
        match event {
            LinkEvent::TimedOut => Watchdog {
                misses: if self.misses == u32::MAX {
                    0
                } else {
                    (self.misses + 1) as u32
                },
            },
            LinkEvent::Received { .. } => Watchdog { misses: 0 },
            LinkEvent::Broken => self,
        }
    }

    /// What the peer does on an event.
    pub open spec fn reply(self, event: LinkEvent) -> LinkStep {
        match event {
            LinkEvent::TimedOut => if self.misses == MAX_MISSES {
                LinkStep::GiveUp
            } else {
                LinkStep::Wait
            },
            LinkEvent::Received { pid, registered } => if in_packet_range(pid) && registered {
                LinkStep::Dispatch(pid as u32)
            } else {
                LinkStep::GiveUp
            },
            LinkEvent::Broken => LinkStep::GiveUp,
        }
    }

    /// The counter after a run of events.
    pub open spec fn after(self, events: Seq<LinkEvent>) -> Watchdog
        decreases events.len(),
    {
        if events.len() == 0 {
            self
        } else {
            self.after(events.drop_last()).next(events.last())
        }
    }

    /// Whether the peer stays on through a run of events.
    pub open spec fn stays(self, events: Seq<LinkEvent>) -> bool
        decreases events.len(),
    {
        events.len() > 0 ==> {
            &&& self.stays(events.drop_last())
            &&& self.after(events.drop_last()).reply(events.last()) != LinkStep::GiveUp
        }
    }

    /// A link on which nothing was missed.
    pub fn new() -> (r: Watchdog)
        ensures
            r == (Watchdog { misses: 0 }),
    {
        Watchdog { misses: 0 }
    }

    /// Takes an event into account and says what to do.
    pub fn step(&mut self, event: LinkEvent) -> (r: LinkStep)
        ensures
            *final(self) == old(self).next(event),
            r == old(self).reply(event),
    {
        match event {
            LinkEvent::TimedOut => {
                let seen: u32 = self.misses;
                self.misses = seen.wrapping_add(1);
                if seen == MAX_MISSES {
                    LinkStep::GiveUp
                } else {
                    LinkStep::Wait
                }
            },
            LinkEvent::Received { pid, registered } => {
                self.misses = 0;
                match check_registered(pid, registered) {
                    Ok(id) => LinkStep::Dispatch(id),
                    Err(_) => LinkStep::GiveUp,
                }
            },
            LinkEvent::Broken => LinkStep::GiveUp,
        }
    }
}

/// How many of the latest events in a row were timeouts.
pub open spec fn trailing_timeouts(events: Seq<LinkEvent>) -> nat
    decreases events.len(),
{
    if events.len() == 0 || events.last() != LinkEvent::TimedOut {
        0
    } else {
        trailing_timeouts(events.drop_last()) + 1
    }
}

/// On a fresh link that has not been given up, the counter is the number of timeouts since the
/// last packet, and it never passes the limit. So a timeout ends the link exactly when it is the
/// one after `MAX_MISSES` in a row.
pub proof fn law_given_up_after_misses_in_a_row(events: Seq<LinkEvent>)
    requires
        (Watchdog { misses: 0 }).stays(events),
    ensures
        (Watchdog { misses: 0 }).after(events).misses == trailing_timeouts(events),
        trailing_timeouts(events) <= MAX_MISSES,
        (Watchdog { misses: 0 }).after(events).reply(LinkEvent::TimedOut) == LinkStep::GiveUp
            <==> trailing_timeouts(events) == MAX_MISSES,
    decreases events.len(),
{
    if events.len() > 0 {
        law_given_up_after_misses_in_a_row(events.drop_last());
    }
}

/// A packet that the peer knows clears every miss, however many there were.
pub proof fn law_packet_clears_misses(dog: Watchdog, pid: u32)
    ensures
        dog.next(LinkEvent::Received { pid: pid as u64, registered: true }) == (Watchdog {
            misses: 0,
        }),
        dog.reply(LinkEvent::Received { pid: pid as u64, registered: true }) == LinkStep::Dispatch(
            pid,
        ),
{
}

/// The number of a packet is any that 32 bits hold, and no other.
pub proof fn law_packet_numbers_have_32_bits(pid: u64)
    ensures
        in_packet_range(pid) <==> pid < 0x1_0000_0000,
{
}

/// What the peer does on an event, whatever came before. Of the time-outs only the one after three
/// misses in a row makes it give up; each counts. Any packet number clears the count, and is
/// dispatched exactly if it has 32 bits and the peer knows it. A broken link is given up at once.
pub proof fn law_watchdog_on_each_event(dog: Watchdog, pid: u64, registered: bool)
    ensures
        dog.reply(LinkEvent::TimedOut) == LinkStep::GiveUp <==> dog.misses == 3,
        dog.reply(LinkEvent::TimedOut) == LinkStep::Wait <==> dog.misses != 3,
        dog.next(LinkEvent::TimedOut).misses == (dog.misses + 1) % 0x1_0000_0000,
        pid < 0x1_0000_0000 && registered ==> dog.reply(LinkEvent::Received { pid, registered })
            == LinkStep::Dispatch(pid as u32),
        pid >= 0x1_0000_0000 || !registered ==> dog.reply(LinkEvent::Received { pid, registered })
            == LinkStep::GiveUp,
        dog.next(LinkEvent::Received { pid, registered }).misses == 0,
        dog.reply(LinkEvent::Broken) == LinkStep::GiveUp,
        dog.next(LinkEvent::Broken) == dog,
{
}

/// A peer sends four heartbeats, one every 5 seconds, in the 20 seconds after which it counts a miss,
/// and so it gives up a silent server after 80 seconds.
pub proof fn law_silence_is_given_up_after_80_seconds()
    ensures
        HEARTBEAT_SECS == 5,
        RECV_TIMEOUT_SECS == 4 * HEARTBEAT_SECS,
        (MAX_MISSES + 1) * RECV_TIMEOUT_SECS == 80,
{
}

} // verus!
