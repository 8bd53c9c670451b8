//! What a handler gets when it runs: who called, with which arguments, and
//! the channel to answer on.

use vstd::prelude::*;
use crate::stbchat::packet::{ServerPacket, ServerPacketModel};

verus! {

/// The state of one command invocation. It is built for one dispatch and
/// owned by the handler that runs.
pub struct Context<C> {
    /// The user who executed the command
    pub executor: String,
    /// Arguments that the executor passed
    pub args: Vec<String>,
    /// Target channel of user
    pub channel: C,
}

/// The handle to a session's write side. It queues whole packets; the one
/// writer of the session frames them in the order in which they were sent.
#[derive(Debug, Clone, Default, PartialEq, Eq)]
pub struct Channel {
    /// The packets sent and not written yet, oldest first.
    pub outbox: Vec<ServerPacket>,
}

impl View for Channel {
    type V = Seq<ServerPacketModel>;

    open spec fn view(&self) -> Seq<ServerPacketModel> {
        self.outbox@.map_values(|p: ServerPacket| p@)
    }
}

impl Channel {
    /// A channel on which nothing was sent yet.
    pub fn new() -> (r: Self)
        ensures
            r@ == Seq::<ServerPacketModel>::empty(),
    {
        let r = Channel { outbox: Vec::new() };
        assert(r@ =~= Seq::<ServerPacketModel>::empty());
        r
    }

    /// Sends a chat message: exactly one `Message` packet joins the queue,
    /// behind everything sent before.
    pub fn send(&mut self, message: &str)
        ensures
            final(self)@ == old(self)@.push(ServerPacketModel::Message { message: message@ }),
    {
        self.outbox.push(ServerPacket::Message { message: String::from_str(message) });
        assert(self@ =~= old(self)@.push(ServerPacketModel::Message { message: message@ }));
    }

    /// Hands the queued packets to the writer, oldest first, and leaves the
    /// queue empty.
    pub fn take_outbox(&mut self) -> (r: Vec<ServerPacket>)
        ensures
            r@.map_values(|p: ServerPacket| p@) == old(self)@,
            final(self)@ == Seq::<ServerPacketModel>::empty(),
    {
        let mut taken: Vec<ServerPacket> = Vec::new();
        std::mem::swap(&mut self.outbox, &mut taken);
        assert(self@ =~= Seq::<ServerPacketModel>::empty());
        taken
    }
}

} // verus!
