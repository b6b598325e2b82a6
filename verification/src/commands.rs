//! Outbound gateway commands and the ordered, coalescing command queue.

use vstd::prelude::*;

verus! {

/// The presence a client can advertise.
#[derive(Debug, Clone, Copy, PartialEq, Eq, Structural)]
pub enum PresenceStatus {
    Online,
    Idle,
    Dnd,
    Invisible,
}

/// The wire name of each presence status.
pub open spec fn spec_status_name(s: PresenceStatus) -> Seq<char> {
    match s {
        PresenceStatus::Online => "online"@,
        PresenceStatus::Idle => "idle"@,
        PresenceStatus::Dnd => "dnd"@,
        PresenceStatus::Invisible => "invisible"@,
    }
}

impl PresenceStatus {
    /// Wire name of the status.
    pub fn wire_name(&self) -> (r: &'static str)
        ensures
            r@ == spec_status_name(*self),
    {
        match self {
            PresenceStatus::Online => "online",
            PresenceStatus::Idle => "idle",
            PresenceStatus::Dnd => "dnd",
            PresenceStatus::Invisible => "invisible",
        }
    }
}

/// A command this client can send over the gateway connection.
#[derive(Debug, Clone)]
pub enum GatewayCommand {
    /// Full session establishment with credentials and intents.
    Identify { token: String, intents: u64 },
    /// Session resumption replaying events after `seq`.
    Resume { token: String, session_id: String, seq: u64 },
    /// Keep-alive carrying the last dispatch sequence seen, if any.
    Heartbeat { ack_seq: Option<u64> },
    /// Presence change requested by a collaborator.
    UpdatePresence { status: PresenceStatus },
    /// Notice that the local user is typing in a channel.
    TypingStart { channel_id: String },
}

impl GatewayCommand {
    /// The command is a presence update, the one kind the queue coalesces.
    pub open spec fn spec_is_presence(self) -> bool {
        self is UpdatePresence
    }

    /// Executable twin of [`GatewayCommand::spec_is_presence`].
    pub fn is_presence(&self) -> (r: bool)
        ensures
            r == self.spec_is_presence(),
    {
        match self {
            GatewayCommand::UpdatePresence { .. } => true,
            _ => false,
        }
    }
}

/// Outbound queue: commands leave in the order they were enqueued, except
/// that a queued presence update still waiting to be sent is replaced in
/// place by a newer one.  Heartbeat, identify and resume commands are never
/// coalesced or dropped.
pub struct CommandQueue {
    items: Vec<GatewayCommand>,
}

impl CommandQueue {
    /// The queued commands, oldest first.
    pub closed spec fn view_items(self) -> Seq<GatewayCommand> {
        self.items@
    }

    /// At most one presence update is ever waiting.
    pub closed spec fn wf(self) -> bool {
        forall|i: int, j: int|
            #![trigger self.items@[i], self.items@[j]]
            0 <= i < j < self.items@.len() && self.items@[i].spec_is_presence()
                ==> !self.items@[j].spec_is_presence()
    }

    /// An empty queue.
    pub fn new() -> (q: CommandQueue)
        ensures
            q.view_items() == Seq::<GatewayCommand>::empty(),
            q.wf(),
    {
        CommandQueue { items: Vec::new() }
    }

    /// Number of waiting commands.
    pub fn len(&self) -> (n: usize)
        ensures
            n == self.view_items().len(),
    {
        self.items.len()
    }

    /// Enqueues `c`.  A presence update replaces the waiting presence
    /// update in place if there is one; every other command, and a
    /// presence update when none is waiting, is appended at the end.
    pub fn enqueue(&mut self, c: GatewayCommand)
        requires
            old(self).wf(),
        ensures
            final(self).wf(),
            if c.spec_is_presence() && (exists|i: int|
                0 <= i < old(self).view_items().len() && old(self).view_items()[i].spec_is_presence()) {
                exists|i: int|
                    0 <= i < old(self).view_items().len() && old(self).view_items()[i].spec_is_presence()
                        && final(self).view_items() == old(self).view_items().update(i, c)
            } else {
                final(self).view_items() == old(self).view_items().push(c)
            },
    {
        if c.is_presence() {
            let n = self.items.len();
            let mut i: usize = 0;
            while i < n
                invariant
                    0 <= i <= n,
                    n == self.items@.len(),
                    old(self).wf(),
                    self.items@ == old(self).items@,
                    c.spec_is_presence(),
                    forall|k: int| 0 <= k < i ==> !(#[trigger] self.items@[k]).spec_is_presence(),
                decreases n - i,
            {
                if self.items[i].is_presence() {
                    self.items.remove(i);
                    self.items.insert(i, c);
                    proof {
                        assert(self.items@ =~= old(self).items@.update(i as int, c));
                        assert forall|a: int, b: int|
                            #![trigger self.items@[a], self.items@[b]]
                            0 <= a < b < self.items@.len() && self.items@[a].spec_is_presence()
                                implies !self.items@[b].spec_is_presence() by {
                            if a != i && b != i {
                                assert(old(self).items@[a].spec_is_presence());
                            } else if a == i {
                                assert(old(self).items@[b] == self.items@[b]);
                                assert(old(self).items@[i as int].spec_is_presence());
                            }
                        }
                    }
                    return ;
                }
                i = i + 1;
            }
            self.items.push(c);
            proof {
                assert forall|a: int, b: int|
                    #![trigger self.items@[a], self.items@[b]]
                    0 <= a < b < self.items@.len() && self.items@[a].spec_is_presence()
                        implies !self.items@[b].spec_is_presence() by {
                    if b + 1 == self.items@.len() {
                        assert(old(self).items@[a].spec_is_presence());
                    }
                }
            }
        } else {
            self.items.push(c);
            proof {
                assert forall|a: int, b: int|
                    #![trigger self.items@[a], self.items@[b]]
                    0 <= a < b < self.items@.len() && self.items@[a].spec_is_presence()
                        implies !self.items@[b].spec_is_presence() by {
                    if b + 1 < self.items@.len() {
                        assert(old(self).items@[a].spec_is_presence());
                    }
                }
            }
        }
    }

    /// Takes the oldest waiting command, if any.
    pub fn dequeue(&mut self) -> (r: Option<GatewayCommand>)
        requires
            old(self).wf(),
        ensures
            final(self).wf(),
            match r {
                Some(c) => old(self).view_items().len() > 0 && c == old(self).view_items()[0]
                    && final(self).view_items() == old(self).view_items().subrange(
                    1,
                    old(self).view_items().len() as int,
                ),
                None => old(self).view_items().len() == 0 && final(self).view_items() == old(
                    self,
                ).view_items(),
            },
    {
        if self.items.len() == 0 {
            None
        } else {
            let c = self.items.remove(0);
            proof {
                assert forall|a: int, b: int|
                    #![trigger self.items@[a], self.items@[b]]
                    0 <= a < b < self.items@.len() && self.items@[a].spec_is_presence()
                        implies !self.items@[b].spec_is_presence() by {
                    assert(old(self).items@[a + 1].spec_is_presence());
                    assert(self.items@[b] == old(self).items@[b + 1]);
                }
            }
            Some(c)
        }
    }
}

} // verus!
