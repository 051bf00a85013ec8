//! The admin channel: a bounded fire-and-forget queue of notifications.
//!
//! Dispatch is a message-passing handoff — the handler enqueues a composed
//! notification and never waits for it to be read.  Who consumes the queue,
//! and in what order across notifications, is owned by the channel, not by
//! the report handler.  A full queue refuses the handoff and returns the
//! notification to the caller.

use vstd::prelude::*;
use crate::notification::Notification;
use crate::notification::NotificationView;

verus! {

/// The internal delivery path by which moderation messages reach the server
/// administrators: a queue with a fixed capacity.
pub struct AdminChannel {
    limit: usize,
    queue: Vec<Notification>,
}

impl View for AdminChannel {
    type V = Seq<NotificationView>;

    closed spec fn view(&self) -> Seq<NotificationView> {
        self.queue@.map_values(|n: Notification| n@)
    }
}

impl AdminChannel {
    /// The number of notifications the channel can hold at once.
    pub closed spec fn cap(&self) -> nat {
        self.limit as nat
    }

    /// An empty channel that accepts up to `capacity` pending notifications.
    pub fn with_capacity(capacity: usize) -> (c: Self)
        ensures
            c@ =~= Seq::<NotificationView>::empty(),
            c.cap() == capacity,
    {
        AdminChannel { limit: capacity, queue: Vec::new() }
    }

    /// Hands a notification to the channel.  A channel with room accepts it
    /// at the back of the queue; a full channel refuses and gives the
    /// notification back untouched.
    pub fn send(&mut self, n: Notification) -> (r: Result<(), Notification>)
        ensures
            final(self).cap() == old(self).cap(),
            old(self)@.len() < old(self).cap() ==> r == Ok::<(), Notification>(())
                && final(self)@ == old(self)@.push(n@),
            old(self)@.len() >= old(self).cap() ==> r == Err::<(), Notification>(n)
                && final(self)@ == old(self)@,
    {
        if self.queue.len() < self.limit {
            self.queue.push(n);
            proof {
                assert(self@ =~= old(self)@.push(n@));
            }
            Ok(())
        } else {
            Err(n)
        }
    }

    /// The number of notifications pending in the queue.
    pub fn len(&self) -> (l: usize)
        ensures
            l == self@.len(),
    {
        self.queue.len()
    }

    /// The pending notification at position `i`, oldest first.
    pub fn get(&self, i: usize) -> (n: &Notification)
        requires
            i < self@.len(),
        ensures
            n@ == self@[i as int],
    {
        &self.queue[i]
    }
}

/// The durability barrier: the flush-and-confirm step that must succeed
/// before a report is acknowledged.  The model records only whether
/// confirmation is currently possible; the storage it would flush is owned
/// by the surrounding server.
pub struct DurabilityBarrier {
    available: bool,
}

impl DurabilityBarrier {
    /// Whether a flush of this barrier confirms.
    pub closed spec fn is_available(&self) -> bool {
        self.available
    }

    /// A barrier whose flushes confirm exactly when `available` holds.
    pub fn new(available: bool) -> (b: Self)
        ensures
            b.is_available() == available,
    {
        DurabilityBarrier { available }
    }

    /// Confirms that dependent state has been made durable, or reports that
    /// confirmation failed.
    pub fn flush(&self) -> (r: Result<(), ()>)
        ensures
            r is Ok <==> self.is_available(),
    {
        if self.available {
            Ok(())
        } else {
            Err(())
        }
    }
}

} // verus!
