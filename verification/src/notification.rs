//! A persistent, non-modal notification surface: messages wait in order until they are dismissed,
//! and nothing ever blocks on them.

use vstd::prelude::*;

verus! {

/// One non-modal notification: a plain user-facing message.
#[derive(Debug, PartialEq, Eq)]
pub struct Notification {
    pub message: String,
}

impl Clone for Notification {
    fn clone(&self) -> (copy: Self)
        ensures
            copy == *self,
    {
        Notification { message: self.message.clone() }
    }
}

/// An ordered queue of not-yet-dismissed notifications, oldest first.
#[derive(Debug)]
pub struct NotificationCenter {
    pending: Vec<Notification>,
}

impl View for NotificationCenter {
    type V = Seq<Notification>;

    closed spec fn view(&self) -> Seq<Notification> {
        self.pending@
    }
}

impl Default for NotificationCenter {
    fn default() -> (center: Self)
        ensures
            center@ == Seq::<Notification>::empty(),
    {
        NotificationCenter { pending: Vec::new() }
    }
}

impl NotificationCenter {
    pub fn new() -> (center: Self)
        ensures
            center@ == Seq::<Notification>::empty(),
    {
        NotificationCenter { pending: Vec::new() }
    }

    /// Queues `message` as a new notification.
    pub fn push(&mut self, message: String)
        ensures
            final(self)@ == old(self)@.push(Notification { message }),
    {
        self.pending.push(Notification { message });
    }

    pub fn is_empty(&self) -> (empty: bool)
        ensures
            empty == (self@.len() == 0),
    {
        self.pending.len() == 0
    }

    pub fn len(&self) -> (count: usize)
        ensures
            count == self@.len(),
    {
        self.pending.len()
    }

    pub fn pending(&self) -> (pending: &[Notification])
        ensures
            pending@ == self@,
    {
        self.pending.as_slice()
    }

    /// Dismisses every notification.
    pub fn dismiss_all(&mut self)
        ensures
            final(self)@ == Seq::<Notification>::empty(),
    {
        self.pending.clear();
    }
}

} // verus!
