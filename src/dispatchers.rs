use vstd::prelude::*;

use crate::notifications::Notification;

pub mod discord;

verus! {

/// A channel that notifications are queued on and later flushed from.
pub trait EventDispatcher: Sized {
    /// The rendered payloads waiting to be sent, oldest first.
    spec fn queued(&self) -> Seq<Seq<char>>;

    /// The payload a notification is rendered to.
    spec fn rendered(msg: Notification) -> Seq<char>;

    /// Renders `msg` and appends it to the queue; never sends.
    fn send_message(&mut self, msg: &Notification)
        ensures
            final(self).queued() == old(self).queued().push(Self::rendered(*msg)),
    ;

    /// Takes the whole queue, oldest first, leaving it empty.
    fn take_messages(&mut self) -> (r: Vec<String>)
        ensures
            r@.map_values(|s: String| s@) == old(self).queued(),
            final(self).queued() == Seq::<Seq<char>>::empty(),
    ;
}

} // verus!
