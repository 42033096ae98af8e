//! The outbound interaction-event channel: the only way user actions leave
//! the runtime.

use vstd::prelude::*;

use crate::value::Value;

verus! {

/// A user action on a rendered widget. `id` echoes the originating schema
/// node's identity; `payload` is chosen by the renderer that emitted it.
pub struct InteractionEvent {
    pub id: String,
    pub payload: Value,
}

/// A first-in, first-out queue of outbound events. Events accumulate until
/// a subscriber drains them; nothing is ever dropped implicitly, so the
/// channel delivers in emission order per source.
pub struct EventChannel {
    events: Vec<InteractionEvent>,
}

impl View for EventChannel {
    type V = Seq<InteractionEvent>;

    closed spec fn view(&self) -> Seq<InteractionEvent> {
        self.events@
    }
}

impl EventChannel {
    /// An empty channel.
    pub fn new() -> (r: EventChannel)
        ensures
            r@ == Seq::<InteractionEvent>::empty(),
    {
        EventChannel { events: Vec::new() }
    }

    /// Appends one event at the back of the queue.
    pub fn send(&mut self, ev: InteractionEvent)
        ensures
            final(self)@ == old(self)@.push(ev),
    {
        self.events.push(ev);
    }

    /// How many events are waiting.
    pub fn len(&self) -> (n: usize)
        ensures
            n == self@.len(),
    {
        self.events.len()
    }

    /// Takes every waiting event, oldest first, leaving the channel empty.
    pub fn drain(&mut self) -> (out: Vec<InteractionEvent>)
        ensures
            out@ == old(self)@,
            final(self)@ == Seq::<InteractionEvent>::empty(),
    {
        let mut out: Vec<InteractionEvent> = Vec::new();
        core::mem::swap(&mut self.events, &mut out);
        out
    }
}

} // verus!
