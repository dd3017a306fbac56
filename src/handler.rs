use vstd::prelude::*;

use std::sync::mpsc::Receiver;

use crate::events::{resolve, resolve_events, GameAction, ServerEvent};

verus! {

#[verifier::external_type_specification]
#[verifier::external_body]
#[verifier::reject_recursive_types(T)]
pub struct ExReceiver<T>(std::sync::mpsc::Receiver<T>);

/// Relies on `std::sync::mpsc::Receiver::try_recv`: the oldest queued event,
/// taken without waiting, or `None` when nothing is queued or every sender
/// is gone. What is queued depends on the connection handlers, so nothing is
/// promised of it.
#[verifier::external_body]
fn try_next(receiver: &Receiver<ServerEvent>) -> (r: Option<ServerEvent>) {
    receiver.try_recv().ok()
}

/// The game loop's end of the event channel.
pub struct ServerEventHandler {
    receiver: Receiver<ServerEvent>,
    /// The batch that the latest drain handed out.
    drained: Ghost<Seq<ServerEvent>>,
}

impl ServerEventHandler {
    /// The batch that the latest drain handed out, oldest first.
    pub closed spec fn last_batch(&self) -> Seq<ServerEvent> {
        self.drained@
    }

    /// Takes the consumer end of a fresh channel.
    pub fn new(receiver: Receiver<ServerEvent>) -> (r: Self)
        ensures
            r.last_batch() == Seq::<ServerEvent>::empty(),
    {
        ServerEventHandler { receiver, drained: Ghost(Seq::empty()) }
    }

    /// Drains, without blocking, every event queued at this moment, oldest
    /// first.
    pub fn check_events(&mut self) -> (r: Vec<ServerEvent>)
        ensures
            final(self).last_batch() == r@,
    {
        let mut events: Vec<ServerEvent> = Vec::new();
        while events.len() < usize::MAX
            decreases usize::MAX - events.len(),
        {
            match try_next(&self.receiver) {
                Some(event) => events.push(event),
                None => break,
            }
        }
        self.drained = Ghost(events@);
        events
    }

    /// Once per tick: drains the channel and resolves the batch to at most
    /// one command, that of the earliest event whose magnitude reaches
    /// `peak_min`. Never blocks.
    pub fn process_events_for_game(&mut self, peak_min: i64) -> (r: Option<GameAction>)
        ensures
            r == resolve(final(self).last_batch(), peak_min as int),
    {
        let events = self.check_events();
        resolve_events(&events, peak_min)
    }
}

} // verus!
