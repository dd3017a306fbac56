use vstd::prelude::*;

verus! {

/// One signal taken from a remote controller, or a change in a connection.
#[derive(Debug, Clone, Copy, PartialEq, Eq, Structural)]
pub enum ServerEvent {
    RightPeak(i64),
    LeftPeak(i64),
    ShootPeak(i64),
    ConnectionEstablished,
    ConnectionLost,
}

/// A command for the game loop.
#[derive(Debug, Clone, Copy, PartialEq, Eq, Structural)]
pub enum GameAction {
    MoveRight,
    MoveLeft,
    Shoot,
}

/// The magnitude that an intensity event carries; lifecycle events carry none.
pub open spec fn peak_value(e: ServerEvent) -> Option<i64> {
    match e {
        ServerEvent::RightPeak(v) => Some(v),
        ServerEvent::LeftPeak(v) => Some(v),
        ServerEvent::ShootPeak(v) => Some(v),
        _ => None,
    }
}

/// The command that an intensity event stands for, whatever its magnitude.
pub open spec fn mapped_action(e: ServerEvent) -> Option<GameAction> {
    match e {
        ServerEvent::RightPeak(_) => Some(GameAction::MoveRight),
        ServerEvent::LeftPeak(_) => Some(GameAction::MoveLeft),
        ServerEvent::ShootPeak(_) => Some(GameAction::Shoot),
        _ => None,
    }
}

/// The event reaches the threshold.
pub open spec fn qualifies(e: ServerEvent, peak_min: int) -> bool {
    peak_value(e) is Some && peak_value(e)->Some_0 >= peak_min
}

/// The command that one event resolves to under the threshold.
pub open spec fn action_for(e: ServerEvent, peak_min: int) -> Option<GameAction> {
    if qualifies(e, peak_min) {
        mapped_action(e)
    } else {
        None
    }
}

/// The command that a drained batch resolves to: that of its earliest
/// qualifying event, or none.
pub open spec fn resolve(batch: Seq<ServerEvent>, peak_min: int) -> Option<GameAction>
    decreases batch.len(),
{
    if batch.len() == 0 {
        None
    } else if qualifies(batch[0], peak_min) {
        mapped_action(batch[0])
    } else {
        resolve(batch.drop_first(), peak_min)
    }
}

/// The command for one event, if it reaches `peak_min`.
pub fn event_action(event: &ServerEvent, peak_min: i64) -> (r: Option<GameAction>)
    ensures
        r == action_for(*event, peak_min as int),
{
    match event {
        ServerEvent::RightPeak(v) => {
            if *v >= peak_min {
                Some(GameAction::MoveRight)
            } else {
                None
            }
        },
        ServerEvent::LeftPeak(v) => {
            if *v >= peak_min {
                Some(GameAction::MoveLeft)
            } else {
                None
            }
        },
        ServerEvent::ShootPeak(v) => {
            if *v >= peak_min {
                Some(GameAction::Shoot)
            } else {
                None
            }
        },
        ServerEvent::ConnectionEstablished => None,
        ServerEvent::ConnectionLost => None,
    }
}

/// Goes through a drained batch in order and stops at the first event that
/// reaches `peak_min`; lifecycle events never resolve to a command.
pub fn resolve_events(events: &Vec<ServerEvent>, peak_min: i64) -> (r: Option<GameAction>)
    ensures
        r == resolve(events@, peak_min as int),
{
    let n = events.len();
    let mut i: usize = 0;
    assert(events@.subrange(0, n as int) =~= events@);
    while i < n
        invariant
            n == events@.len(),
            i <= n,
            resolve(events@.subrange(i as int, n as int), peak_min as int) == resolve(
                events@,
                peak_min as int,
            ),
        decreases n - i,
    {
        let rest = Ghost(events@.subrange(i as int, n as int));
        assert(rest@[0] == events@[i as int]);
        assert(rest@.drop_first() =~= events@.subrange(i + 1, n as int));
        let a = event_action(&events[i], peak_min);
        if a.is_some() {
            return a;
        }
        i = i + 1;
    }
    assert(events@.subrange(n as int, n as int).len() == 0);
    None
}

/// A qualifying event, alone in a tick's batch, resolves to its own command.
pub proof fn lemma_single_qualifying_event(e: ServerEvent, peak_min: int)
    requires
        qualifies(e, peak_min),
    ensures
        resolve(seq![e], peak_min) == mapped_action(e),
        mapped_action(e) is Some,
{
}

/// A tick whose batch holds no qualifying event yields no command; in
/// particular, a batch in which every magnitude is below the threshold never
/// yields one, however many events it holds.
pub proof fn lemma_no_qualifying_event_no_action(batch: Seq<ServerEvent>, peak_min: int)
    requires
        forall|i: int| 0 <= i < batch.len() ==> !qualifies(#[trigger] batch[i], peak_min),
    ensures
        resolve(batch, peak_min) is None,
    decreases batch.len(),
{
    if batch.len() > 0 {
        assert(!qualifies(batch[0], peak_min));
        let rest = batch.drop_first();
        assert forall|i: int| 0 <= i < rest.len() implies !qualifies(#[trigger] rest[i], peak_min) by {
            assert(rest[i] == batch[i + 1]);
        }
        lemma_no_qualifying_event_no_action(rest, peak_min);
    }
}

/// A batch with several qualifying events resolves to exactly one command:
/// that of the earliest qualifying event.
pub proof fn lemma_earliest_qualifying_event_wins(batch: Seq<ServerEvent>, peak_min: int, k: int)
    requires
        0 <= k < batch.len(),
        qualifies(batch[k], peak_min),
        forall|j: int| 0 <= j < k ==> !qualifies(#[trigger] batch[j], peak_min),
    ensures
        resolve(batch, peak_min) == mapped_action(batch[k]),
    decreases k,
{
    if k > 0 {
        let rest = batch.drop_first();
        assert(!qualifies(batch[0], peak_min));
        assert(rest[k - 1] == batch[k]);
        assert forall|j: int| 0 <= j < k - 1 implies !qualifies(#[trigger] rest[j], peak_min) by {
            assert(rest[j] == batch[j + 1]);
        }
        lemma_earliest_qualifying_event_wins(rest, peak_min, k - 1);
    }
}

} // verus!
