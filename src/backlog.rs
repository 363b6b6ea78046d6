//! The queue of decoded events that a window hands out one at a time.
use vstd::prelude::*;

use crate::controller::{decoded, parse_key_events, ButtonArgs, LibnxKeyState};

verus! {

/// The only controller that is read.
pub const CONTROLLER_ID: i32 = 1;

/// The events that one input tick adds to the backlog: the pressed mask's,
/// then the released mask's, then the held mask's.
pub open spec fn tick_events(pressed: u32, released: u32, held: u32) -> Seq<ButtonArgs> {
    decoded(CONTROLLER_ID, LibnxKeyState::Down, pressed) + decoded(
        CONTROLLER_ID,
        LibnxKeyState::Up,
        released,
    ) + decoded(CONTROLLER_ID, LibnxKeyState::Held, held)
}

/// The backlog after a tick's events are appended to `backlog`.
pub open spec fn refreshed(backlog: Seq<ButtonArgs>, pressed: u32, released: u32, held: u32) -> Seq<
    ButtonArgs,
> {
    backlog + tick_events(pressed, released, held)
}

/// The event that a poll returns: the oldest of the refreshed backlog, if any.
pub open spec fn polled_event(backlog: Seq<ButtonArgs>, pressed: u32, released: u32, held: u32) -> Option<
    ButtonArgs,
> {
    let all = refreshed(backlog, pressed, released, held);
    if all.len() == 0 {
        None
    } else {
        Some(all[0])
    }
}

/// The backlog that a poll leaves: the refreshed backlog without the event returned.
pub open spec fn polled_backlog(backlog: Seq<ButtonArgs>, pressed: u32, released: u32, held: u32) -> Seq<
    ButtonArgs,
> {
    let all = refreshed(backlog, pressed, released, held);
    if all.len() == 0 {
        all
    } else {
        all.drop_first()
    }
}

/// Decoded events waiting to be delivered, oldest first.
///
/// Events are delivered in the order in which they arrived, across ticks too.
pub struct EventBacklog {
    events: Vec<ButtonArgs>,
}

impl View for EventBacklog {
    type V = Seq<ButtonArgs>;

    closed spec fn view(&self) -> Seq<ButtonArgs> {
        self.events@
    }
}

impl EventBacklog {
    /// An empty backlog.
    pub fn new() -> (r: EventBacklog)
        ensures
            r@ == Seq::<ButtonArgs>::empty(),
    {
        EventBacklog { events: Vec::new() }
    }

    /// Number of events waiting.
    pub fn len(&self) -> (r: usize)
        ensures
            r == self@.len(),
    {
        self.events.len()
    }

    /// Whether no event is waiting.
    pub fn is_empty(&self) -> (r: bool)
        ensures
            r == (self@.len() == 0),
    {
        self.events.len() == 0
    }

    fn extend(&mut self, more: Vec<ButtonArgs>)
        ensures
            final(self)@ == old(self)@ + more@,
    {
        let ghost start = self@;
        let mut i: usize = 0;
        while i < more.len()
            invariant
                i <= more@.len(),
                self@ == start + more@.subrange(0, i as int),
            decreases more@.len() - i,
        {
            self.events.push(more[i]);
            proof {
                assert(more@.subrange(0, i + 1) == more@.subrange(0, i as int).push(more@[i as int]));
            }
            i = i + 1;
        }
        proof {
            assert(more@.subrange(0, more@.len() as int) == more@);
        }
    }

    /// Decodes one tick's three masks (pressed, released, held) for the
    /// controller and appends the events in that order.
    pub fn check_inputs(&mut self, pressed: u32, released: u32, held: u32)
        ensures
            final(self)@ == refreshed(old(self)@, pressed, released, held),
    {
        let parse_events_d = parse_key_events(CONTROLLER_ID, LibnxKeyState::Down, pressed);
        self.extend(parse_events_d);
        let parse_events_u = parse_key_events(CONTROLLER_ID, LibnxKeyState::Up, released);
        self.extend(parse_events_u);
        let parse_events_h = parse_key_events(CONTROLLER_ID, LibnxKeyState::Held, held);
        self.extend(parse_events_h);
        proof {
            assert(self@ =~= refreshed(old(self)@, pressed, released, held));
        }
    }

    /// One poll: appends the tick's events, then removes and returns the
    /// oldest waiting event, or `None` when none is waiting.
    pub fn poll_event(&mut self, pressed: u32, released: u32, held: u32) -> (r: Option<ButtonArgs>)
        ensures
            r == polled_event(old(self)@, pressed, released, held),
            final(self)@ == polled_backlog(old(self)@, pressed, released, held),
    {
        self.check_inputs(pressed, released, held);
        if self.events.len() == 0 {
            None
        } else {
            let evt = self.events.remove(0);
            proof {
                assert(self@ =~= refreshed(old(self)@, pressed, released, held).drop_first());
            }
            Some(evt)
        }
    }
}

/// A poll refreshes before it pops: the event returned, followed by the backlog
/// left, is the old backlog followed by the tick's events. So when events were
/// already waiting, the oldest of them is returned and every new event stays queued.
pub proof fn lemma_poll_refreshes_first(
    backlog: Seq<ButtonArgs>,
    pressed: u32,
    released: u32,
    held: u32,
)
    ensures
        polled_event(backlog, pressed, released, held) is Some ==> seq![
            polled_event(backlog, pressed, released, held).unwrap(),
        ] + polled_backlog(backlog, pressed, released, held) == refreshed(
            backlog,
            pressed,
            released,
            held,
        ),
        polled_event(backlog, pressed, released, held) is None ==> polled_backlog(
            backlog,
            pressed,
            released,
            held,
        ) == refreshed(backlog, pressed, released, held) && refreshed(
            backlog,
            pressed,
            released,
            held,
        ).len() == 0,
        backlog.len() > 0 ==> polled_event(backlog, pressed, released, held) == Some(backlog[0])
            && polled_backlog(backlog, pressed, released, held) == backlog.drop_first()
            + tick_events(pressed, released, held),
{
    let all = refreshed(backlog, pressed, released, held);
    if all.len() > 0 {
        assert(seq![all[0]] + all.drop_first() =~= all);
    }
    if backlog.len() > 0 {
        assert(all.drop_first() =~= backlog.drop_first() + tick_events(pressed, released, held));
    }
}

/// Whether a timed wait still polls after `elapsed_nanos` of its
/// `timeout_nanos`: a poll at exactly the deadline is still made.
pub fn poll_within_timeout(elapsed_nanos: u128, timeout_nanos: u128) -> (r: bool)
    ensures
        r == (elapsed_nanos <= timeout_nanos),
        timeout_nanos == 0 ==> (r <==> elapsed_nanos == 0),
{
    elapsed_nanos <= timeout_nanos
}

} // verus!
