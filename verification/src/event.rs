//! Events that a window reports, and the first-in first-out queue that holds
//! them until the application asks for them.
use std::collections::VecDeque;
use vstd::prelude::*;

use crate::keys::Key;

verus! {

/// The kind of event that has been triggered, with the data it carries.
#[derive(Clone, Copy, Debug, PartialEq, Eq, Structural)]
pub enum Event {
    // Direct wrapping of platform events
    WinShow,
    WinClose,
    WinResize,
    KeyDown(Key),
    KeyUp(Key),
    MouseMove(i16, i16),
    MouseWheel(i32),
    MouseMidBtnUp,
    MouseMidBtnDown,
    MouseLeftBtnUp,
    MouseLeftBtnDown,
    MouseRightBtnUp,
    MouseRightBtnDown,
    // other
    NoEvent,
}

/// The name under which an event is displayed.  A window that was shown has
/// no name of its own and is displayed as `Unknown`.
pub open spec fn event_name(e: Event) -> Seq<char> {
    match e {
        Event::WinClose => "WinClose"@,
        Event::WinResize => "WinResize"@,
        Event::KeyDown(_) => "KeyDown"@,
        Event::KeyUp(_) => "KeyUp"@,
        Event::MouseMove(_, _) => "MouseMove"@,
        Event::NoEvent => "None"@,
        Event::MouseWheel(_) => "MouseWheel"@,
        Event::MouseMidBtnUp => "MouseMidBtnUp"@,
        Event::MouseMidBtnDown => "MouseMidBtnDown"@,
        Event::MouseLeftBtnUp => "MouseLeftBtnUp"@,
        Event::MouseLeftBtnDown => "MouseLeftBtnDown"@,
        Event::MouseRightBtnUp => "MouseRightBtnUp"@,
        Event::MouseRightBtnDown => "MouseRightBtnDown"@,
        Event::WinShow => "Unknown"@,
    }
}

impl Event {
    /// The event's display name.
    pub fn to_string(&self) -> (s: String)
        ensures
            s@ == event_name(*self),
    {
        match self {
            Event::WinClose => "WinClose".to_owned(),
            Event::WinResize => "WinResize".to_owned(),
            Event::KeyDown(_) => "KeyDown".to_owned(),
            Event::KeyUp(_) => "KeyUp".to_owned(),
            Event::MouseMove(_, _) => "MouseMove".to_owned(),
            Event::NoEvent => "None".to_owned(),
            Event::MouseWheel(_) => "MouseWheel".to_owned(),
            Event::MouseMidBtnUp => "MouseMidBtnUp".to_owned(),
            Event::MouseMidBtnDown => "MouseMidBtnDown".to_owned(),
            Event::MouseLeftBtnUp => "MouseLeftBtnUp".to_owned(),
            Event::MouseLeftBtnDown => "MouseLeftBtnDown".to_owned(),
            Event::MouseRightBtnUp => "MouseRightBtnUp".to_owned(),
            Event::MouseRightBtnDown => "MouseRightBtnDown".to_owned(),
            _ => "Unknown".to_owned(),
        }
    }
}

/// The queue in which a window leaves its events.
pub type EventDeque = VecDeque<Event>;

/// Holds the events that a window reported and hands them out in the order
/// in which they arrived.
pub struct EventManager {
    pub que: EventDeque,
}

impl View for EventManager {
    type V = Seq<Event>;

    open spec fn view(&self) -> Seq<Event> {
        self.que@
    }
}

/// What polling a queue of events gives: the oldest event, if there is one,
/// and the events that are left behind it.
pub open spec fn poll_spec(q: Seq<Event>) -> (Option<Event>, Seq<Event>) {
    if q.len() == 0 {
        (None, q)
    } else {
        (Some(q[0]), q.drop_first())
    }
}

/// What `n` polls in a row give: the events handed out, in order, and the
/// queue that is left.
pub open spec fn poll_many(q: Seq<Event>, n: nat) -> (Seq<Option<Event>>, Seq<Event>)
    decreases n,
{
    if n == 0 {
        (Seq::empty(), q)
    } else {
        let (first, rest) = poll_spec(q);
        let (later, left) = poll_many(rest, (n - 1) as nat);
        (seq![first] + later, left)
    }
}

impl EventManager {
    /// An event manager with an empty queue.
    pub fn new() -> (m: EventManager)
        ensures
            m@ == Seq::<Event>::empty(),
    {
        EventManager { que: EventDeque::new() }
    }

    /// The queue of events, lent out so that a window can add to it.
    pub fn get_event_que(&mut self) -> (que: &mut EventDeque)
        ensures
            que@ == old(self)@,
            final(self)@ == final(que)@,
    {
        &mut self.que
    }

    /// Takes the oldest event out of the queue; `None` when the queue is empty.
    pub fn poll_events(&mut self) -> (e: Option<Event>)
        ensures
            (e, final(self)@) == poll_spec(old(self)@),
    {
        self.que.pop_front()
    }
}

/// Events leave the queue in the order in which they entered it: polling as
/// many times as there are events ahead hands those events out, oldest first,
/// and leaves the events that came after them.
pub proof fn lemma_events_leave_in_order(ahead: Seq<Event>, behind: Seq<Event>)
    ensures
        poll_many(ahead + behind, ahead.len()).0 == ahead.map_values(|e: Event| Some(e)),
        poll_many(ahead + behind, ahead.len()).1 == behind,
    decreases ahead.len(),
{
    if ahead.len() == 0 {
        assert(ahead + behind =~= behind);
        assert(ahead.map_values(|e: Event| Some(e)) =~= Seq::<Option<Event>>::empty());
    } else {
        let rest = ahead.drop_first();
        assert((ahead + behind).drop_first() =~= rest + behind);
        lemma_events_leave_in_order(rest, behind);
        assert(ahead.map_values(|e: Event| Some(e)) =~= seq![Some(ahead[0])]
            + rest.map_values(|e: Event| Some(e)));
    }
}

} // verus!
