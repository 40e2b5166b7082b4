//! The application: one window, the queue of its events, and whether the
//! application is still running.
use vstd::prelude::*;

use crate::event::{poll_spec, Event, EventDeque, EventManager};
use crate::platform::Window;

verus! {

/// The calls through which an application is used.
#[derive(Clone, Copy, Debug, PartialEq, Eq, Structural)]
pub enum AppCall {
    PollEvents,
    Quit,
    IsRunning,
    GetWindowRef,
}

/// What one call may do to an application: polling keeps the window and
/// whether the application runs, quitting stops it and keeps its window and
/// events, and the reading calls change nothing.
pub open spec fn app_step<P>(pre: App<P>, call: AppCall, post: App<P>) -> bool {
    match call {
        AppCall::PollEvents => post.spec_running() == pre.spec_running() && post.spec_window()
            == pre.spec_window(),
        AppCall::Quit => !post.spec_running() && post.spec_events() == pre.spec_events()
            && post.spec_window() == pre.spec_window(),
        AppCall::IsRunning => post == pre,
        AppCall::GetWindowRef => post == pre,
    }
}

/// An application around one window whose platform handle is `P`.
pub struct App<P> {
    window: Window<P>,
    event_manager: EventManager,
    running: bool,
}

impl<P> App<P> {
    /// The application's window.
    pub closed spec fn spec_window(&self) -> Window<P> {
        self.window
    }

    /// The events that have arrived and not yet been handed out, oldest first.
    pub closed spec fn spec_events(&self) -> Seq<Event> {
        self.event_manager@
    }

    /// Whether the application is still running.
    pub closed spec fn spec_running(&self) -> bool {
        self.running
    }

    /// Creates the application around the platform window that the backend
    /// created, with an empty event queue, running; `None` when the backend
    /// could not create a window.
    pub fn create(plat_win: Option<P>, x: i16, y: i16, width: u16, height: u16) -> (app: Option<
        Self,
    >)
        ensures
            plat_win is None <==> app is None,
            app matches Some(a) ==> {
                &&& plat_win == Some(a.spec_window().spec_platform())
                &&& a.spec_window().spec_width() == width
                &&& a.spec_window().spec_height() == height
                &&& a.spec_window().spec_x() == x
                &&& a.spec_window().spec_y() == y
                &&& a.spec_events() == Seq::<Event>::empty()
                &&& a.spec_running()
            },
    {
        let proto_window = Window::new(plat_win, width, height, x, y);
        match proto_window {
            None => None,
            Some(window) => Some(App { window, event_manager: EventManager::new(), running: true }),
        }
    }

    /// Queues the events that the window has just reported, behind those
    /// already waiting, and hands out the oldest waiting event; `None` when
    /// no event is waiting.  Whether the application runs is not changed.
    pub fn poll_events(&mut self, incoming: EventDeque) -> (e: Option<Event>)
        ensures
            (e, final(self).spec_events()) == poll_spec(old(self).spec_events() + incoming@),
            final(self).spec_running() == old(self).spec_running(),
            final(self).spec_window() == old(self).spec_window(),
            app_step(*old(self), AppCall::PollEvents, *final(self)),
    {
        let mut incoming = incoming;
        let que = self.event_manager.get_event_que();
        que.append(&mut incoming);
        self.event_manager.poll_events()
    }

    /// Stops the application: from here on it reports that it is not running.
    pub fn quit(&mut self)
        ensures
            !final(self).spec_running(),
            final(self).spec_events() == old(self).spec_events(),
            final(self).spec_window() == old(self).spec_window(),
            app_step(*old(self), AppCall::Quit, *final(self)),
    {
        self.running = false;
    }

    /// Whether the application is still running.
    pub fn is_running(&self) -> (running: bool)
        ensures
            running == self.spec_running(),
    {
        self.running
    }

    /// The application's window.
    pub fn get_window_ref(&self) -> (window: &Window<P>)
        ensures
            *window == self.spec_window(),
    {
        &self.window
    }
}

/// An application runs from its creation until the first call of `quit`,
/// and is stopped for good after it: along any sequence of calls, each
/// state is running exactly when no `quit` came before it.
pub proof fn lemma_runs_until_quit<P>(trace: Seq<App<P>>, calls: Seq<AppCall>)
    requires
        trace.len() == calls.len() + 1,
        trace[0].spec_running(),
        forall|i: int| 0 <= i < calls.len() ==> app_step(#[trigger] trace[i], calls[i], trace[i + 1]),
    ensures
        forall|i: int|
            0 <= i < trace.len() ==> #[trigger] trace[i].spec_running() == !calls.subrange(
                0,
                i,
            ).contains(AppCall::Quit),
    decreases calls.len(),
{
    if calls.len() > 0 {
        let n = calls.len() - 1;
        let trace0 = trace.subrange(0, n + 1);
        let calls0 = calls.subrange(0, n);
        assert forall|i: int| 0 <= i < calls0.len() implies app_step(
            #[trigger] trace0[i],
            calls0[i],
            trace0[i + 1],
        ) by {
            assert(app_step(trace[i], calls[i], trace[i + 1]));
        }
        lemma_runs_until_quit(trace0, calls0);
        assert forall|i: int| 0 <= i < trace.len() implies #[trigger] trace[i].spec_running()
            == !calls.subrange(0, i).contains(AppCall::Quit) by {
            if i <= n {
                assert(trace0[i] == trace[i]);
                assert(calls0.subrange(0, i) =~= calls.subrange(0, i));
            } else {
                assert(trace0[n] == trace[n]);
                assert(calls0.subrange(0, n) =~= calls.subrange(0, n));
                assert(calls.subrange(0, i) =~= calls.subrange(0, n).push(calls[n]));
                assert(app_step(trace[n], calls[n], trace[n + 1]));
                if calls[n] == AppCall::Quit {
                    assert(calls.subrange(0, i).contains(AppCall::Quit)) by {
                        assert(calls.subrange(0, i)[n] == AppCall::Quit);
                    }
                } else {
                    if calls.subrange(0, i).contains(AppCall::Quit) {
                        let k = choose|k: int|
                            0 <= k < calls.subrange(0, i).len() && calls.subrange(0, i)[k]
                                == AppCall::Quit;
                        assert(k < n);
                        assert(calls.subrange(0, n)[k] == AppCall::Quit);
                    }
                }
            }
        }
    }
}

} // verus!
