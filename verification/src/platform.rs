//! The platform side of a window: the window record itself, and the rules
//! by which the messages of the X11/XCB and Win32 backends become `Event`s.
//!
//! Talking to the display server (opening connections, polling, reading C
//! structures) happens outside this module; what is decided about each
//! message the backend receives is decided here.
use vstd::prelude::*;
use vstd::std_specs::convert::FromSpecImpl;

use crate::event::{Event, EventDeque};
use crate::keys::{virtual_key_key, x11_keysym_key, Key};

verus! {

/// A window: the platform's handle `P` together with the size and position
/// that the window was created with.
pub struct Window<P> {
    plat_win: P,
    width: u16,
    height: u16,
    x: i16,
    y: i16,
}

impl<P> Window<P> {
    pub closed spec fn spec_platform(&self) -> P {
        self.plat_win
    }

    pub closed spec fn spec_width(&self) -> u16 {
        self.width
    }

    pub closed spec fn spec_height(&self) -> u16 {
        self.height
    }

    pub closed spec fn spec_x(&self) -> i16 {
        self.x
    }

    pub closed spec fn spec_y(&self) -> i16 {
        self.y
    }

    /// Records a window around the platform window that the backend created;
    /// `None` when the backend could not create one.
    pub fn new(plat_win: Option<P>, width: u16, height: u16, x: i16, y: i16) -> (win: Option<
        Window<P>,
    >)
        ensures
            plat_win is None <==> win is None,
            win matches Some(w) ==> {
                &&& plat_win == Some(w.spec_platform())
                &&& w.spec_width() == width
                &&& w.spec_height() == height
                &&& w.spec_x() == x
                &&& w.spec_y() == y
            },
    {
        match plat_win {
            None => None,
            Some(plat_win) => Some(Window { plat_win, width, height, x, y }),
        }
    }

    /// The platform's handle of the window, through which the backend talks
    /// to the display server.
    pub fn platform(&self) -> (plat_win: &P)
        ensures
            *plat_win == self.spec_platform(),
    {
        &self.plat_win
    }

    /// The width the window was created with.
    pub fn get_width(&self) -> (width: u16)
        ensures
            width == self.spec_width(),
    {
        self.width
    }

    /// The height the window was created with.
    pub fn get_height(&self) -> (height: u16)
        ensures
            height == self.spec_height(),
    {
        self.height
    }
}

// ---------------------------------------------------------------------------
// X11 / XCB
// ---------------------------------------------------------------------------
/// The kinds of XCB event that the X11 backend acts on.
#[derive(Clone, Copy, Debug, PartialEq, Eq, Structural)]
pub enum XcbEventKind {
    KeyPress,
    KeyRelease,
    ButtonPress,
    ButtonRelease,
    MotionNotify,
    ClientMessage,
    Other,
}

/// The kind of an XCB event, read from the low seven bits of its response
/// type (the top bit only marks an event that another client sent).
pub open spec fn xcb_kind_spec(response_type: u8) -> XcbEventKind {
    let code = response_type % 128;
    if code == 2 {
        XcbEventKind::KeyPress
    } else if code == 3 {
        XcbEventKind::KeyRelease
    } else if code == 4 {
        XcbEventKind::ButtonPress
    } else if code == 5 {
        XcbEventKind::ButtonRelease
    } else if code == 6 {
        XcbEventKind::MotionNotify
    } else if code == 33 {
        XcbEventKind::ClientMessage
    } else {
        XcbEventKind::Other
    }
}

/// Classifies an XCB event by its response type.
pub fn xcb_event_kind(response_type: u8) -> (kind: XcbEventKind)
    ensures
        kind == xcb_kind_spec(response_type),
{
    let code: u8 = response_type & 0x7f;
    assert(code == response_type % 128) by (bit_vector)
        requires
            code == response_type & 0x7f,
    ;
    if code == 2 {
        XcbEventKind::KeyPress
    } else if code == 3 {
        XcbEventKind::KeyRelease
    } else if code == 4 {
        XcbEventKind::ButtonPress
    } else if code == 5 {
        XcbEventKind::ButtonRelease
    } else if code == 6 {
        XcbEventKind::MotionNotify
    } else if code == 33 {
        XcbEventKind::ClientMessage
    } else {
        XcbEventKind::Other
    }
}

/// The column of the keyboard map from which the keysym of a key event is
/// read: 1 when the Shift bit of the event's `detail` is set, else 0.
pub fn keysym_index(detail: u8) -> (index: i32)
    ensures
        index == detail % 2,
{
    let bits: u32 = (detail as u32) & 1;
    assert(bits == (detail as u32) % 2) by (bit_vector)
        requires
            bits == (detail as u32) & 1,
    ;
    bits as i32
}

/// What the X11 backend read from one XCB event: its response type, the
/// `detail` byte (key code or button), the pointer position of a motion
/// event, the keysym of a key event, and the first 32-bit word of a client
/// message.  Fields that the event's kind does not carry are left at 0.
#[derive(Clone, Copy, Debug, PartialEq, Eq, Structural)]
pub struct XcbEvent {
    pub response_type: u8,
    pub detail: u8,
    pub root_x: i16,
    pub root_y: i16,
    pub keysym: u32,
    pub data32_0: u32,
}

/// The event that a mouse button press or release reports: buttons 1, 2 and
/// 3 are the left, middle and right buttons; other buttons report nothing.
pub open spec fn button_event_spec(detail: u8, pressed: bool) -> Option<Event> {
    if detail == 1 {
        Some(if pressed { Event::MouseLeftBtnDown } else { Event::MouseLeftBtnUp })
    } else if detail == 2 {
        Some(if pressed { Event::MouseMidBtnDown } else { Event::MouseMidBtnUp })
    } else if detail == 3 {
        Some(if pressed { Event::MouseRightBtnDown } else { Event::MouseRightBtnUp })
    } else {
        None
    }
}

/// The event, if any, that the X11 backend queues for an XCB event; a client
/// message reports a close request only when it carries the window
/// manager's delete-window atom.
pub open spec fn xcb_event_spec(ev: XcbEvent, wm_delete_win: u32) -> Option<Event> {
    match xcb_kind_spec(ev.response_type) {
        XcbEventKind::KeyPress => Some(Event::KeyDown(x11_keysym_key(ev.keysym))),
        XcbEventKind::KeyRelease => Some(Event::KeyUp(x11_keysym_key(ev.keysym))),
        XcbEventKind::MotionNotify => Some(Event::MouseMove(ev.root_x, ev.root_y)),
        XcbEventKind::ButtonPress => button_event_spec(ev.detail, true),
        XcbEventKind::ButtonRelease => button_event_spec(ev.detail, false),
        XcbEventKind::ClientMessage => if ev.data32_0 == wm_delete_win {
            Some(Event::WinClose)
        } else {
            None
        },
        XcbEventKind::Other => None,
    }
}

fn button_event(detail: u8, pressed: bool) -> (e: Option<Event>)
    ensures
        e == button_event_spec(detail, pressed),
{
    if detail == 1 {
        Some(if pressed { Event::MouseLeftBtnDown } else { Event::MouseLeftBtnUp })
    } else if detail == 2 {
        Some(if pressed { Event::MouseMidBtnDown } else { Event::MouseMidBtnUp })
    } else if detail == 3 {
        Some(if pressed { Event::MouseRightBtnDown } else { Event::MouseRightBtnUp })
    } else {
        None
    }
}

/// Translates one XCB event into the event the application sees.
pub fn translate_xcb_event(ev: &XcbEvent, wm_delete_win: u32) -> (e: Option<Event>)
    ensures
        e == xcb_event_spec(*ev, wm_delete_win),
{
    match xcb_event_kind(ev.response_type) {
        XcbEventKind::KeyPress => Some(Event::KeyDown(Key::from(ev.keysym))),
        XcbEventKind::KeyRelease => Some(Event::KeyUp(Key::from(ev.keysym))),
        XcbEventKind::MotionNotify => Some(Event::MouseMove(ev.root_x, ev.root_y)),
        XcbEventKind::ButtonPress => button_event(ev.detail, true),
        XcbEventKind::ButtonRelease => button_event(ev.detail, false),
        XcbEventKind::ClientMessage => if ev.data32_0 == wm_delete_win {
            Some(Event::WinClose)
        } else {
            None
        },
        XcbEventKind::Other => None,
    }
}

/// Queues the event that an XCB event reports, if it reports one; the events
/// already queued stay as they are, ahead of it.
pub fn queue_xcb_event(ev_que: &mut EventDeque, ev: &XcbEvent, wm_delete_win: u32)
    ensures
        final(ev_que)@ == match xcb_event_spec(*ev, wm_delete_win) {
            Some(e) => old(ev_que)@.push(e),
            None => old(ev_que)@,
        },
        final(ev_que)@ == xcb_queue_after(old(ev_que)@, seq![*ev], wm_delete_win),
{
    match translate_xcb_event(ev, wm_delete_win) {
        Some(e) => ev_que.push_back(e),
        None => {},
    }
    proof {
        let q1 = ev_que@;
        assert(seq![*ev].drop_first() =~= Seq::<XcbEvent>::empty());
        assert(xcb_queue_after(q1, Seq::<XcbEvent>::empty(), wm_delete_win) == q1);
    }
}

/// The queue after the events that a sequence of XCB events reports have
/// been queued, one XCB event after the other.
pub open spec fn xcb_queue_after(q: Seq<Event>, evs: Seq<XcbEvent>, wm_delete_win: u32) -> Seq<
    Event,
>
    decreases evs.len(),
{
    if evs.len() == 0 {
        q
    } else {
        let q1 = match xcb_event_spec(evs[0], wm_delete_win) {
            Some(e) => q.push(e),
            None => q,
        };
        xcb_queue_after(q1, evs.drop_first(), wm_delete_win)
    }
}

/// Queueing the events of a batch of XCB events only adds to the queue: the
/// events already queued stay in front, in order, and each XCB event adds at
/// most one event.
pub proof fn lemma_xcb_batch_only_appends(q: Seq<Event>, evs: Seq<XcbEvent>, wm_delete_win: u32)
    ensures
        q.len() <= xcb_queue_after(q, evs, wm_delete_win).len() <= q.len() + evs.len(),
        xcb_queue_after(q, evs, wm_delete_win).subrange(0, q.len() as int) == q,
    decreases evs.len(),
{
    if evs.len() > 0 {
        let q1 = match xcb_event_spec(evs[0], wm_delete_win) {
            Some(e) => q.push(e),
            None => q,
        };
        lemma_xcb_batch_only_appends(q1, evs.drop_first(), wm_delete_win);
        let r = xcb_queue_after(q, evs, wm_delete_win);
        assert(r.subrange(0, q.len() as int) =~= q1.subrange(0, q1.len() as int).subrange(
            0,
            q.len() as int,
        ));
        assert(q1.subrange(0, q.len() as int) =~= q);
    }
}

/// The kind of an XCB event follows the X protocol's event codes, read from
/// the low seven bits of the response type: KeyPress 2, KeyRelease 3,
/// ButtonPress 4, ButtonRelease 5, MotionNotify 6, ClientMessage 33; and an
/// event with any other code reports nothing.
pub proof fn lemma_xcb_kinds_follow_protocol_codes(ev: XcbEvent, wm_delete_win: u32)
    ensures
        (xcb_kind_spec(ev.response_type) == XcbEventKind::KeyPress) <==> ev.response_type % 128
            == 2,
        (xcb_kind_spec(ev.response_type) == XcbEventKind::KeyRelease) <==> ev.response_type % 128
            == 3,
        (xcb_kind_spec(ev.response_type) == XcbEventKind::ButtonPress) <==> ev.response_type
            % 128 == 4,
        (xcb_kind_spec(ev.response_type) == XcbEventKind::ButtonRelease) <==> ev.response_type
            % 128 == 5,
        (xcb_kind_spec(ev.response_type) == XcbEventKind::MotionNotify) <==> ev.response_type
            % 128 == 6,
        (xcb_kind_spec(ev.response_type) == XcbEventKind::ClientMessage) <==> ev.response_type
            % 128 == 33,
        ev.response_type % 128 != 2 && ev.response_type % 128 != 3 && ev.response_type % 128 != 4
            && ev.response_type % 128 != 5 && ev.response_type % 128 != 6 && ev.response_type % 128
            != 33 ==> xcb_event_spec(ev, wm_delete_win) is None,
        ev.response_type % 128 == 33 ==> (xcb_event_spec(ev, wm_delete_win) == Some(Event::WinClose)
            <==> ev.data32_0 == wm_delete_win),
        ev.response_type % 128 == 33 && ev.data32_0 != wm_delete_win ==> xcb_event_spec(
            ev,
            wm_delete_win,
        ) is None,
{
}

/// Only mouse buttons 1, 2 and 3 report events, on press and release alike:
/// any other button reports nothing, and a press of a button reports an
/// event exactly when its release does.  A press reports a button-down event
/// and a release a button-up event of the same button.
pub proof fn lemma_only_three_buttons_report(ev: XcbEvent, wm_delete_win: u32)
    ensures
        ev.detail != 1 && ev.detail != 2 && ev.detail != 3 ==> button_event_spec(ev.detail, true)
            is None && button_event_spec(ev.detail, false) is None,
        (button_event_spec(ev.detail, true) is Some) <==> (button_event_spec(ev.detail, false) is Some),
        ev.detail == 1 ==> button_event_spec(ev.detail, true) == Some(Event::MouseLeftBtnDown)
            && button_event_spec(ev.detail, false) == Some(Event::MouseLeftBtnUp),
        ev.detail == 2 ==> button_event_spec(ev.detail, true) == Some(Event::MouseMidBtnDown)
            && button_event_spec(ev.detail, false) == Some(Event::MouseMidBtnUp),
        ev.detail == 3 ==> button_event_spec(ev.detail, true) == Some(Event::MouseRightBtnDown)
            && button_event_spec(ev.detail, false) == Some(Event::MouseRightBtnUp),
        ev.response_type % 128 == 4 ==> xcb_event_spec(ev, wm_delete_win) == button_event_spec(
            ev.detail,
            true,
        ),
        ev.response_type % 128 == 5 ==> xcb_event_spec(ev, wm_delete_win) == button_event_spec(
            ev.detail,
            false,
        ),
        ev.response_type % 128 == 6 ==> xcb_event_spec(ev, wm_delete_win) == Some(
            Event::MouseMove(ev.root_x, ev.root_y),
        ),
{
}

/// An event that another client sent (its response type has the top bit
/// set) is translated exactly like the same event sent by the server.
pub proof fn lemma_sent_events_translate_alike(ev: XcbEvent, wm_delete_win: u32)
    requires
        ev.response_type < 128,
    ensures
        xcb_event_spec(XcbEvent { response_type: (ev.response_type + 128) as u8, ..ev }, wm_delete_win)
            == xcb_event_spec(ev, wm_delete_win),
{
    assert(((ev.response_type + 128) as u8) % 128 == ev.response_type % 128);
}

// ---------------------------------------------------------------------------
// Win32
// ---------------------------------------------------------------------------
pub const WM_CREATE: u32 = 0x0001;

pub const WM_DESTROY: u32 = 0x0002;

pub const WM_SIZE: u32 = 0x0005;

pub const WM_CLOSE: u32 = 0x0010;

pub const WM_ERASEBKGND: u32 = 0x0014;

pub const WM_SHOWWINDOW: u32 = 0x0018;

pub const WM_KEYDOWN: u32 = 0x0100;

pub const WM_KEYUP: u32 = 0x0101;

pub const WM_SYSKEYDOWN: u32 = 0x0104;

pub const WM_SYSKEYUP: u32 = 0x0105;

pub const WM_MOUSEMOVE: u32 = 0x0200;

pub const WM_LBUTTONDOWN: u32 = 0x0201;

pub const WM_LBUTTONUP: u32 = 0x0202;

pub const WM_RBUTTONDOWN: u32 = 0x0204;

pub const WM_RBUTTONUP: u32 = 0x0205;

pub const WM_MBUTTONDOWN: u32 = 0x0207;

pub const WM_MBUTTONUP: u32 = 0x0208;

pub const WM_MOUSEWHEEL: u32 = 0x020A;

/// The kind of a Win32 window message, as the Win32 backend names it.
#[derive(Clone, Copy, Debug, PartialEq, Eq, Structural)]
pub enum EventType {
    WinShow,
    WinClose,
    WinResize,
    KeyDown,
    KeyUp,
    MouseMove,
    MouseWheel,
    MouseMidBtnUp,
    MouseMidBtnDown,
    MouseLeftBtnUp,
    MouseLeftBtnDown,
    MouseRightBtnUp,
    MouseRightBtnDown,
    NoEvent,
}

/// The kind of a Win32 window message; system key messages count as key
/// messages, and a message the backend does not know is `NoEvent`.
pub open spec fn message_type_spec(msg: u32) -> EventType {
    if msg == WM_CLOSE {
        EventType::WinClose
    } else if msg == WM_SHOWWINDOW {
        EventType::WinShow
    } else if msg == WM_SIZE {
        EventType::WinResize
    } else if msg == WM_KEYDOWN || msg == WM_SYSKEYDOWN {
        EventType::KeyDown
    } else if msg == WM_KEYUP || msg == WM_SYSKEYUP {
        EventType::KeyUp
    } else if msg == WM_MOUSEMOVE {
        EventType::MouseMove
    } else if msg == WM_MOUSEWHEEL {
        EventType::MouseWheel
    } else if msg == WM_LBUTTONDOWN {
        EventType::MouseLeftBtnDown
    } else if msg == WM_MBUTTONDOWN {
        EventType::MouseMidBtnDown
    } else if msg == WM_RBUTTONDOWN {
        EventType::MouseRightBtnDown
    } else if msg == WM_LBUTTONUP {
        EventType::MouseLeftBtnUp
    } else if msg == WM_MBUTTONUP {
        EventType::MouseMidBtnUp
    } else if msg == WM_RBUTTONUP {
        EventType::MouseRightBtnUp
    } else {
        EventType::NoEvent
    }
}

/// Names the kind of a Win32 window message.
impl From<u32> for EventType {
    fn from(msg: u32) -> (t: EventType) {
        if msg == WM_CLOSE {
            EventType::WinClose
        } else if msg == WM_SHOWWINDOW {
            EventType::WinShow
        } else if msg == WM_SIZE {
            EventType::WinResize
        } else if msg == WM_KEYDOWN || msg == WM_SYSKEYDOWN {
            EventType::KeyDown
        } else if msg == WM_KEYUP || msg == WM_SYSKEYUP {
            EventType::KeyUp
        } else if msg == WM_MOUSEMOVE {
            EventType::MouseMove
        } else if msg == WM_MOUSEWHEEL {
            EventType::MouseWheel
        } else if msg == WM_LBUTTONDOWN {
            EventType::MouseLeftBtnDown
        } else if msg == WM_MBUTTONDOWN {
            EventType::MouseMidBtnDown
        } else if msg == WM_RBUTTONDOWN {
            EventType::MouseRightBtnDown
        } else if msg == WM_LBUTTONUP {
            EventType::MouseLeftBtnUp
        } else if msg == WM_MBUTTONUP {
            EventType::MouseMidBtnUp
        } else if msg == WM_RBUTTONUP {
            EventType::MouseRightBtnUp
        } else {
            EventType::NoEvent
        }
    }
}

impl FromSpecImpl<u32> for EventType {
    open spec fn obeys_from_spec() -> bool {
        true
    }

    open spec fn from_spec(v: u32) -> EventType {
        message_type_spec(v)
    }
}

/// The message code that a kind of Win32 message is sent with; a key press
/// or release goes back to the plain key message (not the system-key one),
/// and `NoEvent` has no code.
pub open spec fn type_message_spec(t: EventType) -> Option<u32> {
    match t {
        EventType::WinClose => Some(WM_CLOSE),
        EventType::WinShow => Some(WM_SHOWWINDOW),
        EventType::WinResize => Some(WM_SIZE),
        EventType::KeyDown => Some(WM_KEYDOWN),
        EventType::KeyUp => Some(WM_KEYUP),
        EventType::MouseMove => Some(WM_MOUSEMOVE),
        EventType::MouseWheel => Some(WM_MOUSEWHEEL),
        EventType::MouseLeftBtnDown => Some(WM_LBUTTONDOWN),
        EventType::MouseMidBtnDown => Some(WM_MBUTTONDOWN),
        EventType::MouseRightBtnDown => Some(WM_RBUTTONDOWN),
        EventType::MouseLeftBtnUp => Some(WM_LBUTTONUP),
        EventType::MouseMidBtnUp => Some(WM_MBUTTONUP),
        EventType::MouseRightBtnUp => Some(WM_RBUTTONUP),
        EventType::NoEvent => None,
    }
}

impl EventType {
    /// Converts the kind back into the Win32 message code it stands for.
    pub fn to_message(&self) -> (msg: Option<u32>)
        ensures
            msg == type_message_spec(*self),
    {
        match self {
            EventType::WinClose => Some(WM_CLOSE),
            EventType::WinShow => Some(WM_SHOWWINDOW),
            EventType::WinResize => Some(WM_SIZE),
            EventType::KeyDown => Some(WM_KEYDOWN),
            EventType::KeyUp => Some(WM_KEYUP),
            EventType::MouseMove => Some(WM_MOUSEMOVE),
            EventType::MouseWheel => Some(WM_MOUSEWHEEL),
            EventType::MouseLeftBtnDown => Some(WM_LBUTTONDOWN),
            EventType::MouseMidBtnDown => Some(WM_MBUTTONDOWN),
            EventType::MouseRightBtnDown => Some(WM_RBUTTONDOWN),
            EventType::MouseLeftBtnUp => Some(WM_LBUTTONUP),
            EventType::MouseMidBtnUp => Some(WM_MBUTTONUP),
            EventType::MouseRightBtnUp => Some(WM_RBUTTONUP),
            EventType::NoEvent => None,
        }
    }
}

/// The two conversions undo each other: every kind but `NoEvent` has a
/// message code that `EventType::from` names as that kind, and every message
/// that `EventType::from` names as a kind other than `NoEvent` is given back
/// by `to_message`, except that the system-key messages come back as the
/// plain key messages.
pub proof fn lemma_message_type_round_trip(t: EventType, msg: u32)
    ensures
        t != EventType::NoEvent ==> (type_message_spec(t) matches Some(m) && message_type_spec(m)
            == t),
        t == EventType::NoEvent ==> type_message_spec(t) is None,
        message_type_spec(msg) != EventType::NoEvent && msg != WM_SYSKEYDOWN && msg
            != WM_SYSKEYUP ==> type_message_spec(message_type_spec(msg)) == Some(msg),
        msg == WM_SYSKEYDOWN ==> type_message_spec(message_type_spec(msg)) == Some(WM_KEYDOWN),
        msg == WM_SYSKEYUP ==> type_message_spec(message_type_spec(msg)) == Some(WM_KEYUP),
{
}

/// The kind of an event.
pub open spec fn event_type_spec(e: Event) -> EventType {
    match e {
        Event::WinShow => EventType::WinShow,
        Event::WinClose => EventType::WinClose,
        Event::WinResize => EventType::WinResize,
        Event::KeyDown(_) => EventType::KeyDown,
        Event::KeyUp(_) => EventType::KeyUp,
        Event::MouseMove(_, _) => EventType::MouseMove,
        Event::MouseWheel(_) => EventType::MouseWheel,
        Event::MouseMidBtnUp => EventType::MouseMidBtnUp,
        Event::MouseMidBtnDown => EventType::MouseMidBtnDown,
        Event::MouseLeftBtnUp => EventType::MouseLeftBtnUp,
        Event::MouseLeftBtnDown => EventType::MouseLeftBtnDown,
        Event::MouseRightBtnUp => EventType::MouseRightBtnUp,
        Event::MouseRightBtnDown => EventType::MouseRightBtnDown,
        Event::NoEvent => EventType::NoEvent,
    }
}

/// The low 16 bits of a message parameter, read as a signed value: the x
/// coordinate that an `lParam` carries.
pub open spec fn x_lparam_spec(lp: isize) -> i32 {
    (((lp as u32) & 0xffff) as u16) as i16 as i32
}

/// The high 16 bits of the low 32 bits of `lParam`, read as a signed value:
/// the y coordinate that an `lParam` carries.
pub open spec fn y_lparam_spec(lp: isize) -> i32 {
    ((((lp as u32) >> 16) & 0xffff) as u16) as i16 as i32
}

/// The wheel rotation that a mouse-wheel message's `wParam` carries: bits
/// 16..32, read as a signed value.
pub open spec fn wheel_delta_spec(wp: usize) -> i16 {
    ((((wp as u32) >> 16) & 0xffff) as u16) as i16
}

/// The x coordinate that a message's `lParam` carries.
pub fn get_x_lparam(lp: isize) -> (x: i32)
    ensures
        x == x_lparam_spec(lp),
{
    let bits: u32 = lp as u32;
    let low: u16 = (bits & 0xffff) as u16;
    (low as i16) as i32
}

/// The y coordinate that a message's `lParam` carries.
pub fn get_y_lparam(lp: isize) -> (y: i32)
    ensures
        y == y_lparam_spec(lp),
{
    let bits: u32 = lp as u32;
    let high: u16 = ((bits >> 16) & 0xffff) as u16;
    (high as i16) as i32
}

/// The wheel rotation that a mouse-wheel message's `wParam` carries.
pub fn get_wheel_delta_wparam(wp: usize) -> (delta: i16)
    ensures
        delta == wheel_delta_spec(wp),
{
    let bits: u32 = wp as u32;
    let high: u16 = ((bits >> 16) & 0xffff) as u16;
    high as i16
}

/// How the window procedure answers a message.
#[derive(Clone, Copy, Debug, PartialEq, Eq, Structural)]
pub enum WindowProcReply {
    /// Hand the message on to the default window procedure.
    CallDefault,
    /// Return this value without calling the default window procedure.
    Return(isize),
    /// Post the quit message, then return 0.
    PostQuit,
}

/// What the window procedure does with one message: the event it queues,
/// if any, and how it answers.
#[derive(Clone, Copy, Debug, PartialEq, Eq, Structural)]
pub struct WindowProcOutcome {
    pub event: Option<Event>,
    pub reply: WindowProcReply,
}

/// The event that the Win32 window procedure queues for a message.
pub open spec fn message_event_spec(msg: u32, wparam: usize, lparam: isize) -> Option<Event> {
    if msg == WM_CLOSE {
        Some(Event::WinClose)
    } else if msg == WM_KEYDOWN || msg == WM_SYSKEYDOWN {
        Some(Event::KeyDown(virtual_key_key((wparam as u32) as u16)))
    } else if msg == WM_KEYUP || msg == WM_SYSKEYUP {
        Some(Event::KeyUp(virtual_key_key((wparam as u32) as u16)))
    } else if msg == WM_MOUSEMOVE {
        Some(Event::MouseMove(x_lparam_spec(lparam) as i16, y_lparam_spec(lparam) as i16))
    } else if msg == WM_MOUSEWHEEL {
        if wheel_delta_spec(wparam) < 0 {
            Some(Event::MouseWheel(-1i32))
        } else if wheel_delta_spec(wparam) > 0 {
            Some(Event::MouseWheel(1))
        } else {
            None
        }
    } else if msg == WM_LBUTTONDOWN {
        Some(Event::MouseLeftBtnDown)
    } else if msg == WM_MBUTTONDOWN {
        Some(Event::MouseMidBtnDown)
    } else if msg == WM_RBUTTONDOWN {
        Some(Event::MouseRightBtnDown)
    } else if msg == WM_LBUTTONUP {
        Some(Event::MouseLeftBtnUp)
    } else if msg == WM_MBUTTONUP {
        Some(Event::MouseMidBtnUp)
    } else if msg == WM_RBUTTONUP {
        Some(Event::MouseRightBtnUp)
    } else {
        None
    }
}

/// How the Win32 window procedure answers a message: a close request is
/// answered with 0 (the application decides whether to close), erasing the
/// background is claimed as done, a destroyed window posts the quit message,
/// and every other message goes on to the default window procedure.
pub open spec fn message_reply_spec(msg: u32) -> WindowProcReply {
    if msg == WM_CREATE {
        WindowProcReply::CallDefault
    } else if msg == WM_ERASEBKGND {
        WindowProcReply::Return(1)
    } else if msg == WM_CLOSE {
        WindowProcReply::Return(0)
    } else if msg == WM_DESTROY {
        WindowProcReply::PostQuit
    } else {
        WindowProcReply::CallDefault
    }
}

/// Decides what the Win32 window procedure does with a message.
pub fn window_proc(msg: u32, wparam: usize, lparam: isize) -> (out: WindowProcOutcome)
    ensures
        out.event == message_event_spec(msg, wparam, lparam),
        out.reply == message_reply_spec(msg),
{
    if msg == WM_CREATE {
        return WindowProcOutcome { event: None, reply: WindowProcReply::CallDefault };
    }
    if msg == WM_ERASEBKGND {
        WindowProcOutcome { event: None, reply: WindowProcReply::Return(1) }
    } else if msg == WM_CLOSE {
        WindowProcOutcome { event: Some(Event::WinClose), reply: WindowProcReply::Return(0) }
    } else if msg == WM_DESTROY {
        WindowProcOutcome { event: None, reply: WindowProcReply::PostQuit }
    } else {
        let event = if msg == WM_KEYDOWN || msg == WM_SYSKEYDOWN {
            Some(Event::KeyDown(Key::from_virtual_key(wparam as u32)))
        } else if msg == WM_KEYUP || msg == WM_SYSKEYUP {
            Some(Event::KeyUp(Key::from_virtual_key(wparam as u32)))
        } else if msg == WM_MOUSEMOVE {
            let x = get_x_lparam(lparam);
            let y = get_y_lparam(lparam);
            Some(Event::MouseMove(x as i16, y as i16))
        } else if msg == WM_MOUSEWHEEL {
            let z_delta = get_wheel_delta_wparam(wparam);
            if z_delta < 0 {
                Some(Event::MouseWheel(-1i32))
            } else if z_delta > 0 {
                Some(Event::MouseWheel(1))
            } else {
                None
            }
        } else if msg == WM_LBUTTONDOWN {
            Some(Event::MouseLeftBtnDown)
        } else if msg == WM_MBUTTONDOWN {
            Some(Event::MouseMidBtnDown)
        } else if msg == WM_RBUTTONDOWN {
            Some(Event::MouseRightBtnDown)
        } else if msg == WM_LBUTTONUP {
            Some(Event::MouseLeftBtnUp)
        } else if msg == WM_MBUTTONUP {
            Some(Event::MouseMidBtnUp)
        } else if msg == WM_RBUTTONUP {
            Some(Event::MouseRightBtnUp)
        } else {
            None
        };
        WindowProcOutcome { event, reply: WindowProcReply::CallDefault }
    }
}

/// Every event that the Win32 window procedure queues is of the kind that
/// `EventType::from` names for the message it came from.
pub proof fn lemma_window_proc_events_match_message_type(msg: u32, wparam: usize, lparam: isize)
    ensures
        message_event_spec(msg, wparam, lparam) matches Some(e) ==> event_type_spec(e)
            == message_type_spec(msg),
{
}

/// The lParam that carries the pointer position (x, y): the 16-bit words of
/// y and x, high and low.
pub open spec fn position_lparam(x: i16, y: i16) -> isize {
    (((y as u16 as u32) << 16) | (x as u16 as u32)) as isize
}

/// The wParam of a mouse-wheel message that turns the wheel by `delta`.
pub open spec fn wheel_wparam(delta: i16) -> usize {
    ((delta as u16 as u32) << 16) as usize
}

/// A pointer position is decoded whole: the lParam that carries (x, y)
/// gives back x and y, for every pair of signed 16-bit coordinates, and a
/// mouse-move message with that lParam queues the move to (x, y).
pub proof fn lemma_position_round_trip(x: i16, y: i16, wparam: usize)
    ensures
        x_lparam_spec(position_lparam(x, y)) == x as i32,
        y_lparam_spec(position_lparam(x, y)) == y as i32,
        message_event_spec(WM_MOUSEMOVE, wparam, position_lparam(x, y)) == Some(
            Event::MouseMove(x, y),
        ),
{
    let w: u32 = ((y as u16 as u32) << 16) | (x as u16 as u32);
    let lp: isize = w as isize;
    assert(lp as u32 == w) by (bit_vector)
        requires
            lp == w as isize,
    ;
    assert((((w & 0xffff) as u16) as i16) == x) by (bit_vector)
        requires
            w == ((y as u16 as u32) << 16) | (x as u16 as u32),
    ;
    assert(((((w >> 16) & 0xffff) as u16) as i16) == y) by (bit_vector)
        requires
            w == ((y as u16 as u32) << 16) | (x as u16 as u32),
    ;
}

/// A wheel rotation is decoded whole: the wParam that carries a rotation
/// `delta` gives back `delta`, for every signed 16-bit rotation; a mouse-wheel
/// message reports one step forward for every positive rotation, one step
/// back for every negative one, and nothing for none.
pub proof fn lemma_wheel_delta_round_trip(delta: i16, lparam: isize)
    ensures
        wheel_delta_spec(wheel_wparam(delta)) == delta,
        delta > 0 ==> message_event_spec(WM_MOUSEWHEEL, wheel_wparam(delta), lparam) == Some(
            Event::MouseWheel(1),
        ),
        delta < 0 ==> message_event_spec(WM_MOUSEWHEEL, wheel_wparam(delta), lparam) == Some(
            Event::MouseWheel(-1i32),
        ),
        delta == 0 ==> message_event_spec(WM_MOUSEWHEEL, wheel_wparam(delta), lparam) is None,
{
    let w: u32 = (delta as u16 as u32) << 16;
    let wp: usize = w as usize;
    assert(wp as u32 == w) by (bit_vector)
        requires
            wp == w as usize,
    ;
    assert(((((w >> 16) & 0xffff) as u16) as i16) == delta) by (bit_vector)
        requires
            w == (delta as u16 as u32) << 16,
    ;
}

/// Only the close, erase-background and destroy messages are answered by
/// the window procedure itself; every other message, whatever its
/// parameters, goes on to the default window procedure.  Only the close
/// message and the key, pointer and button messages queue an event.
pub proof fn lemma_other_messages_go_to_default(msg: u32, wparam: usize, lparam: isize)
    ensures
        msg != WM_ERASEBKGND && msg != WM_CLOSE && msg != WM_DESTROY ==> message_reply_spec(msg)
            == WindowProcReply::CallDefault,
        msg == WM_ERASEBKGND ==> message_reply_spec(msg) == WindowProcReply::Return(1),
        msg == WM_CLOSE ==> message_reply_spec(msg) == WindowProcReply::Return(0),
        msg == WM_DESTROY ==> message_reply_spec(msg) == WindowProcReply::PostQuit,
        msg != WM_CLOSE && msg != WM_KEYDOWN && msg != WM_SYSKEYDOWN && msg != WM_KEYUP && msg
            != WM_SYSKEYUP && msg != WM_MOUSEMOVE && msg != WM_MOUSEWHEEL && msg != WM_LBUTTONDOWN
            && msg != WM_MBUTTONDOWN && msg != WM_RBUTTONDOWN && msg != WM_LBUTTONUP && msg
            != WM_MBUTTONUP && msg != WM_RBUTTONUP ==> message_event_spec(msg, wparam, lparam) is None,
{
}

/// A system key message is handled exactly like the plain key message.
pub proof fn lemma_system_keys_alike(wparam: usize, lparam: isize)
    ensures
        message_event_spec(WM_SYSKEYDOWN, wparam, lparam) == message_event_spec(
            WM_KEYDOWN,
            wparam,
            lparam,
        ),
        message_event_spec(WM_SYSKEYUP, wparam, lparam) == message_event_spec(
            WM_KEYUP,
            wparam,
            lparam,
        ),
        message_reply_spec(WM_SYSKEYDOWN) == message_reply_spec(WM_KEYDOWN),
        message_reply_spec(WM_SYSKEYUP) == message_reply_spec(WM_KEYUP),
{
}

} // verus!
