# rovella

A small windowing layer aimed at 2D games: it opens a platform window
(XCB/Xlib on Linux, Win32 on Windows), turns the platform's messages into
`Event`s, queues them, and hands them to the application oldest first.

- `src/` is the verified library:
  - `keys.rs`: `Key` and the X11-keysym and Win32-virtual-key tables;
  - `event.rs`: `Event`, its display names, and the event queue;
  - `platform.rs`: the window record, how XCB events and Win32 window
    messages become events, and how the Win32 window procedure answers;
  - `application.rs`: `App`, which runs until it is told to quit.
- `app/` is the example program: the platform code that talks to the
  display server, and a small wgpu renderer.
- `tests/` exercise the library, including the key tables against the
  keysym constants of the `x11` crate.
