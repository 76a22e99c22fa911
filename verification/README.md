# MacConnect client

A Windows client that controls a Mac mini: over VNC (Apple's Screen Sharing)
or, with a USB HDMI capture card showing the Mac's screen, by streaming
keyboard and mouse events over UDP to a small receiver on the Mac.

## Layout

- `src/` is the verified library (Verus): the packets and messages, the
  key tables, what the hooks, the receiver link, the VNC session and the
  window decide, and the screen updates, each with its contract:
  - `wire` — fixed-width integers in little- and big-endian order;
  - `protocol` — the UDP packets sent to the receiver, and pongs;
  - `keysym` — Windows virtual keys and window-toolkit keys to X11 keysyms;
  - `input` — what the low-level keyboard and mouse hooks do with each event;
  - `link` — the receiver link: pings, pongs, timeouts, LAN discovery;
  - `rfb` — the RFB 3.8 handshake as a state machine, with VNC
    authentication;
  - `vnc` — client messages and the reading of server messages;
  - `framebuffer` — the client's copy of the screen and its updates;
  - `video` — frames, capture devices and the device-switching decision;
  - `ui` — what the window decides each frame (focus loss, the settings
    bar's buttons, F10, F11, the release keys and a click on the screen),
    the pointer, scroll, key and text events of the VNC view, cursor
    visibility, the frame rate and the choice of capture device.
- `tests/` runs the library on concrete values.
- `app/` is the program around it: the egui window, sockets, threads, the
  Windows hooks and the camera, each doing what the library decides. What
  is left there is I/O, the floating-point scaling of the pointer, parsing
  typed addresses and ports with std, and the text shown to the user.
