# tizen

The decision logic of a set of Tizen platform bindings (dlog logging, the
application framework, input injection, screenshots, native windows and an
egui runner), each function with a proved contract.

* `src/` is the library: tag and priority of a log line, the order of
  lifecycle callbacks, the requests that make a window visible, the window
  surface state machine and the event loops' stop test, key grabs, keymap
  lookups, the off-target answers of the window, input and capture
  openings, capture checks, the capture's step function (with the release
  of its buffers) and buffer layouts, input mapping, the runner's
  per-event step (frame count, redraw and close decisions), the runner's
  options and error texts.
* `app/` holds the platform side: the `log` facade
  backend, the framework main loops and C callbacks, the dynamically loaded
  TBM client, `wl_egl_window`, XKB keymaps, and the driving loop of the
  egui runner over a window and a painter that the platform provides. The
  Wayland connection, window and event sources, the screen capturer, the
  input generator and the egui/GL painter are not part of it.

Tests in `tests/` run the library on concrete values.
