# event_loop

The platform independent core of a window event loop, written and verified in
Verus.

- `src/` holds the library. `event_loop` has the loop and its proxies,
  `builder` and `creation` how a program comes to its one loop, `run_state` the
  states of a loop and what each operation does to them, `control_flow` what the
  handler can ask of a running loop, `window_target`, `device_events` and
  `backend` what is known of the window system, `serial` the numbering of
  requests, `clock` the points in time. `laws` states what holds whatever is
  done to a loop.
- `app/` drives the loop on a window system and shares it between threads.
- `tests/` runs the library on concrete values.
