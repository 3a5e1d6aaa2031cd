# d2rlauncher

A small launcher for Diablo II: Resurrected: it shows the three Battle.net
regions with their ping, selects one, optionally counts down, and starts the
game through Steam or by running `D2R.exe` directly.

- `src/` is the verified library: regions, configuration fields, launch
  planning (Steam URI, executable candidates), the countdown, the launcher's
  message handling, what the window shows, and ping averaging. Each function
  carries a contract, and the laws that tie them together are proof functions.
- `app/` is the program around it: the FLTK window, reading and writing
  `config.json`, spawning processes, sending pings, and logging.
- `tests/` exercises the library on concrete values.
