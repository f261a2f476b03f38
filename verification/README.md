# cfph_launcher

A launcher for CrossFire PH on Windows that first deals with Riot Vanguard,
whose kernel driver keeps the game's anti-cheat driver from loading.

The decisions of the launcher live in the verified library under `src/`:

- `text`: UTF-16 encoding for Win32 wide strings, lossy UTF-16 decoding,
  trimming and ASCII case folding of executable names, decimal rendering.
- `process`: recognising `vgc.exe` / `vgtray.exe` in a process snapshot,
  reading the state of the `vgk` service, and the summary of what was found.
- `service_stop`: the graceful stop of a service as a state machine with a
  bounded number of status polls.
- `dialog`: the guide window's layout, label colours and the reaction to
  each window message (timers, buttons, re-checks for Vanguard).
- `launcher`: the course from the first scan to the game's launch, the
  resolution of the game's path, and the texts shown to the user.

`app/` is the Windows program around it: Win32 calls through the `windows`
crate, printing, process spawning, and the window procedure that feeds
messages to the library and carries out the actions it returns.
