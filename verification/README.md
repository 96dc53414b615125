# maple-alarm

A small always-on-top countdown window for Windows: it counts down (110 s by
default, or the length given with `--seconds <n>`), beeps and blinks when the
count reaches zero, and restarts when the alarm is confirmed.

- `src/` is the verified library: the countdown state and its one-second step
  (`state`), the window's state machine (`ui`), the sound thread's state machine
  and the requests sent to it (`alarm`), the WAVE file layout (`wav`), the clock
  and menu texts (`text`), command-line parsing (`args`), the single-instance
  decision (`instance`) and the colours (`palette`).
- `app/` is the Windows program around it: the native-windows-gui window, the
  Win32 calls, the threads, and the sine samples (floating point).
- `tests/` runs the library on concrete values.
