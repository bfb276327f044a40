# buttery_taskbar

Buttery Taskbar keeps the Windows taskbar hidden until it is needed: while
the Windows key is held, while Start or another shell surface is in front,
while the tray menu is open, or when the pointer touches the bottom edge.

`src/` is a Verus-verified library that holds the program's decisions as
functions on plain values, each with a contract:

- `hotkey`, `hotkey_edit`: the toggle shortcut, its registration flags, its
  text, and the field of the settings dialog that records it;
- `config`: the settings and what the tray menu, the toggle shortcut and the
  settings dialog do to them;
- `taskbar`, `worker`: when the taskbar is wanted, which hooks run, the
  shell's auto-hide state, and the worker thread's states, rounds and
  retries;
- `tray`, `messages`, `geometry`, `dialog`: the tray menu, the meaning of
  window and hook messages, screen geometry and the dialog template;
- `wide`, `text`, `words`, `identity`, `keys`: UTF-16 text, number
  formatting, message-word packing, program names and Win32 key codes.

`app/` is the Windows program around it: the message loop, hooks, tray icon,
registry and configuration file. A few choices stay there with the Win32 and
serde code they belong to: the keyboard hook always passes the key on to the
next hook, a configuration file without a `toggle_shortcut` field loads with
the empty shortcut (serde's field default), and the worker thread keeps the
`RetryLoop` of the current round, while the library's `WorkerState` decides
when rounds start and when the worker ends. `tests/` exercise the library on concrete
values and compare its Win32 constants with the `windows-sys` bindings.
