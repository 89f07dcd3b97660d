# verba

The verified core of a desktop dictation app: press a shortcut, speak, and
the transcript is inserted into the application you were using.

- `src/` is the library, written in Verus. It holds the logic of the app —
  hotkey normalization and parsing, the shortcut registration plan, the
  keyboard event-tap decisions, prompt construction, the formatter safety
  check, retries and error messages of the service calls, the recording and
  pipeline steps, transcript history, permission reporting, and the scripts
  and edits used to insert text — each function with a contract, and the
  laws that relate them as proof functions.
- `tests/` exercises the library on concrete values.
- `app/` is the desktop shell around it (window, tray, audio capture,
  network, clipboard and system calls). It performs the I/O and asks the
  library for every decision.
