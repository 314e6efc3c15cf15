# openbolo

The verified core of a push-to-talk dictation tool, written in Verus.

`src/` is the library; every function in it carries a contract that Verus
proves, except two small trusted wrappers in `text`: `to_lowercase` (calls
`str::to_lowercase`, whose result is named `lowercase` rather than restated)
and `push_char` (calls `String::push`). Their contracts are assumed, not
proved.

- `text` — character-level string helpers (prefix, split, join, trim,
  substring search) stated over `Seq<char>`.
- `keys` — keyboard keys and mouse buttons, and the names that shortcut
  strings use for them.
- `shortcuts` — parsing shortcut strings (`mouse:middle`, `key:Alt_R`,
  `combo:Control_L+space`) and the labels shown for them on each platform.
- `grab` — the input-hook state machine: raw key and button events in,
  shortcut events and pass/swallow decisions out, plus shortcut capture for
  the settings window.
- `session` — when a shortcut event starts or stops a recording, and the
  session flags.
- `config` — the settings and the edits the settings and onboarding windows
  make.
- `transcript` — dropping hallucinated segments from the speech model's
  output and joining the rest.

`app/` is the desktop program around it (windows, tray, input hook, audio,
the whisper model, settings files); Verus does not see it.

`tests/` runs the library on concrete inputs.
