# scrcpy-pad

Play phone games with keyboard and mouse: keys become taps, holds, swipes and pushes of a
virtual stick on the phone, sent over scrcpy's control channel.

The rules are a verified library in `src/`; `app/` is the window, the threads and the I/O
around it.

| Where | What |
|---|---|
| `control` | commands, and the bytes they travel as |
| `fingers`, `engine` | what is down, and the state of the engine |
| `reconcile`, `buttons`, `session`, `aim` | what keys, mouse motions and time do |
| `laws`, `handover` | what holds of all of it together |
| `keymap`, `turning`, `layout`, `space` | profiles, and their places in pixels |
| `editor`, `history`, `overlay`, `panel` | editing a profile, and what the window shows |
| `adb`, `args`, `suite`, `settings` | scrcpy, its server and adb, and what is remembered |
| `capture`, `keycodes` | input devices and key codes |
| `clock`, `journal`, `selftest`, `filedialog`, `help`, `picture`, `theme`, `text` | the rest |

## What is proved

- The engine and the phone stay in step: each finger that goes down is known to the engine and
  is lifted by it, and the phone is never asked for more fingers than it holds (`laws`).
- Switching the mapping off leaves nothing down on the phone (`laws`).
- A key that changes hands between a stick and a binding takes effect at once (`handover`).
- Commands are told apart by their bytes (`control`), steps of editing are undone and redone
  exactly (`history`), older profiles are converted once or not at all (`keymap`),
  with every pixel where it was if the arithmetic is that of single precision (`turning`).

## What is not

Screen coordinates are stored as floating-point numbers. The library treats them as opaque and
takes whole pixels; rounding, easing curves and the drawing are in `app/geometry.rs` and
`app/style.rs`. Calls into other crates are stated as contracts beside the functions that make
them: key names (`evdev`), blended colours (`egui`), Markdown (`pulldown-cmark`), pictures
(`image`), and of the standard library `String::push` and
`Path` (its `parent` and `==`).

Each function that expects something of its caller says so in `requires`; the code in `app/`
tests those conditions before it calls.
