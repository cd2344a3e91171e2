# deetsrgb

Lighting control for a BY Tech / Sinowealth SH68F90A keyboard (`258A:010C`)
and a Razer DeathAdder Elite mouse (`1532:005C`) over HID feature reports,
with scenes that set both at once.

## Layout

- `src/` — the library, verified with Verus.
  - `razer.rs` — the 90-byte Razer report and its crc, the command plan of each
    mouse operation, and the mouse session that runs it.
  - `sinowealth.rs` — the keyboard's 520-byte packets, the config block and
    colour table edits, status parsing, and the keyboard session with its
    marker-checked, retried reads, read-modify-write writes, and the
    read-back of the config block after a solid colour is written.
  - `hid.rs` — the transfers a session asks for and the answers it takes.
  - `scenes.rs` — lights, scenes and the store (save, delete, lookup).
  - `control.rs` — which session a light needs, scene outcomes, the tray menu,
    the panel toggle, launch-at-startup commands.
  - `brightness.rs`, `text.rs` — the 0–100 brightness mapping; hex, decimal
    and substring helpers.
- `app/` — the back-end around it: the hidapi transport that runs the sessions,
  the JSON store file, the panel commands, `reg.exe`, and the tray/panel
  behaviour over a window shell the runtime provides.
- `tests/` — tests of the library.

A driver session never touches the device: each step names the next transfer
(an exchange, a write or a wait), the caller performs it and feeds back what
happened, until the session yields its outcome.
