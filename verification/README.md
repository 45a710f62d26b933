# vt_core

The verified core of a DEC VT100–VT525 terminal model: character sets and
national replacement sets, the screen grid and its lines, cell attributes,
colour tables, keyboard encoding, user-defined keys and key programming,
soft fonts (DECDLD), terminal modes and their reports, the Set-Up features
with their saved text form, the VT420-style Set-Up screens and the
VT500-series Set-Up menus, session recordings, the terminal's power-up
state with its cursor motion, DECSC/DECRC and line and character editing,
copy-and-paste selections (double-click words, triple-click lines,
the copied text) and history search. Every function in `src/` carries a contract that Verus proves.

`app/` holds what stays outside the proofs: writing and reading recording
files, and the floating-point HLS colour conversions.

Not in this crate:

- The escape-sequence interpreter (`Emulator`, beyond the state and
  operations in `emulator`) and the `Terminal` built on it, with the screen dumps drawn from a
  `Terminal`; the selection and search functions here take the history
  lines such a terminal keeps. They are built on a
  separate control-sequence parser crate, which this crate does not
  depend on.
