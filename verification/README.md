# xfce4_terminal

The logic of Xfce Terminal that can be decided without a display, written in
Verus and proved against its contracts.

## Layout

- `src/` — the verified library.
  - `cli/` — the command line: immediate actions (`immediate.rs`), the launch
    parser (`rules.rs` states what a request means one argument at a time,
    `parse.rs` implements it), the report format of launch specifications
    (`format.rs`), the fixed help, version and color-table texts (`texts.rs`),
    and the laws every request obeys (`laws.rs`).
  - `links/` — the five link patterns, their classification through PCRE2,
    the URI a link opens with, whether it may be opened, and what copying it
    yields.
  - `screen.rs`, `screen_colors.rs` — titles, the working directory, paste
    safety, and where each VTE color comes from.
  - `child.rs` — the file, argument vector and environment of the child a
    screen starts, and the order login shells are looked for in.
  - `preference_schema.rs`, `preferences.rs` — the preference definitions
    read from their contract, the check every write makes, defaults, and
    what an old terminalrc contributes to a new channel (which file, which
    values, the palette).
  - `accelerators.rs`, `colors.rs`, `localization.rs`, `fields.rs` — the
    accelerator file and definitions, the order color schemes are offered
    in, the gettext configuration, and delimited text fields.
  - `bytes.rs`, `text.rs`, `paths.rs`, `reference.rs` — byte and text
    building blocks, GLib's base-name rule, and the release identity.
- `app/` — the program around the library: argument handling, the answers
  the parser asks of GLib, GDK and the C library, Xfconf, GTK and VTE.
- `tests/` — tests of the library on concrete values.

Questions the library cannot answer itself (how GLib splits a command line,
what `strtol` and `strtoul` read, whether GDK reads a color, which host a URI
names, whether a double lies in its range) are
handed to the caller as values: the launch parser asks for them one at a
time, and the other functions take them as arguments.
