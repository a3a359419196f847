# keylock_ui

The bridge between the rust-keylock password manager and its user interface,
which talks to it through C calls.

- `src/` is verified with Verus:
  - `text`: C string contents and UTF-8 (reading text, preparing text, the word `null`);
  - `number`: decimal numbers and the 32-bit integers of the C calls;
  - `model`: entries, user options, menu requests, server settings and selections;
  - `scala`: the records and lists handed to the user interface;
  - `commands`: what each call of the user interface reports, as a selection;
  - `laws`: what is read back of what was handed to the user interface.
- `app/` holds the C interface itself: raw pointers, the channel to the running
  password manager, and the conversion of selections into its own types.
- `tests/` exercises the library on concrete values.
