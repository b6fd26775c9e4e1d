# iago

The decisions behind a menu-bar clipboard history, verified with Verus.

- `src/` — the library. `edit` (the edit round trip: the copy handed to the
  editor, the pictures already accounted for, the sweep), `intake` (which
  files are pictures, waiting for a file to settle, decoding), `screenshot`
  (the screenshot folder and the thumbnail setting), `source_app` (app
  icons and their cache), `popup` (where a paste goes), `tray`, `control`,
  `secure_input`, plus `text` and `paths`. Each public function states what
  it returns; where the answer rests on the user's account or the clock
  (the Downloads and home folders, the time since an auto-hide), it states
  what holds whatever the system reports. The laws that span functions are
  the `law_*` proof functions.
- `app/` — the parts that touch the outside world: folder watchers, file and
  process I/O, the control socket, pixel arithmetic in floating point.
- `tests/` — tests of the library.
