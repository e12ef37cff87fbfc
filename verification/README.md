# mstream_admin

The admin hub of a music server, for the terminal: a sign-in page, four rooms
(libraries, discovery, federation, backups) and the listening report. The
library in `src/` holds everything that the hub decides, as state machines over
plain values, and is verified with Verus; `app/` draws it with ratatui, feeds it
keys and clicks, and makes its calls to the server.

- A room is a struct. `act`, `handle_key` and `apply` take it from one state to
  the next; their contracts (`acted`, `keyed`, `applied`) say to which.
- Nothing in the library waits or calls anyone. A room queues one call at a
  time; `dispatch_queued` hands it out, `apply` takes the answer. Errands of
  several calls are in `errands.rs`.
- What is said is a `Msg`: a key of the catalogue and what fills its gaps. The
  words come from the catalogue, in `app/`; `phrases.rs` holds those that the
  library itself compares.
- `*_view.rs` says what is shown of a room and where: rows in words and
  colours, columns, cards, the part of a list that is in view.
- `outside.rs` and `line.rs` hold what is taken on trust: addresses (`url`),
  base64, JSON, the gaps of phrases (`rust-i18n`), the line editor
  (`tui-input`), letter case and the clock. `text.rs` holds one item more:
  that `String::push` appends.
- The public proof functions state what holds of the hub as a whole: that a
  warning is safe on Enter, that what takes something away needs one, that a
  cursor stays on a row, that columns never overlap, and so on.

Floating point stays outside: ratios and percentages reach the library as whole
numbers. Where the library itself measures as doubles do (byte counts, the
columns of a chart), it does so in whole numbers: see `double.rs`.
