# printer_module

The decision logic of a Windows printer bridge for Flutter, verified with Verus.

- `src/session.rs` — a spooler session: the calls of an operation in order, each
  judged by its outcome, and the releases (close, end page, end document, free)
  owed by the calls that succeeded, performed last first. The law
  `lemma_session_brackets` gives the exact calls and result for every sequence
  of outcomes.
- `src/printer.rs` — the operations: parameter checks, the stages of each
  session, and what is made of the data the calls return (printer names, the
  default printer's name, whether a printer is listed).
- `src/text.rs` — names as UTF-16 with a NUL, and their decoding.
- `src/status.rs` — the text of a printer's status word.
- `src/payload.rs` — strings printed as Windows-1252 bytes (`encoding_rs`).
- `src/form.rs` — custom paper forms and the device mode fields that select them.
- `src/error.rs` — the error type and its message text.

`app/` holds the Windows calls themselves (`winspool`, `CoTaskMemAlloc`, file
reads): it drives each session, performing the call it asks for and handing
back the outcome. Off Windows every operation reports that only Windows is
supported.
