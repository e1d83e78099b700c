# debtmap_tui

The terminal front end of a technical-debt analyzer: an interactive results
explorer (a list of findings grouped by location, with search, sorting,
filters, a multi-page detail view, help and clipboard/editor actions), an
analysis progress display, and the validation report.

The library in `src/` is written in Verus. Its state machines (navigation,
key handling, list scrolling, query state), grouping and sorting, the text
of every list row, and the text of the detail pages are verified against
contracts stated over mathematical models (`Seq`, `Map`, `int`, spec functions); laws that span
several calls (the detail page cycle, back navigation, the grouping partition,
what a lookup gives after a record, and others) are proof functions. Of the
score breakdown page the library writes the final score, the raw inputs, the
score factors, the multipliers applied, the scaling pipeline, the god object
impact and the orchestration adjustment; the calculation summary,
floating-point arithmetic over the analysis' own score model, is left to the
terminal shell, which shows the adjustment steps it can derive.

Conventions of the model:

- Scores are held in hundredths (50.0 is `5000`), coverage in hundredths of a
  percent, confidences, multipliers, entropy and dampening factors in
  thousandths, and
  change frequencies and instability in hundredths. Displayed decimals are
  rounded halves to even.
- Text is lowercased with `str::to_lowercase`, whose result the contracts
  name rather than restate; the coupling badges, fixed ASCII names, are
  uppercased letter by letter.
- File paths are compared and ordered as `std::path::Path` does on Unix:
  component by component.
- The search cursor is a byte offset into the query's UTF-8 encoding.

The dependency structure matrix itself comes from an analysis that these
results do not carry: the library writes the matrix view's header from its
metrics (`dsm`), and the terminal shell shows a note in place of the matrix.

Layout:

- `src/` — the verified library, one module per concern.
- `tests/` — tests of the library, run against the real outside crates.
- `app/` — the terminal shell: the event loop, drawing with `ratatui`, the
  `crossterm` terminal, the editor process and console printing.
