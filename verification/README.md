# pdfiumtoppm

A page renderer that speaks a subset of Poppler's `pdftoppm` command line and
renders with PDFium. The decisions of a run are a Verus-verified library;
the program around it does the I/O.

- `src/cli.rs`: the command line, read left to right as pdftoppm does;
  unsupported options are refused, not ignored.
- `src/pages.rs`: the page range, the output format and the output file names.
- `src/memory.rs`: the memory limit, `/proc/self/statm`, physical memory.
- `src/raster.rs`: pixel sizes, buffer sizes, BGRA to RGB or gray, reserving memory.
- `src/status.rs`: exit statuses, the tally of pages, crash reports.
- `src/library.rs`: where the PDFium library is loaded from, which passwords are tried.
- `src/decimal.rs`, `src/text.rs`: decimal numbers and text comparison.
- `app/main.rs`: arguments, PDFium, image files, the process memory limit and
  signal handling, and the floating-point sizing of pages.
