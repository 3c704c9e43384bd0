# pixfont

A library for bitmap fonts, verified with Verus: glyphs as sets of pixels on
an integer grid, their metrics and guidelines, the project file format and
the Pentacom BitFontMaker2 format, Unicode block and name lookups, and the
editing logic of PixFont Studio (tools, undo and redo, the project's
actions).

- `src/` is the library. Every function there carries a contract that Verus
  proves; the calls into `indexmap`, `json` and `glifnames` go through a few
  trusted wrappers whose contracts are stated in their doc comments.
- `tests/` runs the library on concrete fonts and files.
- `app/` is the program around it: settings on disk, reading and writing
  font files, and carrying out the file work that project actions ask for.
