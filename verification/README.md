# ttf_tables

Parsers for the tables of TrueType and OpenType fonts, verified with Verus.

Every function in `src/` reads bytes and states in its contract what it
returns for every input it admits: a parsed value exactly when the bytes hold
one, and `None` otherwise. No function panics, indexes out of bounds or
overflows.

- `src/parser.rs`: big-endian reads, streams and binary search over sorted
  records, with the laws that the search finds exactly the matching record.
- `src/tables/`: one module per table (`cmap` and its subtable formats,
  `cff`, `colr`, `cpal`, `cblc`/`cbdt`, `sbix`, `math`, `post`, `name`,
  `os2`, `hmtx`, `kern`, `loca`, `avar`, `fvar`, `hvar`, `stat`, ...).
- `src/opentype_layout.rs`: coverage tables.
- `src/font.rs`: vertical metrics of a font.
- `tests/`: tests on concrete tables.
- `app/`: the parts that work in floating point (CFF outlines, the walk over
  a color glyph's paint graph, normalized variation coordinates), built on
  the verified library.
