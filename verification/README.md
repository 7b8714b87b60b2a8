# romtable

A verified parser of CoreSight ROM tables and component identification
blocks (ADIv5.2, chapters D1 and D3).

- `src/entry.rs`: the raw ROM table entry word and the address of the
  component behind it.
- `src/peripheral.rs`: peripheral ID registers, the table of known ARM parts,
  peripheral types.
- `src/manufacturer.rs`: JEP106 manufacturer codes; names come from the
  `jep106` crate.
- `src/component.rs`: components, ROM tables (whose entries hold those of
  nested tables, flattened depth-first), their values, and the recursive
  depth-first iterator with `find_component`. As each table also holds the
  entries of the tables below it, the walk meets a component below a nested
  table once through that table and again through each enclosing one.
- `src/reader.rs`: the log of answered reads and the identification
  registers of one component.
- `src/parse.rs`: the parse of a component and of the ROM tables below it,
  stated as functions of the answers to its reads.
- `src/laws.rs`: a finished parse is final; a waiting parse used every
  answer; reading a table's entries steps one word at a time; the loop that
  feeds a memory's answers uses one answer per round, and ends exactly when
  some answers of that memory bring the parse to its end.
- `app/lib.rs`: a memory trait and the loop that performs the reads a parse
  asks for, register access, and the `Display`, `Error` and `Iterator` impls.

Target memory is never read by the library. A parse runs over the answers
given so far; when it needs another read it returns `Progress::NeedsRead`
with the request, the caller performs it, appends the answer and parses
again. Each round replays the earlier answers, so a parse of `n` reads costs
`O(n^2)` steps of replay; ROM tables are small.
