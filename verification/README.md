# elucidator

A library for the Elucidation Metadata Standard: text specifications of byte-based metadata
(`designation: member, member, ...` with members `identifier: dtype`, `dtype[n]` or `dtype[]`),
and the interpretation of metadata bytes by such a specification. The library is written in
Verus: its public functions carry contracts over mathematical models of their inputs and
results, and Verus proves every function of the library against the contracts of what it calls.

## Layout

- `src/` — the verified library.
  - `text`, `token`, `bytes`, `util`: characters, tokens with their columns, little-endian
    encoding, and a cursor over a byte buffer.
  - `parsing`, `validating`, `helper`, `specification`: the two passes over a specification
    text (tokens, then their legality) and the checks on designations.
  - `member`, `designation`, `value`, `representable`: members and their data types, reading
    metadata bytes by a designation, the values read, and conversions between them.
  - `error`: the errors, their merging and their text.
  - `spacing`: white space around the parts of a specification (at the ends of each member,
    around its colon and the brackets of its type) changes nothing, and a member's text reads
    back as the member; `MemberSpecification::from` likewise trims the identifier.
  - `db`, `capi`: settings, statements and errors of the stores, and the handles and status codes
    of the C interface.
- `tests/` — tests run against the compiled library.
- `app/` — what stays outside the verified library: the SQLite and R*-tree stores, the C and
  Python interfaces, the command-line tools and an example program.
