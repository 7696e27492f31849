# illustrator_rs

Reading, exporting and rebuilding Adobe Illustrator `.ai` files, with the
parts that decide and compute on text and bytes proved correct by Verus.

## Layout

- `src/` — the verified library.
  - `parser/` — the container formats (PDF, EPS, PostScript; ASCII85, zlib
    and Zstandard streams), the PostScript lexer, the operand stack, the
    operator table, the comment rules and the structure of the document
    (layers, groups, compound paths); ASCII85 encoding as a specification,
    with the law that decoding undoes it.
  - `importer/` — the events quick-xml reads and the SVG element tree built
    from them, how a document's content is arranged into layers, path-data
    grammar, transform lists, colour names and hex colours, `url(#id)`
    references.
  - `export/` — identifiers and escaping for SVG, the PGF sections kept in
    the metadata sidecar.
  - `writer/` — PGF header, layer and trailer lines, the choice between
    copying a sidecar's layers and writing them anew, PostScript string
    escaping, the minimal PDF container and the splicing of new PGF into an
    original file.
  - `data_uri.rs`, `handler.rs`, `text.rs`, `cli.rs` — embedded image data,
    node paths and outlines, text helpers, the commands.
- `tests/` — tests of the library.
- `app/` — what stays outside the proofs: file access, the floating-point
  document model and its geometry, serde, clap and thiserror integration.

Every contract of the library is stated over mathematical models (`Seq`,
`Map`, `int`), and its laws are public proof functions next to the code
they speak of.
