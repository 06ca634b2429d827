# wikimedia

A verified library for working with Wikimedia data dumps, written in Verus,
with a small command-line program around it.

## Layout

- `src/` — the library. Its functions are verified against their
  contracts, except the small wrappers marked `#[verifier::external_body]`
  that call `std` and outside crates (regex, quick-xml, chrono, mime,
  encoding_rs, num-bigint, sha1, rand, natord, ammonia, scraper):
  their contracts are trusted, and each says what it claims of the call.
  - `dump/` — dump types and namespaces (`types`, `namespace`), the XML page
    parser (`pages`, a state machine fed one event at a time), and where
    local dump files live and which of them hold pages (`local`).
  - `operations` — the decisions behind listing dumps, versions and jobs,
    validating file URLs, and checking existing and downloaded job files.
  - `store/` — page-store identifiers, chunk files and their builders, the
    batched index rows of an import, and the import's decisions (`import`,
    a state machine fed one event at a time).
  - `wikitext`, `render` — category links, template escaping, and the
    pieces of rendering a page to HTML with pandoc.
  - `args`, `commands/`, `web` — decisions made from command-line arguments
    and web requests.
  - `text`, `paths`, `order`, `natural_order`, `slug`, `patterns`, `http`,
    `util/` — shared helpers: decimal and hex text, path joining, string
    order and sorted maps, natural order of file names, regexes, response
    status and decoding, formatting, random identifiers.
- `tests/` — tests of the library.
- `app/` — the command-line program: argument parsing, HTTP, files, XML
  reading and decompression, around the library's decisions.
