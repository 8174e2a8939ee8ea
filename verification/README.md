# storelib_rs

A Microsoft Store client: DisplayCatalog product queries and searches, and
package download resolution through the FE3 delivery service.

## Layout

- `src/` — the library, verified with Verus. Every function states its
  behaviour in `requires`/`ensures` over mathematical models (`Seq<char>`
  for strings, a flat table of nodes for XML documents, views of the
  package records) and is proved against it.
  - `text.rs` — character-level helpers: substitution, trimming, scalar
    parsing.
  - `enums.rs`, `codes.rs`, `locale.rs` — endpoints, identifier types,
    device families; markets, languages and language tags; locales and
    the query-string trail they produce.
  - `helpers.rs` — the DisplayCatalog URLs.
  - `config.rs` — client settings, exponential backoff and the retry
    decision.
  - `xml.rs` — the XML document model and its lookups; parsing is done by
    `roxmltree` behind one trusted wrapper.
  - `fe3.rs` — SOAP request bodies, HTML-entity decoding, and the readers
    of the cookie, update identities and file locations.
  - `fe3_model.rs`, `packages.rs` — package instance records and their
    reading from a `SyncUpdates` answer.
  - `resolve.rs` — query state decisions and the attachment of download
    locations and catalog sizes to package instances.
  - `cli.rs`, `error.rs` — file names, framework detection, download
    planning, command-line types; errors and their numeric codes.
- `tests/` — tests of the library on concrete inputs.
- `app/` — the command-line program: HTTP, async plumbing, cancellation,
  JSON models of the catalog, logging and downloads, around the library.
