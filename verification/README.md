# aien_benchmarks

A benchmark suite for local inference services on a Grace Blackwell workstation: it
measures resident memory, HTTP latency and token streaming of native services against a
Python baseline, writes provenance checksums, and renders SVG charts of the results.

The crate is in two parts.

- `src/` is the library, written in Verus. Every function in it carries a contract that
  Verus proves: the parsers of `/proc` files and command output (`smaps`, `memory`,
  `system`), the HTTP request and response text and percentile positions (`http`), the
  framing and counting of streamed tokens (`stream`), the 32K-token prefix and the
  `SHA256SUMS` text (`provenance`), the chart markup (`svg`), the fixed cross-surface table
  (`models`), and the branch-count and engine lists of a branching sweep (`sweep`). The
  character-level helpers they share are in `text`.
- `app/` is the command-line program around it: argument handling, files, sockets, threads,
  async requests, timing and everything computed in floating point. It calls the library for
  each decision on text.

Calls into other crates (`sha2`, `serde_json`, and a few `std` functions that Verus has no
specification for) stand behind small trusted wrappers whose doc comments say what their
contracts claim.

`tests/` exercises the library on concrete values.
