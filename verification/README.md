# ast_index_mcp

A tool server for the `ast-index` code indexer, speaking MCP (JSON-RPC 2.0)
over stdio, with its logic verified by Verus.

- `src/` is the verified library:
  - `json.rs`: the JSON document model that the logic reads, with its view.
  - `jsontext.rs`: reading JSON text into that model and writing it back as
    compact JSON, through `serde_json`.
  - `float.rs`: an `f64`, given by its bits, converted to `i64` as a cast does.
  - `text.rs`: Unicode whitespace, trimming, decimal integers, truncation.
  - `size.rs`: database sizes in MiB, proved against an integer model of
    `f64` rounding and `{:.2}` formatting; that the model matches the float
    formatting is tested, not proved.
  - `format.rs`: the compact text layouts of the indexer's JSON responses.
  - `catalog.rs`: the tools and their JSON descriptors.
  - `tools.rs`: the indexer command line of a tool call, and its answer.
  - `rpc.rs`: which requests are answered, and with what.
  - `laws.rs`: properties of the library as a whole.
- `app/main.rs` reads requests and writes responses with `serde_json`, runs
  the indexer, and hands the library plain values.
- `tests/` exercises the library on concrete values.
