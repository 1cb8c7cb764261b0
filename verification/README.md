# cloudmapper_agent

Builds the agent bundle of a CloudMapper map database: one AWS scan with its
resources and relationships, the Terraform state it is compared against, the
findings of that comparison, and a graph of the resources. The library is
written in Verus; every function in `src/` carries a contract that Verus proves,
except the trusted items it rests on: the two serde_json wrappers in
`src/json.rs` (with the names `serde_json_accepts`, `serde_json_value` and
`serde_json_string_list`, and the declared types `serde_json::Value` and
`serde_json::Error`) and the contract given to std's string-slice `==` in
`src/severity.rs`, which Verus takes as stated. The clock is read in `app/`.

- `src/model.rs` — the bundle's types.
- `src/rows.rs` — the stored rows that the library reads.
- `src/severity.rs` — severity ranks and the most-severe-wins rule.
- `src/index.rs` — Terraform addresses and findings grouped by AWS resource.
- `src/load.rs` — rows to bundle parts, reading their JSON columns.
- `src/graph.rs` — the graph of resources and relationships.
- `src/export.rs` — the bundle, its counts, and what each resource is linked with.
- `src/json.rs`, `src/error.rs` — serde_json calls and the library's errors.
- `app/` — the SQLite queries and the serializable form of the bundle.
- `tests/` — tests of the library on concrete rows.
