# ds_odrl_adapters

Verified adapters around an ODRL 2.2 policy decision engine's JSON wire
contract, written in Verus.

- `src/` is the library. Every function in it is verified against its
  `requires`/`ensures`; the few calls into `serde_json`, `oxttl`/`oxrdf`
  and std that Verus cannot read stand behind small trusted wrappers whose
  contracts say what the outside code guarantees.
  - `wire` — the wire contract's policies, rules, constraints,
    configuration and requests, as plain data.
  - `json`, `expand`, `jsonld`, `ingest`, `cli` — Dataspace Protocol
    ingestion: JSON parsing, JSON-LD expansion against a registry of
    context documents that the caller supplies, normalization (inverse party properties, compound
    rules), and the translation of an ODRL policy into a wire policy and
    request.
  - `rdf`, `rdf_vocab`, `rdf_ids`, `rdf_translate`, `rdf_expected`,
    `rdf_compare`, `rdf_case` — the RDF compliance suite: Turtle graphs,
    translation of a fixture's policies, request and profile into a wire
    request, the expected decision a fixture's report tree states, and the
    comparison of an engine evaluation against that tree.
  - `suite_vocab`, `suite_odrl`, `suite_dnf`, `suite_translate`,
    `suite_truth`, `suite_index`, `suite_cases` — the ODRL test suite's
    fixtures: index, parsing, disjunctive normal form of logical
    constraints, translation, and ground truth.
  - `coverage`, `catalog`, `probe`, `probes_*`, `patch` — the ODRL 2.2
    coverage catalog: its rows, its probes, and the JSON patches that inject
    what the wire contract does not model.
  - `wasm_host` — the host side of the engine's WebAssembly ABI, as a state
    machine from guest outcomes to next actions.
  - `proc_status` — resident-set readings out of `/proc/self/status`.
- `tests/` exercises the library on concrete values.
- `app/` is the command line around it: reading files and context
  documents, printing JSON, writing the coverage artifact, and driving a
  compiled engine guest with `wasmi`.
