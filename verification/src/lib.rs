//! Verified adapters around an ODRL 2.2 policy decision engine's wire
//! contract: JSON-LD ingestion of Dataspace Protocol contract policies,
//! translation of RDF compliance fixtures into wire requests, and the
//! coverage-probe catalog.

pub mod text;
pub mod wire;
pub mod jsonld;
pub mod suite_vocab;
pub mod coverage;
pub mod catalog;
pub mod rdf;
pub mod rdf_vocab;
pub mod rdf_expected;
pub mod rdf_ids;
pub mod suite_odrl;
pub mod suite_dnf;
pub mod suite_translate;
pub mod suite_truth;
pub mod ingest;
pub mod rdf_compare;
pub mod suite_index;
pub mod json;
pub mod expand;
pub mod rdf_translate;
pub mod cli;
pub mod suite_cases;
pub mod patch;
pub mod probe;
pub mod probes_actions;
pub mod probes_operands;
pub mod probes_operators;
pub mod probes_logical;
pub mod probes_parties;
pub mod probes_duties;
pub mod probes_assets;
pub mod probes_other;
pub mod proc_status;
pub mod wasm_host;
pub mod rdf_case;
