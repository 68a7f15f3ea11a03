//! Namespace builders and the IRIs the `dsc:` compliance-fixture
//! translator reads.

use vstd::prelude::*;
use vstd::string::*;
use crate::text::concat2;

pub use crate::suite_vocab::local_name;

verus! {

pub const RDF_ODRL_NS: &'static str = "http://www.w3.org/ns/odrl/2/";
pub const DSC_NS: &'static str = "https://ds-labs-org.github.io/ds-odrl-compliance-rdf/ns#";
pub const RDF_REPORT_NS: &'static str = "https://w3id.org/force/compliance-report#";
pub const RDF_VALUE: &'static str = "http://www.w3.org/1999/02/22-rdf-syntax-ns#value";

/// `http://www.w3.org/ns/odrl/2/{local}`.
pub fn odrl(local: &str) -> (r: String)
    ensures
        r@ == RDF_ODRL_NS@ + local@,
{
    concat2(RDF_ODRL_NS, local)
}

/// `https://ds-labs-org.github.io/ds-odrl-compliance-rdf/ns#{local}`.
pub fn dsc(local: &str) -> (r: String)
    ensures
        r@ == DSC_NS@ + local@,
{
    concat2(DSC_NS, local)
}

/// `https://w3id.org/force/compliance-report#{local}`.
pub fn report_ns(local: &str) -> (r: String)
    ensures
        r@ == RDF_REPORT_NS@ + local@,
{
    concat2(RDF_REPORT_NS, local)
}

} // verus!
