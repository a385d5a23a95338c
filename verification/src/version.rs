//! Protocol-version gating: servers declaring a public version below a fixed
//! threshold are driven by the legacy-protocol proxy build.

use vstd::prelude::*;

verus! {

/// Whether version string `a` orders strictly below version string `b`
/// under `version_compare`'s ordering. The result is a function of the two
/// strings alone.
pub uninterp spec fn version_lt(a: Seq<char>, b: Seq<char>) -> bool;

/// Relies on `version_compare::Version`: `Version::from` parses a version
/// string (returning `None` for an unparsable one) and `PartialOrd` orders
/// two parsed versions; both depend on the version strings alone, and an
/// unparsable left operand orders below any parsable right one because
/// `Option` orders `None` first.
#[verifier::external_body]
fn version_is_below(a: &str, b: &str) -> (r: bool)
    ensures
        r == version_lt(a@, b@),
{
    version_compare::Version::from(a) < version_compare::Version::from(b)
}

/// The proxy dropped support for servers below version 1.20.3: those must
/// run against the legacy-protocol proxy build. An undeclared version
/// selects the standard build.
pub fn is_legacy(version: &Option<String>) -> (r: bool)
    ensures
        r == match version {
            Some(v) => version_lt(v@, "1.20.3"@),
            None => false,
        },
{
    match version {
        None => false,
        Some(v) => version_is_below(v.as_str(), "1.20.3"),
    }
}

} // verus!
