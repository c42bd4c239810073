//! Compatibility of a file's declared format version with the version
//! this library expects.

use vstd::prelude::*;
use crate::text::owned;

verus! {

/// The configuration format version a file should declare.
pub const CONFIG_VERSION: &'static str = "0.2.8";

pub uninterp spec fn version_ge(declared: Seq<char>, minimum: Seq<char>) -> Option<bool>;

/// Relies on `version_compare::compare_to` with `Cmp::Ge`: whether the
/// first version is at least the second, or `None` where either fails to
/// parse as a version.
#[verifier::external_body]
fn compare_at_least(declared: &str, minimum: &str) -> (r: Option<bool>)
    ensures
        r == version_ge(declared@, minimum@),
{
    version_compare::compare_to(declared, minimum, version_compare::Cmp::Ge).ok()
}

/// How a declared version relates to the expected one.
#[derive(Clone, Copy, Debug, PartialEq, Eq, Structural)]
pub enum VersionStatus {
    /// At least the expected version: nothing to report.
    Current,
    /// No version declared.
    Unknown,
    /// A valid version older than the expected one.
    Outdated,
    /// A declared version that is no version.
    Invalid,
}

/// The status for a declared version (`None`: none declared) whose
/// comparison with the expected version gave `cmp`.
pub open spec fn status_of(outcome: Option<Option<bool>>) -> VersionStatus {
    match outcome {
        None => VersionStatus::Unknown,
        Some(None) => VersionStatus::Invalid,
        Some(Some(false)) => VersionStatus::Outdated,
        Some(Some(true)) => VersionStatus::Current,
    }
}

/// Classifies the outcome of a comparison: `None` where no version was
/// declared, else what the comparison gave.
pub fn status_from(outcome: Option<Option<bool>>) -> (r: VersionStatus)
    ensures
        r == status_of(outcome),
{
    match outcome {
        None => VersionStatus::Unknown,
        Some(None) => VersionStatus::Invalid,
        Some(Some(false)) => VersionStatus::Outdated,
        Some(Some(true)) => VersionStatus::Current,
    }
}

pub open spec fn declared_status(version: Option<Seq<char>>) -> VersionStatus {
    status_of(
        match version {
            None => None,
            Some(v) => Some(version_ge(v, CONFIG_VERSION@)),
        },
    )
}

/// Checks a declared version against `CONFIG_VERSION`.
pub fn check_version(version: &Option<String>) -> (r: VersionStatus)
    ensures
        r == declared_status(crate::env::opt_view(*version)),
{
    match version {
        None => status_from(None),
        Some(v) => status_from(Some(compare_at_least(v.as_str(), CONFIG_VERSION))),
    }
}

impl VersionStatus {
    /// The warning to show, if any.
    pub fn warning(&self) -> (r: Option<String>)
        ensures
            r is None <==> *self == VersionStatus::Current,
    {
        match self {
            VersionStatus::Current => None,
            VersionStatus::Unknown => Some(owned("Config version unknown, it may be outdated")),
            VersionStatus::Outdated => Some(owned("Config is for older lazymc version, you may need to update it")),
            VersionStatus::Invalid => Some(owned("Config version is invalid, you may need to update it")),
        }
    }
}

} // verus!
