//! The vulnerability report and the advisory data that it carries.

use crate::platform::Os;
use vstd::prelude::*;

verus! {

/// What an advisory says about the platforms that it affects.
///
/// An empty list of operating systems restricts nothing: the advisory then
/// applies on every system.
#[derive(Debug, Clone, PartialEq, Eq)]
pub struct Affected {
    /// The operating systems known to be affected.
    pub os: Vec<Os>,
}

/// One match of an advisory against a package of the audited binary.
#[derive(Debug, Clone, PartialEq, Eq)]
pub struct Vulnerability {
    /// The identifier of the advisory.
    pub advisory_id: String,
    /// The advisory's platform restrictions, if it states any.
    pub affected: Option<Affected>,
}

/// An advisory that is reported as a warning, not as a vulnerability.
#[derive(Debug, Clone, PartialEq, Eq)]
pub struct Warning {
    /// The identifier of the advisory.
    pub advisory_id: String,
    /// The advisory's platform restrictions, if it states any.
    pub affected: Option<Affected>,
}

/// The vulnerabilities of a report, with their summary.
#[derive(Debug, Clone, PartialEq, Eq)]
pub struct VulnerabilityInfo {
    /// Whether any vulnerability was found.
    pub found: bool,
    /// The number of vulnerabilities found.
    pub count: usize,
    /// The vulnerabilities, in the order in which they were matched.
    pub list: Vec<Vulnerability>,
}

impl VulnerabilityInfo {
    /// Whether the count is the length of the list.
    pub open spec fn count_matches_list(&self) -> bool {
        self.count == self.list@.len()
    }

    /// Whether the summary agrees with the list: the count is the list's
    /// length, and `found` says that the count is not zero.
    pub open spec fn is_consistent(&self) -> bool {
        &&& self.count == self.list@.len()
        &&& self.found == (self.count != 0)
    }

    /// The summary of a list of vulnerabilities.
    pub fn new(list: Vec<Vulnerability>) -> (info: VulnerabilityInfo)
        ensures
            info.list == list,
            info.is_consistent(),
    {
        VulnerabilityInfo { found: list.len() != 0, count: list.len(), list }
    }
}

/// A vulnerability report.
#[derive(Debug, Clone, PartialEq, Eq)]
pub struct Report {
    /// The vulnerabilities found.
    pub vulnerabilities: VulnerabilityInfo,
    /// The warnings raised.
    pub warnings: Vec<Warning>,
}

} // verus!
