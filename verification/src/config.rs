//! The configured units of work and the whole configuration.

use vstd::prelude::*;

verus! {

/// One configured check: a JSON data source and the template file that
/// its payload is rendered through.
pub struct Check {
    pub url: String,
    pub template: String,
}

impl Check {
    /// A check is well formed when both its source location and its
    /// template path are non-empty.
    pub open spec fn wf(self) -> bool {
        self.url@.len() > 0 && self.template@.len() > 0
    }

    /// Builds a check, rejecting an empty source location or an empty
    /// template path.
    pub fn new(url: String, template: String) -> (r: Option<Check>)
        ensures
            r is Some <==> url@.len() > 0 && template@.len() > 0,
            r matches Some(c) ==> c.url@ == url@ && c.template@ == template@ && c.wf(),
    {
        if url.as_str().is_empty() || template.as_str().is_empty() {
            None
        } else {
            Some(Check { url, template })
        }
    }
}

/// The validated configuration for one pipeline pass: the ordered
/// checks, an optional webhook destination, and an optional namespace
/// prefix for baseline storage.
pub struct Config {
    pub checks: Vec<Check>,
    pub webhook_url: Option<String>,
    pub baseline_prefix: Option<String>,
}

impl Config {
    /// A configuration is well formed when every check in it is.
    pub open spec fn wf(self) -> bool {
        forall|i: int| 0 <= i < self.checks@.len() ==> (#[trigger] self.checks@[i]).wf()
    }
}

} // verus!
