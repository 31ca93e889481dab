//! The settings that a project keeps for its audits.

use vstd::prelude::*;

use crate::ids::IdSet;

verus! {

/// The settings of a project.
#[derive(Debug)]
pub struct Configuration {
    /// Advisories to leave out of reports.
    pub ignore: IdSet,
    /// The age in days beyond which the advisory database is out of date.
    pub max_db_age_days: Option<u64>,
}

impl Configuration {
    /// The name of the file that holds the settings.
    pub open spec fn default_file_name() -> Seq<char> {
        ".gem-audit.yml"@
    }

    /// The name of the file that holds the settings, unless another is asked for.
    pub fn default_file() -> (name: String)
        ensures
            name@ == Configuration::default_file_name(),
    {
        ".gem-audit.yml".to_owned()
    }
}

} // verus!
