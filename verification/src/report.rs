//! What an audit finds.

use vstd::prelude::*;

use crate::advisory::Advisory;
use crate::severity::Ranked;

verus! {

/// A source that is fetched over an insecure protocol.
#[derive(Debug)]
pub struct InsecureSource {
    /// The source's address.
    pub source: String,
}

impl DeepView for InsecureSource {
    type V = Seq<char>;

    open spec fn deep_view(&self) -> Seq<char> {
        self.source@
    }
}

/// A locked gem that an advisory affects.
#[derive(Debug)]
pub struct UnpatchedGem {
    /// The gem's name.
    pub name: String,
    /// The locked version.
    pub version: String,
    /// The advisory.
    pub advisory: Advisory,
}

/// A locked interpreter that an advisory affects.
#[derive(Debug)]
pub struct VulnerableRuby {
    /// The interpreter.
    pub engine: String,
    /// The locked version.
    pub version: String,
    /// The advisory.
    pub advisory: Advisory,
}

/// A version of something that an advisory affects.
pub struct Finding {
    /// The gem's name, or the interpreter.
    pub name: Seq<char>,
    pub version: Seq<char>,
    pub advisory: crate::advisory::AdvisoryModel,
}

/// How severe a finding is.
pub open spec fn finding_rank() -> spec_fn(Finding) -> int {
    |f: Finding| crate::advisory::severity_rank(f.advisory.criticality)
}

impl DeepView for UnpatchedGem {
    type V = Finding;

    open spec fn deep_view(&self) -> Finding {
        Finding {
            name: self.name@,
            version: self.version@,
            advisory: self.advisory.deep_view(),
        }
    }
}

impl DeepView for VulnerableRuby {
    type V = Finding;

    open spec fn deep_view(&self) -> Finding {
        Finding {
            name: self.engine@,
            version: self.version@,
            advisory: self.advisory.deep_view(),
        }
    }
}

impl Ranked for UnpatchedGem {
    open spec fn rank(self) -> int {
        finding_rank()(self.deep_view())
    }

    fn severity(&self) -> (r: u8) {
        crate::advisory::rank(self.advisory.criticality())
    }
}

impl Ranked for VulnerableRuby {
    open spec fn rank(self) -> int {
        finding_rank()(self.deep_view())
    }

    fn severity(&self) -> (r: u8) {
        crate::advisory::rank(self.advisory.criticality())
    }
}

/// Everything that an audit finds.
#[derive(Debug)]
pub struct Report {
    /// Sources fetched over an insecure protocol.
    pub insecure_sources: Vec<InsecureSource>,
    /// Locked gems that advisories affect, the most severe first.
    pub unpatched_gems: Vec<UnpatchedGem>,
    /// Advisories that affect the locked interpreter, the most severe first.
    pub vulnerable_rubies: Vec<VulnerableRuby>,
    /// How many locked versions could not be read.
    pub version_parse_errors: usize,
    /// How many advisories could not be loaded.
    pub advisory_load_errors: usize,
}

impl Report {
    /// How many things were found, of all kinds.
    pub open spec fn total(self) -> nat {
        self.insecure_sources@.len() + self.unpatched_gems@.len() + self.vulnerable_rubies@.len()
    }

    /// Whether anything was found.
    pub fn vulnerable(&self) -> (b: bool)
        ensures
            b == (self.total() > 0),
    {
        self.insecure_sources.len() > 0 || self.unpatched_gems.len() > 0
            || self.vulnerable_rubies.len() > 0
    }

    /// How many things were found, of all kinds.
    pub fn count(&self) -> (n: usize)
        requires
            self.total() <= usize::MAX,
        ensures
            n == self.total(),
    {
        self.insecure_sources.len() + self.unpatched_gems.len() + self.vulnerable_rubies.len()
    }

    /// Whether anything could not be read on the way.
    pub fn incomplete(&self) -> (b: bool)
        ensures
            b == (self.version_parse_errors > 0 || self.advisory_load_errors > 0),
    {
        self.version_parse_errors > 0 || self.advisory_load_errors > 0
    }
}

} // verus!
