//! What an audit reads of a `Gemfile.lock`.

use vstd::prelude::*;

verus! {

/// A git repository from which gems come.
#[derive(Debug)]
pub struct GitSource {
    /// The repository's address.
    pub remote: String,
    /// Whether its host lies inside the local network.
    pub internal: bool,
}

/// A gem server.
#[derive(Debug)]
pub struct RubygemsSource {
    /// The server's address.
    pub remote: String,
    /// Whether its host lies inside the local network.
    pub internal: bool,
}

/// A local directory from which gems come.
#[derive(Debug)]
pub struct PathSource {
    /// The directory.
    pub remote: String,
}

/// Where gems come from.
#[derive(Debug)]
pub enum Source {
    /// A git repository.
    Git(GitSource),
    /// A gem server.
    Rubygems(RubygemsSource),
    /// A local directory.
    Path(PathSource),
}

/// The contents of a `Source`.
pub enum SourceModel {
    Git { remote: Seq<char>, internal: bool },
    Rubygems { remote: Seq<char>, internal: bool },
    Path { remote: Seq<char> },
}

impl SourceModel {
    /// The address of a source.
    pub open spec fn remote(self) -> Seq<char> {
        match self {
            SourceModel::Git { remote, .. } => remote,
            SourceModel::Rubygems { remote, .. } => remote,
            SourceModel::Path { remote } => remote,
        }
    }
}

impl DeepView for Source {
    type V = SourceModel;

    open spec fn deep_view(&self) -> SourceModel {
        match self {
            Source::Git(git) => SourceModel::Git { remote: git.remote@, internal: git.internal },
            Source::Rubygems(gem) => SourceModel::Rubygems {
                remote: gem.remote@,
                internal: gem.internal,
            },
            Source::Path(path) => SourceModel::Path { remote: path.remote@ },
        }
    }
}

/// One locked gem. Platform variants of a gem are locked one by one, under the
/// same name and version.
#[derive(Debug)]
pub struct LockedSpec {
    /// The gem's name.
    pub name: String,
    /// The locked version, as it is written.
    pub version: String,
    /// Whether `version` can be read as a version number.
    pub version_valid: bool,
}

/// The contents of a `LockedSpec`.
pub struct SpecModel {
    pub name: Seq<char>,
    pub version: Seq<char>,
    pub version_valid: bool,
}

impl DeepView for LockedSpec {
    type V = SpecModel;

    open spec fn deep_view(&self) -> SpecModel {
        SpecModel {
            name: self.name@,
            version: self.version@,
            version_valid: self.version_valid,
        }
    }
}

impl Clone for LockedSpec {
    fn clone(&self) -> (copy: LockedSpec)
        ensures
            copy.deep_view() == self.deep_view(),
    {
        LockedSpec {
            name: self.name.clone(),
            version: self.version.clone(),
            version_valid: self.version_valid,
        }
    }
}

/// The locked Ruby interpreter.
#[derive(Debug)]
pub struct RubyVersion {
    /// The interpreter, such as `ruby` or `jruby`.
    pub engine: String,
    /// Its version, as it is written.
    pub version: String,
    /// Whether `version` can be read as a version number.
    pub version_valid: bool,
}

/// The contents of a `RubyVersion`.
pub struct RubyModel {
    pub engine: Seq<char>,
    pub version: Seq<char>,
    pub version_valid: bool,
}

impl DeepView for RubyVersion {
    type V = RubyModel;

    open spec fn deep_view(&self) -> RubyModel {
        RubyModel {
            engine: self.engine@,
            version: self.version@,
            version_valid: self.version_valid,
        }
    }
}

/// A lockfile.
#[derive(Debug)]
pub struct Lockfile {
    /// Where the gems come from.
    pub sources: Vec<Source>,
    /// The locked gems.
    pub specs: Vec<LockedSpec>,
    /// The locked interpreter, where there is one.
    pub ruby_version: Option<RubyVersion>,
}

/// Whether two locked gems have the same name and version.
pub open spec fn same_gem(a: SpecModel, b: SpecModel) -> bool {
    a.name == b.name && a.version == b.version
}

/// Whether `specs` lock the gem `spec`.
pub open spec fn locks(specs: Seq<SpecModel>, spec: SpecModel) -> bool {
    exists|i: int| 0 <= i < specs.len() && same_gem(#[trigger] specs[i], spec)
}

/// `specs` without those that repeat the name and version of an earlier one.
pub open spec fn distinct_specs(specs: Seq<SpecModel>) -> Seq<SpecModel>
    decreases specs.len(),
{
    if specs.len() == 0 {
        Seq::empty()
    } else if locks(specs.drop_last(), specs.last()) {
        distinct_specs(specs.drop_last())
    } else {
        distinct_specs(specs.drop_last()).push(specs.last())
    }
}

/// Having a version that can be read.
pub open spec fn readable() -> spec_fn(SpecModel) -> bool {
    |s: SpecModel| s.version_valid
}

/// The gems about which the database is asked: each name and version once, and only
/// where the version can be read.
pub open spec fn queries(specs: Seq<SpecModel>) -> Seq<SpecModel> {
    distinct_specs(specs).filter(readable())
}

/// Whether no two of `specs` have the same name and version.
pub open spec fn all_different(specs: Seq<SpecModel>) -> bool {
    forall|i: int, j: int|
        0 <= i < j < specs.len() ==> !same_gem(#[trigger] specs[i], #[trigger] specs[j])
}

pub proof fn lemma_distinct_specs_differ(specs: Seq<SpecModel>)
    ensures
        all_different(distinct_specs(specs)),
        forall|i: int|
            0 <= i < distinct_specs(specs).len() ==> specs.contains(
                #[trigger] distinct_specs(specs)[i],
            ),
    decreases specs.len(),
{
    if specs.len() > 0 {
        let rest = specs.drop_last();
        let known = distinct_specs(rest);
        let now = distinct_specs(specs);
        lemma_distinct_specs_differ(rest);
        assert forall|i: int| 0 <= i < now.len() implies specs.contains(#[trigger] now[i]) by {
            if i < known.len() {
                let k = choose|k: int| 0 <= k < rest.len() && rest[k] == known[i];
                assert(specs[k] == now[i]);
            } else {
                assert(specs[specs.len() - 1] == now[i]);
            }
        }
        assert forall|i: int, j: int| 0 <= i < j < now.len() implies !same_gem(
            #[trigger] now[i],
            #[trigger] now[j],
        ) by {
            if j == known.len() {
                let k = choose|k: int| 0 <= k < rest.len() && rest[k] == known[i];
                assert(!same_gem(rest[k], specs.last()));
            } else {
                assert(now[i] == known[i] && now[j] == known[j]);
            }
        }
    }
}

proof fn lemma_readable_differ(specs: Seq<SpecModel>)
    requires
        all_different(specs),
    ensures
        all_different(specs.filter(readable())),
    decreases specs.len(),
{
    reveal(Seq::filter);
    if specs.len() > 0 {
        let rest = specs.drop_last();
        let kept = rest.filter(readable());
        let now = specs.filter(readable());
        assert(all_different(rest)) by {
            assert forall|i: int, j: int| 0 <= i < j < rest.len() implies !same_gem(
                #[trigger] rest[i],
                #[trigger] rest[j],
            ) by {
                assert(!same_gem(specs[i], specs[j]));
            }
        }
        lemma_readable_differ(rest);
        assert forall|i: int, j: int| 0 <= i < j < now.len() implies !same_gem(
            #[trigger] now[i],
            #[trigger] now[j],
        ) by {
            if j == kept.len() {
                assert(kept.contains(kept[i]));
                rest.lemma_filter_contains_rev(readable(), kept[i]);
                let k = choose|k: int| 0 <= k < rest.len() && rest[k] == kept[i];
                assert(!same_gem(specs[k], specs[specs.len() - 1]));
            } else {
                assert(now[i] == kept[i] && now[j] == kept[j]);
            }
        }
    }
}

/// No gem is asked about twice.
pub proof fn lemma_queries_differ(specs: Seq<SpecModel>)
    ensures
        all_different(queries(specs)),
{
    lemma_distinct_specs_differ(specs);
    lemma_readable_differ(distinct_specs(specs));
}

impl Lockfile {
    /// Whether the gem at `i` has the name and version of one before it.
    pub fn repeats(&self, i: usize) -> (b: bool)
        requires
            i < self.specs.len(),
        ensures
            b == locks(self.specs.deep_view().take(i as int), self.specs.deep_view()[i as int]),
    {
        let ghost specs = self.specs.deep_view();
        for j in 0..i
            invariant
                i < self.specs.len(),
                specs == self.specs.deep_view(),
                forall|k: int| 0 <= k < j ==> !same_gem(#[trigger] specs[k], specs[i as int]),
        {
            if self.specs[j].name == self.specs[i].name && self.specs[j].version
                == self.specs[i].version {
                assert(same_gem(specs.take(i as int)[j as int], specs[i as int]));
                return true;
            }
        }
        false
    }

    /// The gems about which the advisory database is asked: each name and version
    /// once, and only where the version can be read.
    pub fn gem_queries(&self) -> (found: Vec<LockedSpec>)
        ensures
            found.deep_view() == queries(self.specs.deep_view()),
    {
        let ghost specs = self.specs.deep_view();
        let mut found: Vec<LockedSpec> = Vec::new();
        proof {
            reveal(Seq::filter);
            assert(found.deep_view() =~= distinct_specs(specs.take(0)).filter(readable()));
        }
        for i in 0..self.specs.len()
            invariant
                specs == self.specs.deep_view(),
                found.deep_view() == distinct_specs(specs.take(i as int)).filter(readable()),
        {
            let ghost before = found.deep_view();
            let ghost known = distinct_specs(specs.take(i as int));
            proof {
                reveal(Seq::filter);
                assert(specs.take(i + 1).drop_last() =~= specs.take(i as int));
                assert(known.push(specs[i as int]).drop_last() =~= known);
            }
            if !self.repeats(i) && self.specs[i].version_valid {
                found.push(self.specs[i].clone());
                assert(found.deep_view() =~= before.push(specs[i as int]));
            }
        }
        assert(specs.take(specs.len() as int) =~= specs);
        found
    }
}

} // verus!
