//! Auditing a lockfile against the advisory database.

use vstd::prelude::*;

use crate::advisory::{Advisory, AdvisoryModel, AnswerModel, Criticality, Database};
use crate::ids::IdSet;
use crate::lockfile::{LockedSpec, Lockfile, RubyModel, Source, SourceModel, SpecModel};
use crate::report::{Finding, InsecureSource, Report, UnpatchedGem, VulnerableRuby};
use crate::text::{has_prefix, join2};

verus! {

/// What an audit reports and what it leaves out.
#[derive(Debug)]
pub struct ScanOptions {
    /// Advisories to leave out, such as `CVE-2020-1234` or `GHSA-aaaa-bbbb-cccc`.
    pub ignore: IdSet,
    /// Where given, only advisories at least this severe are reported.
    pub severity: Option<Criticality>,
    /// Whether versions that cannot be read are announced.
    pub strict: bool,
}

impl Default for ScanOptions {
    fn default() -> (options: ScanOptions)
        ensures
            options.ignore@ == Set::<Seq<char>>::empty(),
            options.severity is None,
            !options.strict,
    {
        ScanOptions { ignore: IdSet::new(), severity: None, strict: false }
    }
}

/// Which advisories are reported.
pub struct Policy {
    pub ignore: Set<Seq<char>>,
    pub severity: Option<Criticality>,
}

impl Policy {
    /// Whether none of the advisory's identifiers is ignored.
    pub open spec fn keeps(self, advisory: AdvisoryModel) -> bool {
        forall|i: int|
            0 <= i < advisory.identifiers.len() ==> !self.ignore.contains(
                #[trigger] advisory.identifiers[i],
            )
    }

    /// Whether the advisory is as severe as asked for. One of unknown severity is
    /// not, where a severity is asked for.
    pub open spec fn severe_enough(self, advisory: AdvisoryModel) -> bool {
        match self.severity {
            None => true,
            Some(threshold) => match advisory.criticality {
                None => false,
                Some(c) => c.level() >= threshold.level(),
            },
        }
    }

    /// Whether the advisory is reported.
    pub open spec fn reports(self, advisory: AdvisoryModel) -> bool {
        self.keeps(advisory) && self.severe_enough(advisory)
    }

    /// Being reported.
    pub open spec fn reported(self) -> spec_fn(AdvisoryModel) -> bool {
        |a: AdvisoryModel| self.reports(a)
    }
}

impl ScanOptions {
    /// Which advisories these options have reported.
    pub open spec fn policy(self) -> Policy {
        Policy { ignore: self.ignore@, severity: self.severity }
    }

    /// Whether an advisory is reported, going by the ignore list and the severity
    /// asked for.
    pub fn should_report(&self, advisory: &Advisory) -> (b: bool)
        ensures
            b == self.policy().reports(advisory.deep_view()),
    {
        let ghost model = advisory.deep_view();
        let ids = advisory.identifiers();
        if !self.ignore.is_empty() {
            for i in 0..ids.len()
                invariant
                    model == advisory.deep_view(),
                    ids.deep_view() == model.identifiers,
                    forall|j: int|
                        0 <= j < i ==> !self.ignore@.contains(#[trigger] model.identifiers[j]),
            {
                if self.ignore.contains(ids[i].as_str()) {
                    assert(self.policy().ignore.contains(model.identifiers[i as int]));
                    return false;
                }
            }
        }
        assert(self.policy().keeps(model));
        match self.severity {
            None => true,
            Some(threshold) => match advisory.criticality() {
                Some(c) => c.at_least(threshold),
                None => false,
            },
        }
    }
}

/// Why an audit cannot be made.
#[derive(Debug)]
pub enum ScanError {
    /// There is no lockfile at this path.
    LockfileNotFound(String),
    /// The lockfile cannot be read, for this reason.
    LockfileParse(String),
    /// The advisory database fails, for this reason.
    Database(String),
    /// A file cannot be accessed, for this reason.
    Io(String),
}

impl ScanError {
    /// The text that tells a user what went wrong.
    pub open spec fn message(self) -> Seq<char> {
        match self {
            ScanError::LockfileNotFound(path) => "Gemfile.lock not found: "@ + path@,
            ScanError::LockfileParse(reason) => "failed to parse Gemfile.lock: "@ + reason@,
            ScanError::Database(reason) => "database error: "@ + reason@,
            ScanError::Io(reason) => "IO error: "@ + reason@,
        }
    }

    /// Tells a user what went wrong.
    pub fn to_string(&self) -> (s: String)
        ensures
            s@ == self.message(),
    {
        match self {
            ScanError::LockfileNotFound(path) => join2("Gemfile.lock not found: ", path.as_str()),
            ScanError::LockfileParse(reason) => join2(
                "failed to parse Gemfile.lock: ",
                reason.as_str(),
            ),
            ScanError::Database(reason) => join2("database error: ", reason.as_str()),
            ScanError::Io(reason) => join2("IO error: ", reason.as_str()),
        }
    }
}

/// What came of reading a lockfile.
#[derive(Debug)]
pub enum LockfileRead {
    /// It could not be opened.
    Unreadable,
    /// Its text is no lockfile, for this reason.
    Malformed(String),
    /// It was read.
    Parsed(Lockfile),
}

/// Audits one lockfile against one database.
#[derive(Debug)]
pub struct Scanner {
    lockfile: Lockfile,
    database: Database,
}

/// Whether an address names a protocol without encryption or authentication.
pub open spec fn insecure_uri(uri: Seq<char>) -> bool {
    "git://"@.is_prefix_of(uri) || "http://"@.is_prefix_of(uri)
}

/// Whether `uri` names a protocol without encryption or authentication.
pub fn is_insecure_uri(uri: &str) -> (b: bool)
    ensures
        b == insecure_uri(uri@),
{
    has_prefix(uri, "git://") || has_prefix(uri, "http://")
}

/// Whether a source is fetched over an insecure protocol. A gem server does not
/// speak the git protocol, and a local directory is always safe.
pub open spec fn insecure_scheme(source: SourceModel) -> bool {
    match source {
        SourceModel::Git { remote, .. } => insecure_uri(remote),
        SourceModel::Rubygems { remote, .. } => "http://"@.is_prefix_of(remote),
        SourceModel::Path { .. } => false,
    }
}

/// Whether a source lies inside the local network.
pub open spec fn internal(source: SourceModel) -> bool {
    match source {
        SourceModel::Git { internal, .. } => internal,
        SourceModel::Rubygems { internal, .. } => internal,
        SourceModel::Path { .. } => false,
    }
}

/// Being fetched over an insecure protocol from outside the local network.
pub open spec fn exposed() -> spec_fn(SourceModel) -> bool {
    |s: SourceModel| insecure_scheme(s) && !internal(s)
}

/// The addresses of the sources that are fetched over an insecure protocol from
/// outside the local network.
pub open spec fn exposed_remotes(sources: Seq<SourceModel>) -> Seq<Seq<char>> {
    sources.filter(exposed()).map_values(|s: SourceModel| s.remote())
}

/// Whether a source is fetched over an insecure protocol, so that it matters
/// whether its host lies inside the local network.
pub fn has_insecure_scheme(source: &Source) -> (b: bool)
    ensures
        b == insecure_scheme(source.deep_view()),
{
    match source {
        Source::Git(git) => is_insecure_uri(git.remote.as_str()),
        Source::Rubygems(gem) => has_prefix(gem.remote.as_str(), "http://"),
        Source::Path(_) => false,
    }
}

/// What is found on one version: a finding for each advisory that is reported, in
/// the order in which the database names them.
pub open spec fn findings_on(
    name: Seq<char>,
    version: Seq<char>,
    advisories: Seq<AdvisoryModel>,
    policy: Policy,
) -> Seq<Finding> {
    advisories.filter(policy.reported()).map_values(
        |a: AdvisoryModel| Finding { name, version, advisory: a },
    )
}

/// What is found on the gems `specs`, in their order.
pub open spec fn gem_findings(
    specs: Seq<SpecModel>,
    answers: Seq<AnswerModel>,
    policy: Policy,
) -> Seq<Finding>
    decreases specs.len(),
{
    if specs.len() == 0 {
        Seq::empty()
    } else {
        let last = specs.last();
        let before = gem_findings(specs.drop_last(), answers, policy);
        if last.version_valid {
            before + findings_on(
                last.name,
                last.version,
                crate::advisory::answer_on(answers, last.name, last.version).0,
                policy,
            )
        } else {
            before
        }
    }
}

/// How many of the gems `specs` have a version that cannot be read.
pub open spec fn unreadable_versions(specs: Seq<SpecModel>) -> nat {
    specs.filter(unreadable()).len()
}

/// How many advisories cannot be loaded when the database is asked about `specs`.
pub open spec fn gem_load_errors(specs: Seq<SpecModel>, answers: Seq<AnswerModel>) -> nat
    decreases specs.len(),
{
    if specs.len() == 0 {
        0
    } else {
        let last = specs.last();
        let before = gem_load_errors(specs.drop_last(), answers);
        if last.version_valid {
            before + crate::advisory::answer_on(answers, last.name, last.version).1
        } else {
            before
        }
    }
}

/// Having a version that cannot be read.
pub open spec fn unreadable() -> spec_fn(SpecModel) -> bool {
    |s: SpecModel| !s.version_valid
}

/// What a user is told of a gem whose version cannot be read.
pub open spec fn version_warning(spec: SpecModel) -> Seq<char> {
    "warning: failed to parse version '"@ + spec.version + "' for gem '"@ + spec.name + "'"@
}

/// What is found on the locked interpreter, the most severe first, and how many
/// advisories could not be loaded.
pub open spec fn ruby_findings(
    ruby: Option<RubyModel>,
    answers: Seq<AnswerModel>,
    policy: Policy,
) -> (Seq<Finding>, nat) {
    match ruby {
        Some(rv) if rv.version_valid => {
            let answer = crate::advisory::answer_on(answers, rv.engine, rv.version);
            (
                crate::severity::by_severity(
                    findings_on(rv.engine, rv.version, answer.0, policy),
                    crate::report::finding_rank(),
                ),
                answer.1,
            )
        },
        _ => (Seq::empty(), 0),
    }
}

proof fn lemma_distinct_specs_len(specs: Seq<SpecModel>)
    ensures
        crate::lockfile::distinct_specs(specs).len() <= specs.len(),
    decreases specs.len(),
{
    if specs.len() > 0 {
        lemma_distinct_specs_len(specs.drop_last());
    }
}

proof fn lemma_load_errors_grow(specs: Seq<SpecModel>, n: int, answers: Seq<AnswerModel>)
    requires
        0 <= n <= specs.len(),
    ensures
        gem_load_errors(crate::lockfile::distinct_specs(specs.take(n)), answers)
            <= gem_load_errors(crate::lockfile::distinct_specs(specs), answers),
    decreases specs.len(),
{
    if n < specs.len() {
        let known = crate::lockfile::distinct_specs(specs.drop_last());
        assert(specs.drop_last().take(n) =~= specs.take(n));
        lemma_load_errors_grow(specs.drop_last(), n, answers);
        assert(known.push(specs.last()).drop_last() =~= known);
    } else {
        assert(specs.take(n) =~= specs);
    }
}

/// One more advisory adds at most its own finding.
proof fn lemma_findings_on_step(
    name: Seq<char>,
    version: Seq<char>,
    advisories: Seq<AdvisoryModel>,
    n: int,
    policy: Policy,
)
    requires
        0 <= n < advisories.len(),
    ensures
        findings_on(name, version, advisories.take(n + 1), policy) == if policy.reports(
            advisories[n],
        ) {
            findings_on(name, version, advisories.take(n), policy).push(
                Finding { name, version, advisory: advisories[n] },
            )
        } else {
            findings_on(name, version, advisories.take(n), policy)
        },
{
    reveal(Seq::filter);
    assert(advisories.take(n + 1).drop_last() =~= advisories.take(n));
    assert(findings_on(name, version, advisories.take(n + 1), policy) =~= if policy.reports(
        advisories[n],
    ) {
        findings_on(name, version, advisories.take(n), policy).push(
            Finding { name, version, advisory: advisories[n] },
        )
    } else {
        findings_on(name, version, advisories.take(n), policy)
    });
}

impl Scanner {
    /// Where the audited gems come from.
    pub closed spec fn sources(self) -> Seq<SourceModel> {
        self.lockfile.sources.deep_view()
    }

    /// The audited gems.
    pub closed spec fn specs(self) -> Seq<SpecModel> {
        self.lockfile.specs.deep_view()
    }

    /// The audited interpreter, where there is one.
    pub closed spec fn ruby(self) -> Option<RubyModel> {
        self.lockfile.ruby_version.deep_view()
    }

    /// What the database says of gem versions.
    pub closed spec fn gem_answers(self) -> Seq<AnswerModel> {
        self.database.gems.deep_view()
    }

    /// What the database says of interpreter versions.
    pub closed spec fn ruby_answers(self) -> Seq<AnswerModel> {
        self.database.rubies.deep_view()
    }

    /// The audited gems, each name and version once.
    pub open spec fn distinct(self) -> Seq<SpecModel> {
        crate::lockfile::distinct_specs(self.specs())
    }

    /// Whether `self` audits `lockfile` against `database`.
    pub open spec fn audits(self, lockfile: Lockfile, database: Database) -> bool {
        &&& self.sources() == lockfile.sources.deep_view()
        &&& self.specs() == lockfile.specs.deep_view()
        &&& self.ruby() == lockfile.ruby_version.deep_view()
        &&& self.gem_answers() == database.gems.deep_view()
        &&& self.ruby_answers() == database.rubies.deep_view()
    }

    /// What is found on the locked gems under `policy`, the most severe first.
    pub open spec fn gems_under(self, policy: Policy) -> Seq<Finding> {
        crate::severity::by_severity(
            gem_findings(self.distinct(), self.gem_answers(), policy),
            crate::report::finding_rank(),
        )
    }

    /// How many advisories on the locked gems cannot be loaded.
    pub open spec fn gem_errors(self) -> nat {
        gem_load_errors(self.distinct(), self.gem_answers())
    }

    /// What is found on the locked interpreter under `policy`, and how many
    /// advisories on it cannot be loaded.
    pub open spec fn rubies_under(self, policy: Policy) -> (Seq<Finding>, nat) {
        ruby_findings(self.ruby(), self.ruby_answers(), policy)
    }

    /// Prepares an audit of the lockfile at `lockfile_path`, given what came of
    /// reading it.
    pub fn new(lockfile_path: String, read: LockfileRead, database: Database) -> (r: Result<
        Scanner,
        ScanError,
    >)
        ensures
            match read {
                LockfileRead::Unreadable => r == Err::<Scanner, ScanError>(
                    ScanError::LockfileNotFound(lockfile_path),
                ),
                LockfileRead::Malformed(reason) => r == Err::<Scanner, ScanError>(
                    ScanError::LockfileParse(reason),
                ),
                LockfileRead::Parsed(lockfile) => r matches Ok(scanner) && scanner.audits(
                    lockfile,
                    database,
                ),
            },
    {
        match read {
            LockfileRead::Unreadable => Err(ScanError::LockfileNotFound(lockfile_path)),
            LockfileRead::Malformed(reason) => Err(ScanError::LockfileParse(reason)),
            LockfileRead::Parsed(lockfile) => Ok(Scanner::from_lockfile(lockfile, database)),
        }
    }

    /// Prepares an audit of a lockfile that is at hand.
    pub fn from_lockfile(lockfile: Lockfile, database: Database) -> (scanner: Scanner)
        ensures
            scanner.audits(lockfile, database),
    {
        Scanner { lockfile, database }
    }

    /// Makes a full audit.
    pub fn scan(&self, options: &ScanOptions) -> (report: Report)
        requires
            self.gem_errors() + self.rubies_under(options.policy()).1 <= usize::MAX,
        ensures
            report.insecure_sources.deep_view() == exposed_remotes(self.sources()),
            report.unpatched_gems.deep_view() == self.gems_under(options.policy()),
            report.vulnerable_rubies.deep_view() == self.rubies_under(options.policy()).0,
            report.version_parse_errors == unreadable_versions(self.distinct()),
            report.advisory_load_errors == self.gem_errors() + self.rubies_under(
                options.policy(),
            ).1,
    {
        let insecure_sources = self.scan_sources();
        let (unpatched_gems, version_parse_errors, gem_load_errors) = self.scan_specs(options);
        let (vulnerable_rubies, ruby_load_errors) = self.scan_ruby(options);
        Report {
            insecure_sources,
            unpatched_gems,
            vulnerable_rubies,
            version_parse_errors,
            advisory_load_errors: gem_load_errors + ruby_load_errors,
        }
    }

    /// Finds the sources that are fetched over an insecure protocol (`git://`,
    /// `http://`) from outside the local network.
    pub fn scan_sources(&self) -> (found: Vec<InsecureSource>)
        ensures
            found.deep_view() == exposed_remotes(self.sources()),
    {
        let ghost sources = self.sources();
        let mut found: Vec<InsecureSource> = Vec::new();
        proof {
            reveal(Seq::filter);
            assert(found.deep_view() =~= exposed_remotes(sources.take(0)));
        }
        for i in 0..self.lockfile.sources.len()
            invariant
                sources == self.lockfile.sources.deep_view(),
                found.deep_view() == exposed_remotes(sources.take(i as int)),
        {
            let ghost before = found.deep_view();
            let source = &self.lockfile.sources[i];
            match source {
                Source::Git(git) => {
                    if is_insecure_uri(git.remote.as_str()) && !git.internal {
                        found.push(InsecureSource { source: git.remote.clone() });
                    }
                },
                Source::Rubygems(gem) => {
                    if has_prefix(gem.remote.as_str(), "http://") && !gem.internal {
                        found.push(InsecureSource { source: gem.remote.clone() });
                    }
                },
                Source::Path(_) => {},
            }
            proof {
                reveal(Seq::filter);
                assert(sources.take(i + 1).drop_last() =~= sources.take(i as int));
                assert(exposed_remotes(sources.take(i + 1)) =~= if exposed()(sources[i as int]) {
                    before.push(sources[i as int].remote())
                } else {
                    before
                });
                assert(found.deep_view() =~= exposed_remotes(sources.take(i + 1)));
            }
        }
        assert(sources.take(sources.len() as int) =~= sources);
        found
    }

    /// Adds what is found on the gem `spec` to `results`, and tells how many
    /// advisories on it could not be loaded.
    fn audit_gem(
        &self,
        spec: &LockedSpec,
        options: &ScanOptions,
        results: &mut Vec<UnpatchedGem>,
    ) -> (load_errors: usize)
        ensures
            final(results).deep_view() == old(results).deep_view() + findings_on(
                spec.name@,
                spec.version@,
                crate::advisory::answer_on(self.gem_answers(), spec.name@, spec.version@).0,
                options.policy(),
            ),
            load_errors == crate::advisory::answer_on(
                self.gem_answers(),
                spec.name@,
                spec.version@,
            ).1,
    {
        let ghost policy = options.policy();
        let ghost before = results.deep_view();
        let (advisories, load_errors) = self.database.check_gem(&spec.name, &spec.version);
        let ghost models = advisories.deep_view();
        proof {
            reveal(Seq::filter);
            assert(before + findings_on(spec.name@, spec.version@, models.take(0), policy)
                =~= before);
        }
        for advisory in it: advisories
            invariant
                it.seq().len() == models.len(),
                forall|k: int|
                    0 <= k < models.len() ==> (#[trigger] it.seq()[k]).deep_view() == models[k],
                policy == options.policy(),
                results.deep_view() == before + findings_on(
                    spec.name@,
                    spec.version@,
                    models.take(it.index() as int),
                    policy,
                ),
        {
            let ghost n = it.index() as int;
            let ghost so_far = results.deep_view();
            proof {
                assert(advisory.deep_view() == models[n]);
                lemma_findings_on_step(spec.name@, spec.version@, models, n, policy);
            }
            if options.should_report(&advisory) {
                results.push(
                    UnpatchedGem {
                        name: spec.name.clone(),
                        version: spec.version.clone(),
                        advisory,
                    },
                );
                assert(results.deep_view() =~= so_far.push(
                    Finding { name: spec.name@, version: spec.version@, advisory: models[n] },
                ));
            }
            assert(results.deep_view() =~= before + findings_on(
                spec.name@,
                spec.version@,
                models.take(n + 1),
                policy,
            ));
        }
        assert(models.take(models.len() as int) =~= models);
        load_errors
    }

    /// Audits the locked gems: what is found, the most severe first, how many
    /// versions could not be read, and how many advisories could not be loaded.
    ///
    /// Each name and version is looked at once, so that the platform variants of a
    /// gem count as one.
    pub fn scan_specs(&self, options: &ScanOptions) -> (found: (Vec<UnpatchedGem>, usize, usize))
        requires
            self.gem_errors() <= usize::MAX,
        ensures
            found.0.deep_view() == self.gems_under(options.policy()),
            found.1 == unreadable_versions(self.distinct()),
            found.2 == self.gem_errors(),
    {
        let ghost specs = self.specs();
        let ghost answers = self.gem_answers();
        let ghost policy = options.policy();
        let mut results: Vec<UnpatchedGem> = Vec::new();
        let mut version_parse_errors: usize = 0;
        let mut advisory_load_errors: usize = 0;
        proof {
            reveal(Seq::filter);
            assert(results.deep_view() =~= Seq::<Finding>::empty());
        }
        for i in 0..self.lockfile.specs.len()
            invariant
                specs == self.lockfile.specs.deep_view(),
                answers == self.database.gems.deep_view(),
                policy == options.policy(),
                gem_load_errors(crate::lockfile::distinct_specs(specs), answers) <= usize::MAX,
                results.deep_view() == gem_findings(
                    crate::lockfile::distinct_specs(specs.take(i as int)),
                    answers,
                    policy,
                ),
                version_parse_errors == unreadable_versions(
                    crate::lockfile::distinct_specs(specs.take(i as int)),
                ),
                advisory_load_errors == gem_load_errors(
                    crate::lockfile::distinct_specs(specs.take(i as int)),
                    answers,
                ),
        {
            let ghost known = crate::lockfile::distinct_specs(specs.take(i as int));
            let ghost spec = specs[i as int];
            proof {
                reveal(Seq::filter);
                assert(specs.take(i + 1).drop_last() =~= specs.take(i as int));
                assert(known.push(spec).drop_last() =~= known);
                lemma_load_errors_grow(specs, i + 1, answers);
                lemma_distinct_specs_len(specs.take(i as int));
                known.lemma_filter_len(unreadable());
            }
            if !self.lockfile.repeats(i) {
                let spec = &self.lockfile.specs[i];
                if spec.version_valid {
                    let load_errors = self.audit_gem(spec, options, &mut results);
                    advisory_load_errors = advisory_load_errors + load_errors;
                } else {
                    version_parse_errors = version_parse_errors + 1;
                }
            }
        }
        assert(specs.take(specs.len() as int) =~= specs);
        let ghost unsorted = results@;
        let sorted = crate::severity::sort_by_severity(results);
        proof {
            let view = |g: UnpatchedGem| g.deep_view();
            crate::severity::lemma_by_severity_of_images(
                unsorted,
                view,
                |g: UnpatchedGem| crate::severity::Ranked::rank(g),
                crate::report::finding_rank(),
            );
            assert(unsorted.map_values(view) =~= gem_findings(self.distinct(), answers, policy));
            assert(sorted.deep_view() =~= sorted@.map_values(view));
        }
        (sorted, version_parse_errors, advisory_load_errors)
    }

    /// What a user is told of the locked versions that cannot be read: nothing,
    /// unless the audit is strict.
    pub fn version_warnings(&self, options: &ScanOptions) -> (lines: Vec<String>)
        ensures
            lines.deep_view() == if options.strict {
                self.distinct().filter(unreadable()).map_values(|s: SpecModel| version_warning(s))
            } else {
                Seq::<Seq<char>>::empty()
            },
    {
        let mut lines: Vec<String> = Vec::new();
        assert(lines.deep_view() =~= Seq::<Seq<char>>::empty());
        if !options.strict {
            return lines;
        }
        let ghost specs = self.specs();
        let ghost warn = |s: SpecModel| version_warning(s);
        proof {
            reveal(Seq::filter);
            assert(lines.deep_view() =~= crate::lockfile::distinct_specs(specs.take(0)).filter(
                unreadable(),
            ).map_values(warn));
        }
        for i in 0..self.lockfile.specs.len()
            invariant
                specs == self.lockfile.specs.deep_view(),
                warn == (|s: SpecModel| version_warning(s)),
                lines.deep_view() == crate::lockfile::distinct_specs(specs.take(i as int)).filter(
                    unreadable(),
                ).map_values(warn),
        {
            let ghost known = crate::lockfile::distinct_specs(specs.take(i as int));
            let ghost before = lines.deep_view();
            proof {
                reveal(Seq::filter);
                assert(specs.take(i + 1).drop_last() =~= specs.take(i as int));
                assert(known.push(specs[i as int]).drop_last() =~= known);
            }
            let spec = &self.lockfile.specs[i];
            if !self.lockfile.repeats(i) && !spec.version_valid {
                let mut line = join2("warning: failed to parse version '", spec.version.as_str());
                line.append("' for gem '");
                line.append(spec.name.as_str());
                line.append("'");
                assert(line@ =~= version_warning(specs[i as int]));
                lines.push(line);
                assert(lines.deep_view() =~= before.push(version_warning(specs[i as int])));
                assert(lines.deep_view() =~= known.push(specs[i as int]).filter(
                    unreadable(),
                ).map_values(warn));
            }
        }
        assert(specs.take(specs.len() as int) =~= specs);
        lines
    }

    /// Audits the locked interpreter: what is found, the most severe first, and how
    /// many advisories could not be loaded. Nothing is found where no interpreter
    /// is locked or its version cannot be read.
    pub fn scan_ruby(&self, options: &ScanOptions) -> (found: (Vec<VulnerableRuby>, usize))
        ensures
            found.0.deep_view() == self.rubies_under(options.policy()).0,
            found.1 == self.rubies_under(options.policy()).1,
    {
        let mut results: Vec<VulnerableRuby> = Vec::new();
        assert(results.deep_view() =~= Seq::<Finding>::empty());
        let ruby = match &self.lockfile.ruby_version {
            Some(ruby) => ruby,
            None => {
                return (results, 0);
            },
        };
        if !ruby.version_valid {
            return (results, 0);
        }
        let ghost policy = options.policy();
        let (advisories, load_errors) = self.database.check_ruby(&ruby.engine, &ruby.version);
        let ghost models = advisories.deep_view();
        proof {
            reveal(Seq::filter);
            assert(findings_on(ruby.engine@, ruby.version@, models.take(0), policy) =~= Seq::<
                Finding,
            >::empty());
        }
        for advisory in it: advisories
            invariant
                it.seq().len() == models.len(),
                forall|k: int|
                    0 <= k < models.len() ==> (#[trigger] it.seq()[k]).deep_view() == models[k],
                policy == options.policy(),
                results.deep_view() == findings_on(
                    ruby.engine@,
                    ruby.version@,
                    models.take(it.index() as int),
                    policy,
                ),
        {
            let ghost n = it.index() as int;
            let ghost so_far = results.deep_view();
            proof {
                assert(advisory.deep_view() == models[n]);
                lemma_findings_on_step(ruby.engine@, ruby.version@, models, n, policy);
            }
            if options.should_report(&advisory) {
                results.push(
                    VulnerableRuby {
                        engine: ruby.engine.clone(),
                        version: ruby.version.clone(),
                        advisory,
                    },
                );
                assert(results.deep_view() =~= so_far.push(
                    Finding { name: ruby.engine@, version: ruby.version@, advisory: models[n] },
                ));
            }
        }
        assert(models.take(models.len() as int) =~= models);
        let ghost unsorted = results@;
        let sorted = crate::severity::sort_by_severity(results);
        proof {
            let view = |g: VulnerableRuby| g.deep_view();
            crate::severity::lemma_by_severity_of_images(
                unsorted,
                view,
                |g: VulnerableRuby| crate::severity::Ranked::rank(g),
                crate::report::finding_rank(),
            );
            assert(unsorted.map_values(view) =~= findings_on(
                ruby.engine@,
                ruby.version@,
                models,
                policy,
            ));
            assert(sorted.deep_view() =~= sorted@.map_values(view));
        }
        (sorted, load_errors)
    }
}

} // verus!
