//! What a user of an audit can count on, in plain terms: texts letter by letter,
//! severities by name, ages in seconds.

use vstd::prelude::*;

use crate::advisory::{
    answer_model, answer_on, asks_about_ruby, reply_model, severity_rank, Advisory, AdvisoryModel,
    Answer, AnswerModel, Criticality, Database,
};
use crate::audit::{is_report_on, load_errors, sums_up, warnings_on, Findings};
use crate::check::{
    age_in_days, all_comments, all_ids, comment_text, effective_max_age, entries, stale,
    staleness_text,
};
use crate::configuration::Configuration;
use crate::fixes::{fixes_in, FixResult};
use crate::lockfile::{
    distinct_specs, locks, queries, GitSource, LockedSpec, Lockfile, PathSource, RubyModel, RubyVersion,
    RubygemsSource, Source, SourceModel, SpecModel,
};
use crate::options::{CheckOptions, PrintPlan};
use crate::report::{finding_rank, Finding, InsecureSource, Report, UnpatchedGem, VulnerableRuby};
use crate::scanner::{
    exposed_remotes, findings_on, gem_findings, gem_load_errors, insecure_scheme, insecure_uri,
    unreadable, unreadable_versions, version_warning, Policy, ScanError, ScanOptions, Scanner,
};
use crate::severity::has_rank;
use crate::text::decimal_text;

verus! {

/// What is stated of a lockfile is stated of its fields as they are.
pub proof fn lockfiles_are_taken_as_they_are(
    spec: LockedSpec,
    ruby: RubyVersion,
    git: GitSource,
    server: RubygemsSource,
    directory: PathSource,
)
    ensures
        spec.deep_view().name == spec.name@,
        spec.deep_view().version == spec.version@,
        spec.deep_view().version_valid == spec.version_valid,
        ruby.deep_view().engine == ruby.engine@,
        ruby.deep_view().version == ruby.version@,
        ruby.deep_view().version_valid == ruby.version_valid,
        Source::Git(git).deep_view() == (SourceModel::Git {
            remote: git.remote@,
            internal: git.internal,
        }),
        Source::Rubygems(server).deep_view() == (SourceModel::Rubygems {
            remote: server.remote@,
            internal: server.internal,
        }),
        Source::Path(directory).deep_view() == (SourceModel::Path { remote: directory.remote@ }),
{
}

/// What is stated of advisories, and of what the database says, is stated of their
/// fields as they are.
pub proof fn advisories_are_taken_as_they_are(advisory: Advisory, answer: Answer)
    ensures
        advisory.deep_view().id == advisory.id@,
        advisory.deep_view().title == advisory.title.deep_view(),
        advisory.deep_view().identifiers == advisory.identifiers.deep_view(),
        advisory.deep_view().criticality == advisory.criticality,
        answer.deep_view().name == answer.name@,
        answer.deep_view().version == answer.version@,
        answer.deep_view().advisories == answer.advisories.deep_view(),
        answer.deep_view().load_errors == answer.load_errors,
{
}

/// What is stated of a report is stated of its fields as they are.
pub proof fn reports_are_taken_as_they_are(
    gem: UnpatchedGem,
    ruby: VulnerableRuby,
    source: InsecureSource,
)
    ensures
        gem.deep_view().name == gem.name@,
        gem.deep_view().version == gem.version@,
        gem.deep_view().advisory == gem.advisory.deep_view(),
        ruby.deep_view().name == ruby.engine@,
        ruby.deep_view().version == ruby.version@,
        ruby.deep_view().advisory == ruby.advisory.deep_view(),
        source.deep_view() == source.source@,
{
}

/// Severities stand in the order none, low, medium, high, critical, and an unknown
/// severity stands below them all.
pub proof fn severities_stand_in_order()
    ensures
        Criticality::NoImpact.level() < Criticality::Low.level() < Criticality::Medium.level()
            < Criticality::High.level() < Criticality::Critical.level(),
        0 <= severity_rank(None) < severity_rank(Some(Criticality::NoImpact)) < severity_rank(
            Some(Criticality::Low),
        ) < severity_rank(Some(Criticality::Medium)) < severity_rank(Some(Criticality::High))
            < severity_rank(Some(Criticality::Critical)) <= 5,
{
}

/// Each severity is written as the word that the command line takes for it.
pub proof fn severities_are_written_out(c: Criticality)
    ensures
        c.word() == match c {
            Criticality::NoImpact => seq!['n', 'o', 'n', 'e'],
            Criticality::Low => seq!['l', 'o', 'w'],
            Criticality::Medium => seq!['m', 'e', 'd', 'i', 'u', 'm'],
            Criticality::High => seq!['h', 'i', 'g', 'h'],
            Criticality::Critical => seq!['c', 'r', 'i', 't', 'i', 'c', 'a', 'l'],
        },
{
    reveal_strlit("none");
    reveal_strlit("low");
    reveal_strlit("medium");
    reveal_strlit("high");
    reveal_strlit("critical");
}

/// An advisory is reported exactly where none of its identifiers is ignored and,
/// if a severity is asked for, its own is known and stands at that place or above.
pub proof fn reported_means_wanted(p: Policy, advisory: AdvisoryModel)
    ensures
        p.reports(advisory) <==> {
            &&& forall|i: int|
                0 <= i < advisory.identifiers.len() ==> !p.ignore.contains(
                    #[trigger] advisory.identifiers[i],
                )
            &&& match (p.severity, advisory.criticality) {
                (None, _) => true,
                (Some(_), None) => false,
                (Some(Criticality::NoImpact), Some(_)) => true,
                (Some(Criticality::Low), Some(c)) => c !is NoImpact,
                (Some(Criticality::Medium), Some(c)) => c is Medium || c is High || c is Critical,
                (Some(Criticality::High), Some(c)) => c is High || c is Critical,
                (Some(Criticality::Critical), Some(c)) => c is Critical,
            }
        },
        p.reported()(advisory) <==> p.reports(advisory),
{
}

/// What is asked for on the command line is what an audit goes by. Identifiers
/// named there take the place of those in the settings.
pub proof fn audits_go_by_what_is_asked(
    opts: CheckOptions,
    config: Configuration,
    scan: ScanOptions,
    id: Seq<char>,
)
    ensures
        opts.policy(config).severity == opts.severity,
        opts.policy(config).ignore.contains(id) <==> if opts.ignore@.len() == 0 {
            config.ignore@.contains(id)
        } else {
            exists|k: int| 0 <= k < opts.ignore@.len() && (#[trigger] opts.ignore@[k])@ == id
        },
        opts.policy(config).ignore == opts.ignored(config),
        scan.policy().severity == scan.severity,
        scan.policy().ignore == scan.ignore@,
{
    let named = opts.ignore.deep_view();
    if opts.ignore@.len() > 0 {
        if named.to_set().contains(id) {
            let k = choose|k: int| 0 <= k < named.len() && named[k] == id;
            assert(opts.ignore@[k]@ == id);
        }
        if exists|k: int| 0 <= k < opts.ignore@.len() && (#[trigger] opts.ignore@[k])@ == id {
            let k = choose|k: int|
                0 <= k < opts.ignore@.len() && (#[trigger] opts.ignore@[k])@ == id;
            assert(named[k] == id);
        }
    }
}

/// Whoever asks for a severity sees nothing below it, of gems or of the interpreter,
/// and nothing whose severity is unknown.
pub proof fn nothing_below_the_severity_asked_for(
    report: Report,
    lockfile: Lockfile,
    database: Database,
    p: Policy,
    threshold: Criticality,
)
    requires
        is_report_on(report, lockfile, database, p),
        p.severity == Some(threshold),
    ensures
        forall|k: int|
            0 <= k < report.unpatched_gems@.len() ==> match (
                threshold,
                (#[trigger] report.unpatched_gems@[k]).advisory.criticality,
            ) {
                (_, None) => false,
                (Criticality::NoImpact, Some(_)) => true,
                (Criticality::Low, Some(c)) => c !is NoImpact,
                (Criticality::Medium, Some(c)) => c is Medium || c is High || c is Critical,
                (Criticality::High, Some(c)) => c is High || c is Critical,
                (Criticality::Critical, Some(c)) => c is Critical,
            },
        forall|k: int|
            0 <= k < report.vulnerable_rubies@.len() ==> match (
                threshold,
                (#[trigger] report.vulnerable_rubies@[k]).advisory.criticality,
            ) {
                (_, None) => false,
                (Criticality::NoImpact, Some(_)) => true,
                (Criticality::Low, Some(c)) => c !is NoImpact,
                (Criticality::Medium, Some(c)) => c is Medium || c is High || c is Critical,
                (Criticality::High, Some(c)) => c is High || c is Critical,
                (Criticality::Critical, Some(c)) => c is Critical,
            },
{
    let gems = report.unpatched_gems.deep_view();
    let rubies = report.vulnerable_rubies.deep_view();
    assert forall|k: int| 0 <= k < gems.len() implies p.reports(
        (#[trigger] report.unpatched_gems@[k]).advisory.deep_view(),
    ) by {
        assert(gems.contains(gems[k]));
        lemma_gems_contain(report, lockfile, database, p, gems[k]);
        assert(gems[k] == report.unpatched_gems@[k].deep_view());
    }
    assert forall|k: int| 0 <= k < rubies.len() implies p.reports(
        (#[trigger] report.vulnerable_rubies@[k]).advisory.deep_view(),
    ) by {
        assert(rubies.contains(rubies[k]));
        lemma_rubies_contain(report, lockfile, database, p, rubies[k]);
        assert(rubies[k] == report.vulnerable_rubies@[k].deep_view());
    }
}

/// The gems in a report, in terms of the list without repetitions.
proof fn lemma_gems_contain(
    report: Report,
    lockfile: Lockfile,
    database: Database,
    p: Policy,
    f: Finding,
)
    requires
        is_report_on(report, lockfile, database, p),
    ensures
        report.unpatched_gems.deep_view().contains(f) <==> exists|i: int|
            {
                &&& 0 <= i < distinct_specs(lockfile.specs.deep_view()).len()
                &&& (#[trigger] distinct_specs(lockfile.specs.deep_view())[i]).version_valid
                &&& distinct_specs(lockfile.specs.deep_view())[i].name == f.name
                &&& distinct_specs(lockfile.specs.deep_view())[i].version == f.version
                &&& answer_on(database.gems.deep_view(), f.name, f.version).0.contains(f.advisory)
                &&& p.reports(f.advisory)
            },
{
    let looked_at = distinct_specs(lockfile.specs.deep_view());
    let answers = database.gems.deep_view();
    crate::laws::lemma_specs_found(looked_at, answers, p, f);
    crate::laws::lemma_by_severity_contains(gem_findings(looked_at, answers, p), f);
    if crate::laws::affects(looked_at, answers, p, f) {
        let i = choose|i: int|
            0 <= i < looked_at.len() && crate::laws::affects_spec(
                #[trigger] looked_at[i],
                answers,
                p,
                f,
            );
        assert(looked_at[i].version_valid);
    }
    if exists|i: int|
        {
            &&& 0 <= i < looked_at.len()
            &&& (#[trigger] looked_at[i]).version_valid
            &&& looked_at[i].name == f.name
            &&& looked_at[i].version == f.version
            &&& answer_on(answers, f.name, f.version).0.contains(f.advisory)
            &&& p.reports(f.advisory)
        } {
        let i = choose|i: int|
            {
                &&& 0 <= i < looked_at.len()
                &&& (#[trigger] looked_at[i]).version_valid
                &&& looked_at[i].name == f.name
                &&& looked_at[i].version == f.version
                &&& answer_on(answers, f.name, f.version).0.contains(f.advisory)
                &&& p.reports(f.advisory)
            };
        assert(crate::laws::affects_spec(looked_at[i], answers, p, f));
    }
}

/// The advisories on the interpreter in a report.
proof fn lemma_rubies_contain(
    report: Report,
    lockfile: Lockfile,
    database: Database,
    p: Policy,
    f: Finding,
)
    requires
        is_report_on(report, lockfile, database, p),
    ensures
        report.vulnerable_rubies.deep_view().contains(f) <==> match lockfile.ruby_version {
            None => false,
            Some(rv) => {
                &&& rv.version_valid
                &&& rv.engine@ == f.name
                &&& rv.version@ == f.version
                &&& answer_on(database.rubies.deep_view(), f.name, f.version).0.contains(f.advisory)
                &&& p.reports(f.advisory)
            },
        },
{
    match lockfile.ruby_version {
        Some(rv) if rv.version_valid => {
            let advisories = answer_on(database.rubies.deep_view(), rv.engine@, rv.version@).0;
            crate::laws::lemma_found_on(rv.engine@, rv.version@, advisories, p, f);
            crate::laws::lemma_by_severity_contains(
                findings_on(rv.engine@, rv.version@, advisories, p),
                f,
            );
        },
        _ => {},
    }
}

/// A gem repeats an earlier one exactly where name and version are the same texts.
pub proof fn repetition_means_same_texts(specs: Seq<SpecModel>, spec: SpecModel)
    ensures
        locks(specs, spec) <==> exists|i: int|
            0 <= i < specs.len() && (#[trigger] specs[i]).name == spec.name && specs[i].version
                == spec.version,
{
    if exists|i: int|
        0 <= i < specs.len() && (#[trigger] specs[i]).name == spec.name && specs[i].version
            == spec.version {
        let i = choose|i: int|
            0 <= i < specs.len() && (#[trigger] specs[i]).name == spec.name && specs[i].version
                == spec.version;
        assert(crate::lockfile::same_gem(specs[i], spec));
    }
}

/// One more locked gem is looked at, after all others, unless its name and version
/// are, as texts, those of one before it. The database is asked about it if its
/// version can be read.
pub proof fn one_more_gem_is_looked_at(specs: Seq<SpecModel>, spec: SpecModel)
    ensures
        distinct_specs(Seq::empty()) == Seq::<SpecModel>::empty(),
        queries(Seq::empty()) == Seq::<SpecModel>::empty(),
        ({
            let repeated = exists|i: int|
                0 <= i < specs.len() && (#[trigger] specs[i]).name == spec.name && specs[i].version
                    == spec.version;
            &&& distinct_specs(specs.push(spec)) == if repeated {
                distinct_specs(specs)
            } else {
                distinct_specs(specs).push(spec)
            }
            &&& queries(specs.push(spec)) == if repeated || !spec.version_valid {
                queries(specs)
            } else {
                queries(specs).push(spec)
            }
        }),
{
    reveal(Seq::filter);
    repetition_means_same_texts(specs, spec);
    assert(specs.push(spec).drop_last() =~= specs);
    assert(distinct_specs(specs).push(spec).drop_last() =~= distinct_specs(specs));
}

/// No locked gem is passed over: it has its entry among those that are looked at,
/// with exactly its name and exactly its version.
pub proof fn no_gem_is_passed_over(specs: Seq<SpecModel>, i: int) -> (k: int)
    requires
        0 <= i < specs.len(),
    ensures
        0 <= k < distinct_specs(specs).len(),
        distinct_specs(specs)[k].name == specs[i].name,
        distinct_specs(specs)[k].version == specs[i].version,
    decreases specs.len(),
{
    let rest = specs.drop_last();
    let last = specs.last();
    assert(rest.push(last) =~= specs);
    one_more_gem_is_looked_at(rest, last);
    if i < rest.len() {
        no_gem_is_passed_over(rest, i)
    } else if exists|m: int|
        0 <= m < rest.len() && (#[trigger] rest[m]).name == last.name && rest[m].version
            == last.version {
        let m = choose|m: int|
            0 <= m < rest.len() && (#[trigger] rest[m]).name == last.name && rest[m].version
                == last.version;
        no_gem_is_passed_over(rest, m)
    } else {
        distinct_specs(rest).len() as int
    }
}

/// Nothing else is looked at: each entry is a locked gem, the first with its name and
/// version.
pub proof fn only_locked_gems_are_looked_at(specs: Seq<SpecModel>, k: int) -> (i: int)
    requires
        0 <= k < distinct_specs(specs).len(),
    ensures
        0 <= i < specs.len(),
        specs[i] == distinct_specs(specs)[k],
        forall|j: int|
            0 <= j < i ==> (#[trigger] specs[j]).name != specs[i].name || specs[j].version
                != specs[i].version,
    decreases specs.len(),
{
    let rest = specs.drop_last();
    let last = specs.last();
    assert(rest.push(last) =~= specs);
    one_more_gem_is_looked_at(rest, last);
    let i = if k < distinct_specs(rest).len() {
        only_locked_gems_are_looked_at(rest, k)
    } else {
        specs.len() - 1
    };
    assert forall|j: int| 0 <= j < i implies (#[trigger] specs[j]).name != specs[i].name
        || specs[j].version != specs[i].version by {
        assert(rest[j] == specs[j]);
    }
    i
}

/// Nothing is looked at twice: two entries differ in name or in version.
pub proof fn no_gem_is_looked_at_twice(specs: Seq<SpecModel>, j: int, k: int)
    requires
        0 <= j < k < distinct_specs(specs).len(),
    ensures
        distinct_specs(specs)[j].name != distinct_specs(specs)[k].name || distinct_specs(
            specs,
        )[j].version != distinct_specs(specs)[k].version,
    decreases specs.len(),
{
    let rest = specs.drop_last();
    let last = specs.last();
    assert(rest.push(last) =~= specs);
    one_more_gem_is_looked_at(rest, last);
    if k < distinct_specs(rest).len() {
        no_gem_is_looked_at_twice(rest, j, k);
    } else {
        let i = only_locked_gems_are_looked_at(rest, j);
        assert(rest[i].name != last.name || rest[i].version != last.version);
    }
}

/// What the database says of a version is what its first answer with exactly that
/// name and version says, and nothing where there is none.
pub proof fn the_first_answer_counts(
    answers: Seq<AnswerModel>,
    name: Seq<char>,
    version: Seq<char>,
    i: int,
)
    ensures
        0 <= i < answers.len() && answers[i].name == name && answers[i].version == version && (
        forall|j: int|
            0 <= j < i ==> (#[trigger] answers[j]).name != name || answers[j].version != version)
            ==> answer_on(answers, name, version) == (answers[i].advisories, answers[i].load_errors),
        (forall|j: int|
            0 <= j < answers.len() ==> (#[trigger] answers[j]).name != name || answers[j].version
                != version) ==> answer_on(answers, name, version) == (
            Seq::<AdvisoryModel>::empty(),
            0nat,
        ),
    decreases answers.len(),
{
    if answers.len() > 0 {
        let rest = answers.drop_first();
        the_first_answer_counts(rest, name, version, i - 1);
        assert(answers[0] == answers[0]);
        if forall|j: int|
            0 <= j < answers.len() ==> (#[trigger] answers[j]).name != name || answers[j].version
                != version {
            assert forall|j: int| 0 <= j < rest.len() implies (#[trigger] rest[j]).name != name
                || rest[j].version != version by {
                assert(rest[j] == answers[j + 1]);
            }
        }
        if 0 < i < answers.len() && (forall|j: int|
            0 <= j < i ==> (#[trigger] answers[j]).name != name || answers[j].version != version) {
            assert(rest[i - 1] == answers[i]);
            assert forall|j: int| 0 <= j < i - 1 implies (#[trigger] rest[j]).name != name
                || rest[j].version != version by {
                assert(rest[j] == answers[j + 1]);
            }
        }
    }
}

/// A gem is reported with an advisory exactly where the lockfile itself locks that
/// name in that version, the version can be read at its first mention, the database
/// names the advisory for exactly that name and version, and it is to be reported.
pub proof fn gems_are_reported_as_locked(
    report: Report,
    lockfile: Lockfile,
    database: Database,
    p: Policy,
    f: Finding,
)
    requires
        is_report_on(report, lockfile, database, p),
    ensures
        (exists|k: int|
            {
                &&& 0 <= k < report.unpatched_gems@.len()
                &&& (#[trigger] report.unpatched_gems@[k]).name@ == f.name
                &&& report.unpatched_gems@[k].version@ == f.version
                &&& report.unpatched_gems@[k].advisory.deep_view() == f.advisory
            }) <==> {
            &&& exists|i: int|
                {
                    &&& 0 <= i < lockfile.specs@.len()
                    &&& (#[trigger] lockfile.specs@[i]).name@ == f.name
                    &&& lockfile.specs@[i].version@ == f.version
                    &&& lockfile.specs@[i].version_valid
                    &&& forall|j: int|
                        0 <= j < i ==> (#[trigger] lockfile.specs@[j]).name@ != f.name
                            || lockfile.specs@[j].version@ != f.version
                }
            &&& answer_on(database.gems.deep_view(), f.name, f.version).0.contains(f.advisory)
            &&& p.reports(f.advisory)
        },
{
    let raw = lockfile.specs@;
    let specs = lockfile.specs.deep_view();
    let looked_at = distinct_specs(specs);
    let gems = report.unpatched_gems.deep_view();
    let listed = exists|k: int|
        {
            &&& 0 <= k < report.unpatched_gems@.len()
            &&& (#[trigger] report.unpatched_gems@[k]).name@ == f.name
            &&& report.unpatched_gems@[k].version@ == f.version
            &&& report.unpatched_gems@[k].advisory.deep_view() == f.advisory
        };
    let locked = exists|i: int|
        {
            &&& 0 <= i < raw.len()
            &&& (#[trigger] raw[i]).name@ == f.name
            &&& raw[i].version@ == f.version
            &&& raw[i].version_valid
            &&& forall|j: int|
                0 <= j < i ==> (#[trigger] raw[j]).name@ != f.name || raw[j].version@ != f.version
        };
    lemma_gems_contain(report, lockfile, database, p, f);
    assert(listed <==> gems.contains(f)) by {
        if listed {
            let k = choose|k: int|
                {
                    &&& 0 <= k < report.unpatched_gems@.len()
                    &&& (#[trigger] report.unpatched_gems@[k]).name@ == f.name
                    &&& report.unpatched_gems@[k].version@ == f.version
                    &&& report.unpatched_gems@[k].advisory.deep_view() == f.advisory
                };
            assert(gems[k] == f);
        }
        if gems.contains(f) {
            let k = choose|k: int| 0 <= k < gems.len() && gems[k] == f;
            assert(report.unpatched_gems@[k].deep_view() == f);
        }
    }
    if gems.contains(f) {
        let k = choose|k: int|
            {
                &&& 0 <= k < looked_at.len()
                &&& (#[trigger] looked_at[k]).version_valid
                &&& looked_at[k].name == f.name
                &&& looked_at[k].version == f.version
                &&& answer_on(database.gems.deep_view(), f.name, f.version).0.contains(f.advisory)
                &&& p.reports(f.advisory)
            };
        let i = only_locked_gems_are_looked_at(specs, k);
        assert(raw[i].deep_view() == specs[i]);
        assert forall|j: int| 0 <= j < i implies (#[trigger] raw[j]).name@ != f.name
            || raw[j].version@ != f.version by {
            assert(specs[j] == raw[j].deep_view());
        }
        assert(locked);
    }
    if locked {
        let i = choose|i: int|
            {
                &&& 0 <= i < raw.len()
                &&& (#[trigger] raw[i]).name@ == f.name
                &&& raw[i].version@ == f.version
                &&& raw[i].version_valid
                &&& forall|j: int|
                    0 <= j < i ==> (#[trigger] raw[j]).name@ != f.name || raw[j].version@
                        != f.version
            };
        assert(specs[i] == raw[i].deep_view());
        let k = no_gem_is_passed_over(specs, i);
        let m = only_locked_gems_are_looked_at(specs, k);
        assert(specs[m] == raw[m].deep_view());
        assert(m == i) by {
            if m < i {
                assert(raw[m].name@ != f.name || raw[m].version@ != f.version);
            }
            if i < m {
                assert(specs[i].name != specs[m].name || specs[i].version != specs[m].version);
            }
        }
        assert(looked_at[k].version_valid);
    }
}

/// Where it goes by the text of a version whether it can be read, a gem is reported
/// with an advisory exactly where any mention in the lockfile has its name and a
/// version that can be read, the database names the advisory for it, and it is to be
/// reported.
pub proof fn every_mention_counts(
    report: Report,
    lockfile: Lockfile,
    database: Database,
    p: Policy,
    f: Finding,
)
    requires
        is_report_on(report, lockfile, database, p),
        forall|i: int, j: int|
            0 <= i < lockfile.specs@.len() && 0 <= j < lockfile.specs@.len()
                && #[trigger] lockfile.specs@[i].version@ == #[trigger] lockfile.specs@[j].version@
                ==> lockfile.specs@[i].version_valid == lockfile.specs@[j].version_valid,
    ensures
        (exists|k: int|
            {
                &&& 0 <= k < report.unpatched_gems@.len()
                &&& (#[trigger] report.unpatched_gems@[k]).name@ == f.name
                &&& report.unpatched_gems@[k].version@ == f.version
                &&& report.unpatched_gems@[k].advisory.deep_view() == f.advisory
            }) <==> {
            &&& exists|i: int|
                {
                    &&& 0 <= i < lockfile.specs@.len()
                    &&& (#[trigger] lockfile.specs@[i]).name@ == f.name
                    &&& lockfile.specs@[i].version@ == f.version
                    &&& lockfile.specs@[i].version_valid
                }
            &&& answer_on(database.gems.deep_view(), f.name, f.version).0.contains(f.advisory)
            &&& p.reports(f.advisory)
        },
{
    gems_are_reported_as_locked(report, lockfile, database, p, f);
    if exists|i: int|
        {
            &&& 0 <= i < lockfile.specs@.len()
            &&& (#[trigger] lockfile.specs@[i]).name@ == f.name
            &&& lockfile.specs@[i].version@ == f.version
            &&& lockfile.specs@[i].version_valid
        } {
        let i = choose|i: int|
            {
                &&& 0 <= i < lockfile.specs@.len()
                &&& (#[trigger] lockfile.specs@[i]).name@ == f.name
                &&& lockfile.specs@[i].version@ == f.version
                &&& lockfile.specs@[i].version_valid
            };
        let first = lemma_first_mention(lockfile.specs@, f.name, f.version, i);
        assert(lockfile.specs@[first].version@ == lockfile.specs@[i].version@);
    }
}

/// The first mention of a gem that is mentioned.
proof fn lemma_first_mention(
    specs: Seq<LockedSpec>,
    name: Seq<char>,
    version: Seq<char>,
    i: int,
) -> (first: int)
    requires
        0 <= i < specs.len(),
        specs[i].name@ == name,
        specs[i].version@ == version,
    ensures
        0 <= first <= i,
        specs[first].name@ == name,
        specs[first].version@ == version,
        forall|j: int|
            0 <= j < first ==> (#[trigger] specs[j]).name@ != name || specs[j].version@ != version,
    decreases i,
{
    if exists|j: int|
        0 <= j < i && (#[trigger] specs[j]).name@ == name && specs[j].version@ == version {
        let j = choose|j: int|
            0 <= j < i && (#[trigger] specs[j]).name@ == name && specs[j].version@ == version;
        lemma_first_mention(specs, name, version, j)
    } else {
        i
    }
}

/// An advisory on the interpreter is reported exactly where the lockfile names that
/// interpreter in that version, the version can be read, the database names the
/// advisory for exactly that interpreter and version, and it is to be reported.
pub proof fn interpreters_are_reported_as_locked(
    report: Report,
    lockfile: Lockfile,
    database: Database,
    p: Policy,
    f: Finding,
)
    requires
        is_report_on(report, lockfile, database, p),
    ensures
        (exists|k: int|
            {
                &&& 0 <= k < report.vulnerable_rubies@.len()
                &&& (#[trigger] report.vulnerable_rubies@[k]).engine@ == f.name
                &&& report.vulnerable_rubies@[k].version@ == f.version
                &&& report.vulnerable_rubies@[k].advisory.deep_view() == f.advisory
            }) <==> {
            &&& lockfile.ruby_version matches Some(rv) && rv.version_valid && rv.engine@ == f.name
                && rv.version@ == f.version
            &&& answer_on(database.rubies.deep_view(), f.name, f.version).0.contains(f.advisory)
            &&& p.reports(f.advisory)
        },
{
    let rubies = report.vulnerable_rubies.deep_view();
    lemma_rubies_contain(report, lockfile, database, p, f);
    if rubies.contains(f) {
        let k = choose|k: int| 0 <= k < rubies.len() && rubies[k] == f;
        assert(report.vulnerable_rubies@[k].deep_view() == f);
    }
    if exists|k: int|
        {
            &&& 0 <= k < report.vulnerable_rubies@.len()
            &&& (#[trigger] report.vulnerable_rubies@[k]).engine@ == f.name
            &&& report.vulnerable_rubies@[k].version@ == f.version
            &&& report.vulnerable_rubies@[k].advisory.deep_view() == f.advisory
        } {
        let k = choose|k: int|
            {
                &&& 0 <= k < report.vulnerable_rubies@.len()
                &&& (#[trigger] report.vulnerable_rubies@[k]).engine@ == f.name
                &&& report.vulnerable_rubies@[k].version@ == f.version
                &&& report.vulnerable_rubies@[k].advisory.deep_view() == f.advisory
            };
        assert(rubies[k] == f);
    }
}

/// A report lists gems from critical over high, medium and low to none, and those of
/// unknown severity last. It lists advisories on the interpreter in the same order.
pub proof fn the_most_severe_come_first(
    report: Report,
    lockfile: Lockfile,
    database: Database,
    p: Policy,
    i: int,
    j: int,
)
    requires
        is_report_on(report, lockfile, database, p),
        0 <= i <= j,
    ensures
        j < report.unpatched_gems@.len() ==> match (
            report.unpatched_gems@[i].advisory.criticality,
            report.unpatched_gems@[j].advisory.criticality,
        ) {
            (_, None) => true,
            (None, Some(_)) => false,
            (Some(_), Some(Criticality::NoImpact)) => true,
            (Some(c), Some(Criticality::Low)) => c !is NoImpact,
            (Some(c), Some(Criticality::Medium)) => c is Medium || c is High || c is Critical,
            (Some(c), Some(Criticality::High)) => c is High || c is Critical,
            (Some(c), Some(Criticality::Critical)) => c is Critical,
        },
        j < report.vulnerable_rubies@.len() ==> match (
            report.vulnerable_rubies@[i].advisory.criticality,
            report.vulnerable_rubies@[j].advisory.criticality,
        ) {
            (_, None) => true,
            (None, Some(_)) => false,
            (Some(_), Some(Criticality::NoImpact)) => true,
            (Some(c), Some(Criticality::Low)) => c !is NoImpact,
            (Some(c), Some(Criticality::Medium)) => c is Medium || c is High || c is Critical,
            (Some(c), Some(Criticality::High)) => c is High || c is Critical,
            (Some(c), Some(Criticality::Critical)) => c is Critical,
        },
{
    let gems = report.unpatched_gems.deep_view();
    let rubies = report.vulnerable_rubies.deep_view();
    if j < gems.len() {
        crate::severity::severity_never_rises(
            gem_findings(
                distinct_specs(lockfile.specs.deep_view()),
                database.gems.deep_view(),
                p,
            ),
            finding_rank(),
        );
        assert(finding_rank()(gems[i]) >= finding_rank()(gems[j]));
        assert(gems[i] == report.unpatched_gems@[i].deep_view());
        assert(gems[j] == report.unpatched_gems@[j].deep_view());
    }
    if j < rubies.len() {
        let rv = lockfile.ruby_version->0;
        crate::severity::severity_never_rises(
            findings_on(
                rv.engine@,
                rv.version@,
                answer_on(database.rubies.deep_view(), rv.engine@, rv.version@).0,
                p,
            ),
            finding_rank(),
        );
        assert(finding_rank()(rubies[i]) >= finding_rank()(rubies[j]));
        assert(rubies[i] == report.vulnerable_rubies@[i].deep_view());
        assert(rubies[j] == report.vulnerable_rubies@[j].deep_view());
    }
}

/// Within one severity a report lists what was found in the order in which it was
/// found, all of it and each as often: gems in the order of the lockfile, the
/// advisories on one version in the order in which the database names them.
pub proof fn one_severity_stays_in_order(
    report: Report,
    lockfile: Lockfile,
    database: Database,
    p: Policy,
    severity: Option<Criticality>,
)
    requires
        is_report_on(report, lockfile, database, p),
    ensures
        report.unpatched_gems.deep_view().filter(
            |f: Finding| f.advisory.criticality == severity,
        ) == gem_findings(
            distinct_specs(lockfile.specs.deep_view()),
            database.gems.deep_view(),
            p,
        ).filter(|f: Finding| f.advisory.criticality == severity),
        report.vulnerable_rubies.deep_view().filter(
            |f: Finding| f.advisory.criticality == severity,
        ) == (match lockfile.ruby_version {
            Some(rv) if rv.version_valid => findings_on(
                rv.engine@,
                rv.version@,
                answer_on(database.rubies.deep_view(), rv.engine@, rv.version@).0,
                p,
            ),
            _ => Seq::empty(),
        }).filter(|f: Finding| f.advisory.criticality == severity),
{
    let same = |f: Finding| f.advisory.criticality == severity;
    let r = severity_rank(severity);
    assert forall|f: Finding| #[trigger] same(f) == has_rank(finding_rank(), r)(f) by {
        assert(finding_rank()(f) == severity_rank(f.advisory.criticality));
    }
    assert(same =~= has_rank(finding_rank(), r));
    crate::severity::equal_severity_keeps_order(
        gem_findings(distinct_specs(lockfile.specs.deep_view()), database.gems.deep_view(), p),
        finding_rank(),
        r,
    );
    match lockfile.ruby_version {
        Some(rv) if rv.version_valid => {
            crate::severity::equal_severity_keeps_order(
                findings_on(
                    rv.engine@,
                    rv.version@,
                    answer_on(database.rubies.deep_view(), rv.engine@, rv.version@).0,
                    p,
                ),
                finding_rank(),
                r,
            );
        },
        _ => {},
    }
}

/// One more gem to look at adds what is found on it, after all else. One whose
/// version cannot be read adds nothing but to the number of such gems.
pub proof fn one_more_gem_adds_its_findings(
    specs: Seq<SpecModel>,
    spec: SpecModel,
    answers: Seq<AnswerModel>,
    p: Policy,
)
    ensures
        gem_findings(Seq::empty(), answers, p) == Seq::<Finding>::empty(),
        gem_findings(specs.push(spec), answers, p) == if spec.version_valid {
            gem_findings(specs, answers, p) + findings_on(
                spec.name,
                spec.version,
                answer_on(answers, spec.name, spec.version).0,
                p,
            )
        } else {
            gem_findings(specs, answers, p)
        },
        gem_load_errors(Seq::empty(), answers) == 0,
        gem_load_errors(specs.push(spec), answers) == gem_load_errors(specs, answers) + (
        if spec.version_valid {
            answer_on(answers, spec.name, spec.version).1
        } else {
            0
        }),
        unreadable_versions(Seq::empty()) == 0,
        unreadable_versions(specs.push(spec)) == unreadable_versions(specs) + (
        if spec.version_valid {
            0int
        } else {
            1
        }),
{
    reveal(Seq::filter);
    assert(specs.push(spec).drop_last() =~= specs);
}

/// One more advisory on a version adds one finding, on that version and with that
/// advisory, if it is to be reported, and else nothing.
pub proof fn one_more_advisory_adds_its_finding(
    name: Seq<char>,
    version: Seq<char>,
    advisories: Seq<AdvisoryModel>,
    advisory: AdvisoryModel,
    p: Policy,
)
    ensures
        findings_on(name, version, Seq::empty(), p) == Seq::<Finding>::empty(),
        findings_on(name, version, advisories.push(advisory), p) == if p.reports(advisory) {
            findings_on(name, version, advisories, p).push(Finding { name, version, advisory })
        } else {
            findings_on(name, version, advisories, p)
        },
{
    reveal(Seq::filter);
    let more = advisories.push(advisory);
    assert(more.drop_last() =~= advisories);
    assert(findings_on(name, version, more, p) =~= if p.reports(advisory) {
        findings_on(name, version, advisories, p).push(Finding { name, version, advisory })
    } else {
        findings_on(name, version, advisories, p)
    });
}

/// A report counts the gems whose version cannot be read, each name and version once,
/// and the advisories that could not be loaded, of gems and of the interpreter.
pub proof fn reports_count_what_went_unread(
    report: Report,
    lockfile: Lockfile,
    database: Database,
    p: Policy,
)
    requires
        is_report_on(report, lockfile, database, p),
    ensures
        report.version_parse_errors == unreadable_versions(
            distinct_specs(lockfile.specs.deep_view()),
        ),
        report.advisory_load_errors == gem_load_errors(
            distinct_specs(lockfile.specs.deep_view()),
            database.gems.deep_view(),
        ) + (match lockfile.ruby_version {
            Some(rv) if rv.version_valid => answer_on(
                database.rubies.deep_view(),
                rv.engine@,
                rv.version@,
            ).1,
            _ => 0,
        }),
        report.advisory_load_errors == load_errors(lockfile, database, p),
{
}

/// A strict audit tells of each gem whose version cannot be read, once, in the order
/// of the lockfile, by name and version. Any other audit tells of none.
pub proof fn strict_audits_tell_of_unread_versions(
    before: Lockfile,
    lockfile: Lockfile,
    spec: LockedSpec,
)
    requires
        lockfile.specs@ == before.specs@.push(spec),
    ensures
        warnings_on(lockfile, false) == Seq::<Seq<char>>::empty(),
        before.specs@.len() == 0 ==> warnings_on(before, true) == Seq::<Seq<char>>::empty(),
        warnings_on(lockfile, true) == if spec.version_valid || (exists|i: int|
            0 <= i < before.specs@.len() && (#[trigger] before.specs@[i]).name@ == spec.name@
                && before.specs@[i].version@ == spec.version@) {
            warnings_on(before, true)
        } else {
            warnings_on(before, true).push(
                "warning: failed to parse version '"@ + spec.version@ + "' for gem '"@ + spec.name@
                    + "'"@,
            )
        },
{
    reveal(Seq::filter);
    let old = before.specs.deep_view();
    let new = lockfile.specs.deep_view();
    let model = spec.deep_view();
    let warn = |s: SpecModel| version_warning(s);
    assert(new =~= old.push(model));
    one_more_gem_is_looked_at(old, model);
    let raw_repeated = exists|i: int|
        0 <= i < before.specs@.len() && (#[trigger] before.specs@[i]).name@ == spec.name@
            && before.specs@[i].version@ == spec.version@;
    let repeated = exists|i: int|
        0 <= i < old.len() && (#[trigger] old[i]).name == model.name && old[i].version
            == model.version;
    assert(raw_repeated == repeated) by {
        if raw_repeated {
            let i = choose|i: int|
                0 <= i < before.specs@.len() && (#[trigger] before.specs@[i]).name@ == spec.name@
                    && before.specs@[i].version@ == spec.version@;
            assert(old[i] == before.specs@[i].deep_view());
        }
        if repeated {
            let i = choose|i: int|
                0 <= i < old.len() && (#[trigger] old[i]).name == model.name && old[i].version
                    == model.version;
            assert(old[i] == before.specs@[i].deep_view());
        }
    }
    let known = distinct_specs(old);
    assert(known.push(model).drop_last() =~= known);
    if !repeated && !spec.version_valid {
        assert(known.push(model).filter(unreadable()) =~= known.filter(unreadable()).push(model));
        assert(warnings_on(lockfile, true) =~= warnings_on(before, true).push(
            version_warning(model),
        ));
    }
    if before.specs@.len() == 0 {
        assert(old =~= Seq::<SpecModel>::empty());
        assert(warnings_on(before, true) =~= Seq::<Seq<char>>::empty());
    }
}

/// An audit audits the lockfile and asks the database that it was given.
pub proof fn audits_are_of_what_was_given(scanner: Scanner, lockfile: Lockfile, database: Database)
    requires
        scanner.audits(lockfile, database),
    ensures
        scanner.sources() == lockfile.sources.deep_view(),
        scanner.specs() == lockfile.specs.deep_view(),
        scanner.ruby() == lockfile.ruby_version.deep_view(),
        scanner.gem_answers() == database.gems.deep_view(),
        scanner.ruby_answers() == database.rubies.deep_view(),
        scanner.distinct() == distinct_specs(lockfile.specs.deep_view()),
{
}

/// Whether a lockfile is audited in one go or part by part, the report is the same.
pub proof fn the_parts_make_up_the_report(
    scanner: Scanner,
    lockfile: Lockfile,
    database: Database,
    p: Policy,
    report: Report,
)
    requires
        scanner.audits(lockfile, database),
        report.insecure_sources.deep_view() == exposed_remotes(scanner.sources()),
        report.unpatched_gems.deep_view() == scanner.gems_under(p),
        report.vulnerable_rubies.deep_view() == scanner.rubies_under(p).0,
        report.version_parse_errors == unreadable_versions(scanner.distinct()),
        report.advisory_load_errors == scanner.gem_errors() + scanner.rubies_under(p).1,
    ensures
        is_report_on(report, lockfile, database, p),
{
}

/// An address is insecure exactly where it begins with `git://` or with `http://`,
/// letter by letter.
pub proof fn insecure_addresses_begin_so(uri: Seq<char>)
    ensures
        insecure_uri(uri) <==> {
            ||| {
                &&& uri.len() >= 6
                &&& uri[0] == 'g'
                &&& uri[1] == 'i'
                &&& uri[2] == 't'
                &&& uri[3] == ':'
                &&& uri[4] == '/'
                &&& uri[5] == '/'
            }
            ||| {
                &&& uri.len() >= 7
                &&& uri[0] == 'h'
                &&& uri[1] == 't'
                &&& uri[2] == 't'
                &&& uri[3] == 'p'
                &&& uri[4] == ':'
                &&& uri[5] == '/'
                &&& uri[6] == '/'
            }
        },
{
    lemma_git_prefix(uri);
    lemma_http_prefix(uri);
}

proof fn lemma_git_prefix(uri: Seq<char>)
    ensures
        "git://"@.is_prefix_of(uri) <==> {
            &&& uri.len() >= 6
            &&& uri[0] == 'g'
            &&& uri[1] == 'i'
            &&& uri[2] == 't'
            &&& uri[3] == ':'
            &&& uri[4] == '/'
            &&& uri[5] == '/'
        },
{
    reveal_strlit("git://");
    if uri.len() >= 6 {
        let start = uri.take(6);
        assert(start[0] == uri[0] && start[1] == uri[1] && start[2] == uri[2] && start[3] == uri[3]
            && start[4] == uri[4] && start[5] == uri[5]);
        if uri[0] == 'g' && uri[1] == 'i' && uri[2] == 't' && uri[3] == ':' && uri[4] == '/'
            && uri[5] == '/' {
            assert(start =~= "git://"@);
        }
    }
}

proof fn lemma_http_prefix(uri: Seq<char>)
    ensures
        "http://"@.is_prefix_of(uri) <==> {
            &&& uri.len() >= 7
            &&& uri[0] == 'h'
            &&& uri[1] == 't'
            &&& uri[2] == 't'
            &&& uri[3] == 'p'
            &&& uri[4] == ':'
            &&& uri[5] == '/'
            &&& uri[6] == '/'
        },
{
    reveal_strlit("http://");
    if uri.len() >= 7 {
        let start = uri.take(7);
        assert(start[0] == uri[0] && start[1] == uri[1] && start[2] == uri[2] && start[3] == uri[3]
            && start[4] == uri[4] && start[5] == uri[5] && start[6] == uri[6]);
        if uri[0] == 'h' && uri[1] == 't' && uri[2] == 't' && uri[3] == 'p' && uri[4] == ':'
            && uri[5] == '/' && uri[6] == '/' {
            assert(start =~= "http://"@);
        }
    }
}

/// Whatever follows `http://` in its address, a gem server outside the local network
/// is reported, and so is a git repository; a git repository is so for `git://` too.
pub proof fn plain_http_is_reported(rest: Seq<char>)
    ensures
        ({
            let http = seq!['h', 't', 't', 'p', ':', '/', '/'] + rest;
            let git = seq!['g', 'i', 't', ':', '/', '/'] + rest;
            &&& exposed_remotes(
                seq![SourceModel::Rubygems { remote: http, internal: false }],
            ) == seq![http]
            &&& exposed_remotes(seq![SourceModel::Git { remote: http, internal: false }])
                == seq![http]
            &&& exposed_remotes(seq![SourceModel::Git { remote: git, internal: false }])
                == seq![git]
            &&& exposed_remotes(
                seq![SourceModel::Rubygems { remote: git, internal: false }],
            ) == Seq::<Seq<char>>::empty()
            &&& exposed_remotes(
                seq![SourceModel::Rubygems { remote: http, internal: true }],
            ) == Seq::<Seq<char>>::empty()
            &&& exposed_remotes(seq![SourceModel::Git { remote: http, internal: true }]) == Seq::<
                Seq<char>,
            >::empty()
            &&& exposed_remotes(seq![SourceModel::Git { remote: git, internal: true }]) == Seq::<
                Seq<char>,
            >::empty()
            &&& exposed_remotes(seq![SourceModel::Path { remote: http }]) == Seq::<
                Seq<char>,
            >::empty()
        }),
{
    let http = seq!['h', 't', 't', 'p', ':', '/', '/'] + rest;
    let git = seq!['g', 'i', 't', ':', '/', '/'] + rest;
    sources_are_judged_one_by_one(
        Seq::empty(),
        SourceModel::Rubygems { remote: http, internal: false },
    );
    sources_are_judged_one_by_one(
        Seq::empty(),
        SourceModel::Git { remote: http, internal: false },
    );
    sources_are_judged_one_by_one(Seq::empty(), SourceModel::Git { remote: git, internal: false });
    sources_are_judged_one_by_one(
        Seq::empty(),
        SourceModel::Rubygems { remote: git, internal: false },
    );
    sources_are_judged_one_by_one(
        Seq::empty(),
        SourceModel::Rubygems { remote: http, internal: true },
    );
    sources_are_judged_one_by_one(Seq::empty(), SourceModel::Git { remote: http, internal: true });
    sources_are_judged_one_by_one(Seq::empty(), SourceModel::Git { remote: git, internal: true });
    sources_are_judged_one_by_one(Seq::empty(), SourceModel::Path { remote: http });
}

/// One more source adds its address, after all others, exactly where it lies outside
/// the local network and is a gem server at `http://` or a git repository at
/// `http://` or `git://`, letter by letter.
pub proof fn sources_are_judged_one_by_one(sources: Seq<SourceModel>, source: SourceModel)
    ensures
        exposed_remotes(Seq::empty()) == Seq::<Seq<char>>::empty(),
        exposed_remotes(sources.push(source)) == match source {
            SourceModel::Git { remote, internal } => if !internal && {
                ||| {
                    &&& remote.len() >= 6
                    &&& remote[0] == 'g'
                    &&& remote[1] == 'i'
                    &&& remote[2] == 't'
                    &&& remote[3] == ':'
                    &&& remote[4] == '/'
                    &&& remote[5] == '/'
                }
                ||| {
                    &&& remote.len() >= 7
                    &&& remote[0] == 'h'
                    &&& remote[1] == 't'
                    &&& remote[2] == 't'
                    &&& remote[3] == 'p'
                    &&& remote[4] == ':'
                    &&& remote[5] == '/'
                    &&& remote[6] == '/'
                }
            } {
                exposed_remotes(sources).push(remote)
            } else {
                exposed_remotes(sources)
            },
            SourceModel::Rubygems { remote, internal } => if !internal && {
                &&& remote.len() >= 7
                &&& remote[0] == 'h'
                &&& remote[1] == 't'
                &&& remote[2] == 't'
                &&& remote[3] == 'p'
                &&& remote[4] == ':'
                &&& remote[5] == '/'
                &&& remote[6] == '/'
            } {
                exposed_remotes(sources).push(remote)
            } else {
                exposed_remotes(sources)
            },
            SourceModel::Path { .. } => exposed_remotes(sources),
        },
        insecure_scheme(source) <==> match source {
            SourceModel::Git { remote, .. } => insecure_uri(remote),
            SourceModel::Rubygems { remote, .. } => {
                &&& remote.len() >= 7
                &&& remote[0] == 'h'
                &&& remote[1] == 't'
                &&& remote[2] == 't'
                &&& remote[3] == 'p'
                &&& remote[4] == ':'
                &&& remote[5] == '/'
                &&& remote[6] == '/'
            },
            SourceModel::Path { .. } => false,
        },
{
    reveal(Seq::filter);
    let more = sources.push(source);
    let address = |s: SourceModel| s.remote();
    assert(more.drop_last() =~= sources);
    insecure_addresses_begin_so(source.remote());
    lemma_http_prefix(source.remote());
    let kept = sources.filter(crate::scanner::exposed());
    if crate::scanner::exposed()(source) {
        assert(kept.push(source).map_values(address) =~= kept.map_values(address).push(
            source.remote(),
        ));
    }
    assert(exposed_remotes(Seq::empty()) =~= Seq::<Seq<char>>::empty());
}

/// The insecure sources in a report are those of the lockfile.
pub proof fn reports_list_the_insecure_sources(
    report: Report,
    lockfile: Lockfile,
    database: Database,
    p: Policy,
)
    requires
        is_report_on(report, lockfile, database, p),
    ensures
        report.insecure_sources.deep_view() == exposed_remotes(lockfile.sources.deep_view()),
{
}

/// Of a list of results the fixes are picked in order, each of them, and nothing
/// else: one fix alone is picked, one failure alone is not, and what is picked of two
/// lists in a row is what is picked of the one and then of the other.
pub proof fn every_fix_is_picked<F, U>(
    a: Seq<FixResult<F, U>>,
    b: Seq<FixResult<F, U>>,
    fix: F,
    failure: U,
)
    ensures
        fixes_in(Seq::<FixResult<F, U>>::empty()) == Seq::<F>::empty(),
        fixes_in(seq![FixResult::<F, U>::Fixed(fix)]) == seq![fix],
        fixes_in(seq![FixResult::<F, U>::Unfixed(failure)]) == Seq::<F>::empty(),
        fixes_in(a + b) == fixes_in(a) + fixes_in(b),
{
    reveal(Seq::filter);
    let keep = crate::fixes::is_fix::<F, U>();
    Seq::filter_distributes_over_add(a, b, keep);
    assert(fixes_in(a + b) =~= fixes_in(a) + fixes_in(b));
    let one = seq![FixResult::<F, U>::Fixed(fix)];
    let none = seq![FixResult::<F, U>::Unfixed(failure)];
    assert(one.drop_last() =~= Seq::empty());
    assert(none.drop_last() =~= Seq::empty());
    assert(fixes_in(one) =~= seq![fix]);
    assert(fixes_in(none) =~= Seq::<F>::empty());
    assert(fixes_in(Seq::<FixResult<F, U>>::empty()) =~= Seq::<F>::empty());
}

/// As many fixes are picked as there are among the results, and a fix is picked
/// exactly where it is one of them.
pub proof fn as_many_fixes_as_there_are<F, U>(results: Seq<FixResult<F, U>>, fix: F)
    ensures
        fixes_in(results).len() == Set::new(
            |i: int| 0 <= i < results.len() && results[i] is Fixed,
        ).len(),
        Set::new(|i: int| 0 <= i < results.len() && results[i] is Fixed).finite(),
        fixes_in(results).contains(fix) <==> exists|i: int|
            0 <= i < results.len() && #[trigger] results[i] == FixResult::<F, U>::Fixed(fix),
    decreases results.len(),
{
    reveal(Seq::filter);
    let places = Set::new(|i: int| 0 <= i < results.len() && results[i] is Fixed);
    let picked = fixes_in(results);
    if results.len() == 0 {
        assert(places =~= Set::<int>::empty());
    } else {
        let rest = results.drop_last();
        let last = results.last();
        let n = rest.len() as int;
        let before = Set::new(|i: int| 0 <= i < rest.len() && rest[i] is Fixed);
        as_many_fixes_as_there_are(rest, fix);
        if fixes_in(rest).contains(fix) {
            let i = choose|i: int|
                0 <= i < rest.len() && #[trigger] rest[i] == FixResult::<F, U>::Fixed(fix);
            assert(results[i] == FixResult::<F, U>::Fixed(fix));
        }
        if exists|i: int|
            0 <= i < results.len() && #[trigger] results[i] == FixResult::<F, U>::Fixed(fix) {
            let i = choose|i: int|
                0 <= i < results.len() && #[trigger] results[i] == FixResult::<F, U>::Fixed(fix);
            if i < n {
                assert(rest[i] == FixResult::<F, U>::Fixed(fix));
            }
        }
        match last {
            FixResult::Fixed(f) => {
                assert(places =~= before.insert(n));
                assert(picked =~= fixes_in(rest).push(f));
                assert(picked[picked.len() - 1] == f);
                assert forall|x: F| #[trigger] fixes_in(rest).contains(x) implies picked.contains(
                    x,
                ) by {
                    let k = choose|k: int| 0 <= k < fixes_in(rest).len() && fixes_in(rest)[k] == x;
                    assert(picked[k] == x);
                }
                assert(results[n] == last);
            },
            FixResult::Unfixed(_) => {
                assert(places =~= before);
                assert(picked =~= fixes_in(rest));
                assert(results[n] == last);
            },
        }
    }
}

/// A database that may be so many days old is too old from one second to the next:
/// when it was updated so many days and one more ago, each of 86400 seconds. An age
/// means the same wherever it is given, one on the command line goes before one in
/// the settings, and where none is given, or nothing is known of the last update, no
/// database is too old.
pub proof fn ages_are_in_days(updated: i64, now: i64, days: u64, other: Option<u64>)
    ensures
        stale(Some(updated), now, Some(days), other) <==> now - updated >= (days + 1) * 86400,
        stale(Some(updated), now, None, Some(days)) <==> now - updated >= (days + 1) * 86400,
        stale(Some(updated), now, None, Some(days)) == stale(Some(updated), now, Some(days), None),
        !stale(Some(updated), now, None, None),
        !stale(None, now, Some(days), other),
        !stale(None, now, None, other),
        effective_max_age(Some(days), other) == Some(days),
        effective_max_age(None, other) == other,
        now >= updated ==> {
            let age = age_in_days(now as int, updated as int);
            age * 86400 <= now - updated < (age + 1) * 86400
        },
        now < updated ==> age_in_days(now as int, updated as int) <= 0,
{
}

/// What a user is told of a database that is too old names its age and the age that
/// it may have.
pub proof fn old_databases_are_told_of(age: nat, max: nat)
    ensures
        staleness_text(age, max) == "warning: advisory database is "@ + decimal_text(age)
            + " days old (max: "@ + decimal_text(max) + " days)"@,
{
}

/// The number that a text of decimal digits stands for.
pub open spec fn number_in(text: Seq<char>) -> int
    decreases text.len(),
{
    if text.len() == 0 {
        0
    } else {
        10 * number_in(text.drop_last()) + (text.last() as int - 48)
    }
}

/// A number is written in decimal digits, so that it can be read back from them, and
/// without leading zeros.
pub proof fn numbers_can_be_read_back(n: nat)
    ensures
        number_in(decimal_text(n)) == n,
        decimal_text(n).len() > 0,
        forall|i: int|
            0 <= i < decimal_text(n).len() ==> '0' <= #[trigger] decimal_text(n)[i] <= '9',
        decimal_text(n).len() > 1 ==> decimal_text(n)[0] != '0',
        n > 0 ==> decimal_text(n)[0] != '0',
    decreases n,
{
    if n >= 10 {
        let most = decimal_text(n / 10);
        numbers_can_be_read_back(n / 10);
        assert(decimal_text(n).drop_last() =~= most);
    } else {
        assert(decimal_text(n).drop_last() =~= Seq::<char>::empty());
        assert(number_in(Seq::empty()) == 0);
    }
}

/// The findings that a report names: those on gems, then those on the interpreter.
pub proof fn reports_name_gems_then_interpreters(report: Report, i: int)
    ensures
        entries(report).len() == report.unpatched_gems@.len() + report.vulnerable_rubies@.len(),
        0 <= i < report.unpatched_gems@.len() ==> entries(report)[i]
            == report.unpatched_gems@[i].deep_view(),
        0 <= i < report.vulnerable_rubies@.len() ==> entries(report)[report.unpatched_gems@.len()
            + i] == report.vulnerable_rubies@[i].deep_view(),
{
}

/// Exactly the identifiers of what was found are written to the settings, every one
/// of each advisory, and each has a comment: on the first finding that it belongs to.
pub proof fn written_identifiers_are_those_found(findings: Seq<Finding>, id: Seq<char>)
    ensures
        all_ids(findings).contains(id) <==> exists|i: int, k: int|
            0 <= i < findings.len() && 0 <= k < findings[i].advisory.identifiers.len()
                && #[trigger] findings[i].advisory.identifiers[k] == id,
        all_comments(findings).contains_key(id) <==> all_ids(findings).contains(id),
        all_ids(findings).contains(id) ==> exists|i: int|
            {
                &&& 0 <= i < findings.len()
                &&& (#[trigger] findings[i]).advisory.identifiers.contains(id)
                &&& forall|j: int|
                    0 <= j < i ==> !(#[trigger] findings[j]).advisory.identifiers.contains(id)
                &&& all_comments(findings)[id] == comment_text(findings[i])
            },
{
    if all_ids(findings).contains(id) {
        crate::laws::every_identifier_has_a_comment(findings, id);
        let i = choose|i: int|
            {
                &&& 0 <= i < findings.len()
                &&& crate::check::known_as(#[trigger] findings[i], id)
                &&& all_comments(findings)[id] == comment_text(findings[i])
                &&& forall|j: int|
                    0 <= j < i ==> !crate::check::known_as(#[trigger] findings[j], id)
            };
        assert(findings[i].advisory.identifiers.contains(id));
        assert forall|j: int| 0 <= j < i implies !(#[trigger] findings[
            j
        ]).advisory.identifiers.contains(id) by {
            assert(!crate::check::known_as(findings[j], id));
        }
        let ids = findings[i].advisory.identifiers;
        let k = choose|k: int| 0 <= k < ids.len() && ids[k] == id;
        assert(findings[i].advisory.identifiers[k] == id);
    }
    if exists|i: int, k: int|
        0 <= i < findings.len() && 0 <= k < findings[i].advisory.identifiers.len()
            && #[trigger] findings[i].advisory.identifiers[k] == id {
        let (i, k) = choose|i: int, k: int|
            0 <= i < findings.len() && 0 <= k < findings[i].advisory.identifiers.len()
                && #[trigger] findings[i].advisory.identifiers[k] == id;
        assert(findings[i].advisory.identifiers.contains(id));
        assert(crate::check::known_as(findings[i], id));
    }
}

/// The comment on a finding names the gem or interpreter, its version, the severity
/// and the headline of the advisory, or says that these are not known.
pub proof fn comments_say_what_was_found(f: Finding)
    ensures
        comment_text(f) == f.name + " "@ + f.version + " ("@ + (match f.advisory.criticality {
            Some(c) => c.word(),
            None => "Unknown"@,
        }) + ") - "@ + (match f.advisory.title {
            Some(title) => title,
            None => "N/A"@,
        }),
{
}

/// What went wrong is told by kind and reason.
pub proof fn errors_name_their_reason(text: String)
    ensures
        ScanError::LockfileNotFound(text).message() == "Gemfile.lock not found: "@ + text@,
        ScanError::LockfileParse(text).message() == "failed to parse Gemfile.lock: "@ + text@,
        ScanError::Database(text).message() == "database error: "@ + text@,
        ScanError::Io(text).message() == "IO error: "@ + text@,
{
}

/// Where a report goes to a file, or standard output is no terminal, it has no
/// colours and no layout for readers. All else is as the user asks for it.
pub proof fn colours_are_for_terminals(opts: CheckOptions, tty: bool)
    ensures
        opts.format is Text ==> opts.plan(tty) == (PrintPlan::Text {
            verbose: opts.verbose,
            quiet: opts.quiet,
            color: opts.output is None && tty,
            fix: opts.fix,
        }),
        opts.format is Json ==> opts.plan(tty) == (PrintPlan::Json {
            pretty: opts.output is None && tty,
            fix: opts.fix,
        }),
{
}

/// A project keeps its settings in `.gem-audit.yml`, letter by letter.
pub proof fn settings_have_their_place()
    ensures
        Configuration::default_file_name() == seq![
            '.',
            'g',
            'e',
            'm',
            '-',
            'a',
            'u',
            'd',
            'i',
            't',
            '.',
            'y',
            'm',
            'l',
        ],
{
    reveal_strlit(".gem-audit.yml");
}

/// A report comes down to whether gems are affected, whether there is anything at
/// all, and whether anything went unread.
pub proof fn reports_come_down_to_this(found: Findings, report: Report)
    ensures
        report.total() == report.insecure_sources@.len() + report.unpatched_gems@.len()
            + report.vulnerable_rubies@.len(),
        sums_up(found, report) <==> {
            &&& found.unpatched <==> report.unpatched_gems@.len() > 0
            &&& found.vulnerable <==> (report.insecure_sources@.len() > 0
                || report.unpatched_gems@.len() > 0 || report.vulnerable_rubies@.len() > 0)
            &&& found.incomplete <==> (report.version_parse_errors > 0
                || report.advisory_load_errors > 0)
        },
{
}

/// What the database says to a question is kept as it was said, under the name and
/// version that were asked about. It is asked about the interpreter exactly where one
/// is locked in a version that can be read.
pub proof fn replies_are_kept_as_said(
    spec: SpecModel,
    reply: (Vec<Advisory>, usize),
    ruby: Option<RubyModel>,
)
    ensures
        reply_model(reply).0 == reply.0.deep_view(),
        reply_model(reply).1 == reply.1,
        answer_model(spec, reply_model(reply)).name == spec.name,
        answer_model(spec, reply_model(reply)).version == spec.version,
        answer_model(spec, reply_model(reply)).advisories == reply.0.deep_view(),
        answer_model(spec, reply_model(reply)).load_errors == reply.1,
        asks_about_ruby(ruby) <==> ruby is Some && ruby->0.version_valid,
{
}

} // verus!
