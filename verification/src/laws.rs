//! What holds of audits as a whole.

use vstd::prelude::*;

use crate::advisory::{answer_on, AdvisoryModel, AnswerModel};
use crate::check::{
    all_comments, all_ids, comment_text, entries, first_comment, known_as, named, stale,
};
use crate::lockfile::{distinct_specs, locks, readable, same_gem, SourceModel, SpecModel};
use crate::report::{finding_rank, Finding, Report};
use crate::scanner::{
    exposed, exposed_remotes, findings_on, gem_findings, gem_load_errors, insecure_scheme, internal,
    unreadable, unreadable_versions, version_warning, Policy, Scanner,
};
use crate::severity::{by_severity, has_rank, of_rank, ranked_down, severity_never_rises, TOP_RANK};

verus! {

/// Whether `q` reports no more than `p`: it ignores at least as much, and asks for
/// at least as severe advisories.
pub open spec fn stricter(q: Policy, p: Policy) -> bool {
    &&& p.ignore.subset_of(q.ignore)
    &&& match (p.severity, q.severity) {
        (None, _) => true,
        (Some(_), None) => false,
        (Some(a), Some(b)) => a.level() <= b.level(),
    }
}

/// Being on an advisory that `p` reports.
pub open spec fn finding_reported(p: Policy) -> spec_fn(Finding) -> bool {
    |f: Finding| p.reports(f.advisory)
}

/// A stricter policy reports nothing that a laxer one leaves out.
pub proof fn stricter_reports_less(q: Policy, p: Policy, advisory: AdvisoryModel)
    requires
        stricter(q, p),
    ensures
        q.reports(advisory) ==> p.reports(advisory),
{
    if q.keeps(advisory) {
        assert forall|i: int| 0 <= i < advisory.identifiers.len() implies !p.ignore.contains(
            #[trigger] advisory.identifiers[i],
        ) by {
            assert(!q.ignore.contains(advisory.identifiers[i]));
        }
    }
}

/// Without an ignore list and without a severity asked for, everything is reported.
pub proof fn everything_is_reported_by_default(advisory: AdvisoryModel)
    ensures
        (Policy { ignore: Set::empty(), severity: None }).reports(advisory),
{
}

/// Two filters can be applied in either order.
proof fn lemma_filters_swap<T>(s: Seq<T>, p: spec_fn(T) -> bool, q: spec_fn(T) -> bool)
    ensures
        s.filter(p).filter(q) == s.filter(q).filter(p),
    decreases s.len(),
{
    reveal(Seq::filter);
    if s.len() > 0 {
        let rest = s.drop_last();
        lemma_filters_swap(rest, p, q);
        if p(s.last()) {
            assert(rest.filter(p).push(s.last()).drop_last() =~= rest.filter(p));
        }
        if q(s.last()) {
            assert(rest.filter(q).push(s.last()).drop_last() =~= rest.filter(q));
        }
    }
}

proof fn lemma_ranked_down_of_filter<T>(
    s: Seq<T>,
    rank: spec_fn(T) -> int,
    keep: spec_fn(T) -> bool,
    top: nat,
)
    ensures
        ranked_down(s.filter(keep), rank, top) == ranked_down(s, rank, top).filter(keep),
    decreases top,
{
    lemma_filters_swap(s, keep, has_rank(rank, top as int));
    if top > 0 {
        lemma_ranked_down_of_filter(s, rank, keep, (top - 1) as nat);
        Seq::filter_distributes_over_add(
            of_rank(s, rank, top as int),
            ranked_down(s, rank, (top - 1) as nat),
            keep,
        );
    }
}

proof fn lemma_findings_on_under_stricter(
    name: Seq<char>,
    version: Seq<char>,
    advisories: Seq<AdvisoryModel>,
    q: Policy,
    p: Policy,
)
    requires
        stricter(q, p),
    ensures
        findings_on(name, version, advisories, q) == findings_on(
            name,
            version,
            advisories,
            p,
        ).filter(finding_reported(q)),
    decreases advisories.len(),
{
    reveal(Seq::filter);
    let under_q = findings_on(name, version, advisories, q);
    let under_p = findings_on(name, version, advisories, p);
    if advisories.len() > 0 {
        let rest = advisories.drop_last();
        let last = advisories.last();
        let f = Finding { name, version, advisory: last };
        lemma_findings_on_under_stricter(name, version, rest, q, p);
        stricter_reports_less(q, p, last);
        let before_p = findings_on(name, version, rest, p);
        if p.reports(last) {
            assert(under_p =~= before_p.push(f));
            assert(under_p.drop_last() =~= before_p);
        } else {
            assert(under_p =~= before_p);
        }
        if q.reports(last) {
            assert(under_q =~= findings_on(name, version, rest, q).push(f));
        } else {
            assert(under_q =~= findings_on(name, version, rest, q));
        }
    } else {
        assert(under_q =~= under_p.filter(finding_reported(q)));
    }
}

proof fn lemma_gem_findings_under_stricter(
    specs: Seq<SpecModel>,
    answers: Seq<AnswerModel>,
    q: Policy,
    p: Policy,
)
    requires
        stricter(q, p),
    ensures
        gem_findings(specs, answers, q) == gem_findings(specs, answers, p).filter(
            finding_reported(q),
        ),
    decreases specs.len(),
{
    if specs.len() > 0 {
        let last = specs.last();
        lemma_gem_findings_under_stricter(specs.drop_last(), answers, q, p);
        if last.version_valid {
            let advisories = answer_on(answers, last.name, last.version).0;
            lemma_findings_on_under_stricter(last.name, last.version, advisories, q, p);
            Seq::filter_distributes_over_add(
                gem_findings(specs.drop_last(), answers, p),
                findings_on(last.name, last.version, advisories, p),
                finding_reported(q),
            );
        }
    } else {
        reveal(Seq::filter);
    }
}

/// Ignoring more, or asking for more severe advisories, takes findings out of a
/// report and changes nothing else about it.
pub proof fn stricter_audits_report_a_part(scanner: Scanner, q: Policy, p: Policy)
    requires
        stricter(q, p),
    ensures
        scanner.gems_under(q) == scanner.gems_under(p).filter(finding_reported(q)),
        scanner.rubies_under(q).0 == scanner.rubies_under(p).0.filter(finding_reported(q)),
        scanner.rubies_under(q).1 == scanner.rubies_under(p).1,
{
    let specs = scanner.distinct();
    let answers = scanner.gem_answers();
    lemma_gem_findings_under_stricter(specs, answers, q, p);
    lemma_ranked_down_of_filter(
        gem_findings(specs, answers, p),
        finding_rank(),
        finding_reported(q),
        TOP_RANK as nat,
    );
    match scanner.ruby() {
        Some(rv) if rv.version_valid => {
            let advisories = answer_on(scanner.ruby_answers(), rv.engine, rv.version).0;
            lemma_findings_on_under_stricter(rv.engine, rv.version, advisories, q, p);
            lemma_ranked_down_of_filter(
                findings_on(rv.engine, rv.version, advisories, p),
                finding_rank(),
                finding_reported(q),
                TOP_RANK as nat,
            );
        },
        _ => {
            reveal(Seq::filter);
        },
    }
}

/// A filter that turns away an item leaves fewer.
proof fn lemma_filter_drops<T>(s: Seq<T>, keep: spec_fn(T) -> bool, i: int)
    requires
        0 <= i < s.len(),
        !keep(s[i]),
    ensures
        s.filter(keep).len() < s.len(),
    decreases s.len(),
{
    reveal(Seq::filter);
    s.drop_last().lemma_filter_len(keep);
    if i < s.len() - 1 {
        assert(s.drop_last()[i] == s[i]);
        lemma_filter_drops(s.drop_last(), keep, i);
    }
}

/// To ignore an identifier of something that is reported shortens the report.
pub proof fn ignoring_a_finding_shortens_the_report(scanner: Scanner, q: Policy, p: Policy, i: int)
    requires
        stricter(q, p),
        0 <= i < scanner.gems_under(p).len(),
        exists|k: int|
            0 <= k < scanner.gems_under(p)[i].advisory.identifiers.len() && q.ignore.contains(
                #[trigger] scanner.gems_under(p)[i].advisory.identifiers[k],
            ),
    ensures
        scanner.gems_under(q).len() < scanner.gems_under(p).len(),
{
    let f = scanner.gems_under(p)[i];
    let k = choose|k: int|
        0 <= k < f.advisory.identifiers.len() && q.ignore.contains(
            #[trigger] f.advisory.identifiers[k],
        );
    assert(q.ignore.contains(f.advisory.identifiers[k]));
    assert(!q.keeps(f.advisory));
    stricter_audits_report_a_part(scanner, q, p);
    lemma_filter_drops(scanner.gems_under(p), finding_reported(q), i);
}

/// What is found on several gems is what is found on each.
pub proof fn lemma_specs_found(
    specs: Seq<SpecModel>,
    answers: Seq<AnswerModel>,
    p: Policy,
    f: Finding,
)
    ensures
        gem_findings(specs, answers, p).contains(f) <==> affects(specs, answers, p, f),
    decreases specs.len(),
{
    if specs.len() == 0 {
    } else {
        let last = specs.last();
        let rest = specs.drop_last();
        let advisories = answer_on(answers, last.name, last.version).0;
        let before = gem_findings(rest, answers, p);
        let here = findings_on(last.name, last.version, advisories, p);
        lemma_specs_found(rest, answers, p, f);
        lemma_found_on(last.name, last.version, advisories, p, f);
        assert(before.contains(f) ==> (before + here).contains(f)) by {
            if before.contains(f) {
                let k = choose|k: int| 0 <= k < before.len() && before[k] == f;
                assert((before + here)[k] == f);
            }
        }
        assert(here.contains(f) ==> (before + here).contains(f)) by {
            if here.contains(f) {
                let k = choose|k: int| 0 <= k < here.len() && here[k] == f;
                assert((before + here)[before.len() + k] == f);
            }
        }
        if affects(specs, answers, p, f) {
            let i = choose|i: int|
                0 <= i < specs.len() && affects_spec(#[trigger] specs[i], answers, p, f);
            if i < rest.len() {
                assert(affects_spec(rest[i], answers, p, f));
            }
        }
        if affects(rest, answers, p, f) {
            let i = choose|i: int|
                0 <= i < rest.len() && affects_spec(#[trigger] rest[i], answers, p, f);
            assert(affects_spec(specs[i], answers, p, f));
        }
        if last.version_valid && here.contains(f) {
            assert(affects_spec(specs[specs.len() - 1], answers, p, f));
        }
    }
}

pub proof fn lemma_found_on(
    name: Seq<char>,
    version: Seq<char>,
    advisories: Seq<AdvisoryModel>,
    p: Policy,
    f: Finding,
)
    ensures
        findings_on(name, version, advisories, p).contains(f) <==> f.name == name && f.version
            == version && advisories.contains(f.advisory) && p.reports(f.advisory),
{
    let kept = advisories.filter(p.reported());
    let here = findings_on(name, version, advisories, p);
    if here.contains(f) {
        let k = choose|k: int| 0 <= k < here.len() && here[k] == f;
        assert(here[k] == Finding { name, version, advisory: kept[k] });
        assert(kept.contains(kept[k]));
        advisories.lemma_filter_pred(p.reported(), k);
        advisories.lemma_filter_contains_rev(p.reported(), kept[k]);
    }
    if f.name == name && f.version == version && advisories.contains(f.advisory) && p.reports(
        f.advisory,
    ) {
        let j = choose|j: int| 0 <= j < advisories.len() && advisories[j] == f.advisory;
        advisories.lemma_filter_contains(p.reported(), j);
        let k = choose|k: int| 0 <= k < kept.len() && kept[k] == f.advisory;
        assert(here[k] == f);
    }
}

/// Whether a finding is on the gem `spec`: it has its name and version, the version
/// can be read, and the advisory is one that the database names for it and that
/// is reported.
pub open spec fn affects_spec(
    spec: SpecModel,
    answers: Seq<AnswerModel>,
    p: Policy,
    f: Finding,
) -> bool {
    &&& spec.version_valid
    &&& f.name == spec.name
    &&& f.version == spec.version
    &&& answer_on(answers, spec.name, spec.version).0.contains(f.advisory)
    &&& p.reports(f.advisory)
}

/// Whether a finding is on one of the gems `specs`.
pub open spec fn affects(
    specs: Seq<SpecModel>,
    answers: Seq<AnswerModel>,
    p: Policy,
    f: Finding,
) -> bool {
    exists|i: int| 0 <= i < specs.len() && affects_spec(#[trigger] specs[i], answers, p, f)
}

/// Listing by severity keeps the items, and finds no others.
pub proof fn lemma_by_severity_contains(s: Seq<Finding>, f: Finding)
    ensures
        by_severity(s, finding_rank()).contains(f) <==> s.contains(f),
{
    broadcast use vstd::seq_lib::group_to_multiset_ensures;

    crate::severity::severity_order_keeps_findings(s, finding_rank());
    assert(s.contains(f) <==> s.to_multiset().count(f) > 0);
    assert(by_severity(s, finding_rank()).contains(f) <==> by_severity(
        s,
        finding_rank(),
    ).to_multiset().count(f) > 0);
}

/// A report names exactly the advisories that affect what is locked and that are to
/// be reported: it leaves none out and makes none up.
pub proof fn reports_are_exact(scanner: Scanner, p: Policy, f: Finding)
    ensures
        scanner.gems_under(p).contains(f) <==> affects(
            scanner.distinct(),
            scanner.gem_answers(),
            p,
            f,
        ),
        scanner.rubies_under(p).0.contains(f) <==> match scanner.ruby() {
            Some(rv) => {
                &&& rv.version_valid
                &&& f.name == rv.engine
                &&& f.version == rv.version
                &&& answer_on(scanner.ruby_answers(), rv.engine, rv.version).0.contains(f.advisory)
                &&& p.reports(f.advisory)
            },
            None => false,
        },
{
    let found = gem_findings(scanner.distinct(), scanner.gem_answers(), p);
    lemma_specs_found(scanner.distinct(), scanner.gem_answers(), p, f);
    lemma_by_severity_contains(found, f);
    match scanner.ruby() {
        Some(rv) if rv.version_valid => {
            let advisories = answer_on(scanner.ruby_answers(), rv.engine, rv.version).0;
            lemma_found_on(rv.engine, rv.version, advisories, p, f);
            lemma_by_severity_contains(findings_on(rv.engine, rv.version, advisories, p), f);
        },
        _ => {},
    }
}

/// A report lists gems, and advisories on the interpreter, from the most severe to
/// the least; an unknown severity comes last.
pub proof fn reports_are_sorted(scanner: Scanner, p: Policy)
    ensures
        forall|i: int, j: int|
            0 <= i <= j < scanner.gems_under(p).len() ==> finding_rank()(
                #[trigger] scanner.gems_under(p)[i],
            ) >= finding_rank()(#[trigger] scanner.gems_under(p)[j]),
        forall|i: int, j: int|
            0 <= i <= j < scanner.rubies_under(p).0.len() ==> finding_rank()(
                #[trigger] scanner.rubies_under(p).0[i],
            ) >= finding_rank()(#[trigger] scanner.rubies_under(p).0[j]),
{
    severity_never_rises(
        gem_findings(scanner.distinct(), scanner.gem_answers(), p),
        finding_rank(),
    );
    match scanner.ruby() {
        Some(rv) if rv.version_valid => {
            severity_never_rises(
                findings_on(
                    rv.engine,
                    rv.version,
                    answer_on(scanner.ruby_answers(), rv.engine, rv.version).0,
                    p,
                ),
                finding_rank(),
            );
        },
        _ => {},
    }
}

/// Each locked name and version is looked at once, none is passed over, and nothing
/// else is looked at.
pub proof fn gems_are_looked_at_once(specs: Seq<SpecModel>)
    ensures
        forall|i: int, j: int|
            0 <= i < j < distinct_specs(specs).len() ==> !same_gem(
                #[trigger] distinct_specs(specs)[i],
                #[trigger] distinct_specs(specs)[j],
            ),
        forall|i: int|
            0 <= i < specs.len() ==> locks(distinct_specs(specs), #[trigger] specs[i]),
        forall|i: int|
            0 <= i < distinct_specs(specs).len() ==> specs.contains(
                #[trigger] distinct_specs(specs)[i],
            ),
    decreases specs.len(),
{
    crate::lockfile::lemma_distinct_specs_differ(specs);
    if specs.len() > 0 {
        let rest = specs.drop_last();
        let last = specs.last();
        let known = distinct_specs(rest);
        let now = distinct_specs(specs);
        gems_are_looked_at_once(rest);
        assert forall|i: int| 0 <= i < specs.len() implies locks(now, #[trigger] specs[i]) by {
            if i < rest.len() {
                assert(locks(known, rest[i]));
                let k = choose|k: int| 0 <= k < known.len() && same_gem(#[trigger] known[k], rest[i]);
                assert(same_gem(now[k], specs[i]));
            } else if locks(rest, last) {
                let k = choose|k: int| 0 <= k < rest.len() && same_gem(#[trigger] rest[k], last);
                assert(locks(known, rest[k]));
                let n = choose|n: int| 0 <= n < known.len() && same_gem(#[trigger] known[n], rest[k]);
                assert(same_gem(now[n], last));
            } else {
                assert(same_gem(now[known.len() as int], last));
            }
        }
    }
}

/// Another platform variant of a locked gem, wherever it stands after the first,
/// changes nothing that is looked at.
pub proof fn platform_variants_do_not_count(
    before: Seq<SpecModel>,
    variant: SpecModel,
    after: Seq<SpecModel>,
)
    requires
        locks(before, variant),
    ensures
        distinct_specs(before + seq![variant] + after) == distinct_specs(before + after),
    decreases after.len(),
{
    let with = before + seq![variant] + after;
    let without = before + after;
    if after.len() == 0 {
        assert(with.drop_last() =~= before);
        assert(without =~= before);
    } else {
        let rest = after.drop_last();
        let last = after.last();
        let shorter_with = before + seq![variant] + rest;
        let shorter_without = before + rest;
        platform_variants_do_not_count(before, variant, rest);
        assert(with.drop_last() =~= shorter_with);
        assert(without.drop_last() =~= shorter_without);
        assert(locks(shorter_with, last) == locks(shorter_without, last)) by {
            let n = before.len() as int;
            if locks(shorter_with, last) {
                let i = choose|i: int|
                    0 <= i < shorter_with.len() && same_gem(#[trigger] shorter_with[i], last);
                if i < n {
                    assert(same_gem(shorter_without[i], last));
                } else if i == n {
                    let k = choose|k: int|
                        0 <= k < before.len() && same_gem(#[trigger] before[k], variant);
                    assert(same_gem(shorter_without[k], last));
                } else {
                    assert(same_gem(shorter_without[i - 1], last));
                }
            }
            if locks(shorter_without, last) {
                let i = choose|i: int|
                    0 <= i < shorter_without.len() && same_gem(#[trigger] shorter_without[i], last);
                if i < n {
                    assert(same_gem(shorter_with[i], last));
                } else {
                    assert(same_gem(shorter_with[i + 1], last));
                }
            }
        }
    }
}

/// What an audit finds on gems rests on the answers to its queries alone: two
/// databases that agree on each gem that is asked about give the same findings and
/// the same number of load errors.
pub proof fn answers_to_the_queries_suffice(
    specs: Seq<SpecModel>,
    a: Seq<AnswerModel>,
    b: Seq<AnswerModel>,
    p: Policy,
)
    requires
        forall|i: int|
            0 <= i < specs.filter(readable()).len() ==> answer_on(
                a,
                (#[trigger] specs.filter(readable())[i]).name,
                specs.filter(readable())[i].version,
            ) == answer_on(
                b,
                specs.filter(readable())[i].name,
                specs.filter(readable())[i].version,
            ),
    ensures
        gem_findings(specs, a, p) == gem_findings(specs, b, p),
        gem_load_errors(specs, a) == gem_load_errors(specs, b),
    decreases specs.len(),
{
    reveal(Seq::filter);
    if specs.len() > 0 {
        let asked = specs.filter(readable());
        let before = specs.drop_last().filter(readable());
        assert forall|i: int| 0 <= i < before.len() implies answer_on(
            a,
            (#[trigger] before[i]).name,
            before[i].version,
        ) == answer_on(b, before[i].name, before[i].version) by {
            assert(asked[i] == before[i]);
        }
        answers_to_the_queries_suffice(specs.drop_last(), a, b, p);
        if specs.last().version_valid {
            assert(asked[asked.len() - 1] == specs.last());
        }
    }
}

/// Exactly those sources are reported that are fetched over an insecure protocol
/// from outside the local network. A local directory never is.
pub proof fn exposed_sources_are_exact(sources: Seq<SourceModel>, remote: Seq<char>)
    ensures
        exposed_remotes(sources).contains(remote) <==> exists|i: int|
            0 <= i < sources.len() && #[trigger] sources[i].remote() == remote && insecure_scheme(
                sources[i],
            ) && !internal(sources[i]),
        forall|i: int|
            0 <= i < sources.len() && #[trigger] sources[i] is Path ==> !insecure_scheme(
                sources[i],
            ),
{
    let kept = sources.filter(exposed());
    let found = exposed_remotes(sources);
    if found.contains(remote) {
        let k = choose|k: int| 0 <= k < found.len() && found[k] == remote;
        assert(found[k] == kept[k].remote());
        assert(kept.contains(kept[k]));
        sources.lemma_filter_pred(exposed(), k);
        sources.lemma_filter_contains_rev(exposed(), kept[k]);
        let i = choose|i: int| 0 <= i < sources.len() && sources[i] == kept[k];
        assert(sources[i].remote() == remote);
    }
    if exists|i: int|
        0 <= i < sources.len() && #[trigger] sources[i].remote() == remote && insecure_scheme(
            sources[i],
        ) && !internal(sources[i]) {
        let i = choose|i: int|
            0 <= i < sources.len() && #[trigger] sources[i].remote() == remote && insecure_scheme(
                sources[i],
            ) && !internal(sources[i]);
        sources.lemma_filter_contains(exposed(), i);
        let k = choose|k: int| 0 <= k < kept.len() && kept[k] == sources[i];
        assert(found[k] == remote);
    }
}

/// A strict audit announces every version that it counts as unreadable.
pub proof fn strict_audits_announce_what_they_count(scanner: Scanner)
    ensures
        scanner.distinct().filter(unreadable()).map_values(
            |s: SpecModel| version_warning(s),
        ).len() == unreadable_versions(scanner.distinct()),
{
}

/// Insecure sources have no identifiers: where a report names no advisory, nothing
/// is ignored on its account.
pub proof fn only_advisories_are_ignored(report: Report)
    requires
        report.unpatched_gems@.len() == 0,
        report.vulnerable_rubies@.len() == 0,
    ensures
        all_ids(entries(report)) == Set::<Seq<char>>::empty(),
        all_comments(entries(report)) == Map::<Seq<char>, Seq<char>>::empty(),
{
    assert(all_ids(entries(report)) =~= Set::<Seq<char>>::empty());
    assert(all_comments(entries(report)) =~= Map::<Seq<char>, Seq<char>>::empty());
}

/// Every identifier that is written has a comment, there are no other comments, and
/// each is the comment on a finding known under the identifier, the first such.
pub proof fn every_identifier_has_a_comment(findings: Seq<Finding>, id: Seq<char>)
    ensures
        all_comments(findings).dom() == all_ids(findings),
        named(findings, id) ==> exists|i: int|
            {
                &&& 0 <= i < findings.len()
                &&& known_as(#[trigger] findings[i], id)
                &&& all_comments(findings)[id] == comment_text(findings[i])
                &&& forall|j: int| 0 <= j < i ==> !known_as(#[trigger] findings[j], id)
            },
{
    assert(all_comments(findings).dom() =~= all_ids(findings));
    if named(findings, id) {
        lemma_first_comment(findings, id);
    }
}

proof fn lemma_first_comment(findings: Seq<Finding>, id: Seq<char>)
    requires
        named(findings, id),
    ensures
        exists|i: int|
            {
                &&& 0 <= i < findings.len()
                &&& known_as(#[trigger] findings[i], id)
                &&& first_comment(findings, id) == comment_text(findings[i])
                &&& forall|j: int| 0 <= j < i ==> !known_as(#[trigger] findings[j], id)
            },
    decreases findings.len(),
{
    let n = choose|n: int| 0 <= n < findings.len() && known_as(#[trigger] findings[n], id);
    assert(known_as(findings[n], id));
    if !known_as(findings[0], id) {
        let rest = findings.drop_first();
        assert(known_as(rest[n - 1], id));
        lemma_first_comment(rest, id);
        let i = choose|i: int|
            {
                &&& 0 <= i < rest.len()
                &&& known_as(#[trigger] rest[i], id)
                &&& first_comment(rest, id) == comment_text(rest[i])
                &&& forall|j: int| 0 <= j < i ==> !known_as(#[trigger] rest[j], id)
            };
        assert(known_as(findings[i + 1], id));
        assert forall|j: int| 0 <= j < i + 1 implies !known_as(#[trigger] findings[j], id) by {
            if j > 0 {
                assert(findings[j] == rest[j - 1]);
            }
        }
    }
}

/// What is written to the settings takes effect: an audit that ignores what a report
/// names no longer reports any of its advisories that has an identifier.
pub proof fn written_findings_are_silenced(report: Report, q: Policy, i: int)
    requires
        all_ids(entries(report)).subset_of(q.ignore),
        0 <= i < entries(report).len(),
        entries(report)[i].advisory.identifiers.len() > 0,
    ensures
        !q.reports(entries(report)[i].advisory),
{
    let f = entries(report)[i];
    let id = f.advisory.identifiers[0];
    assert(known_as(f, id));
    assert(all_ids(entries(report)).contains(id));
    assert(q.ignore.contains(f.advisory.identifiers[0]));
}

/// An audit that ignores what an earlier one ignored and what it reported finds
/// nothing more but advisories that have no identifier.
pub proof fn ignored_findings_stay_away(
    scanner: Scanner,
    report: Report,
    p: Policy,
    q: Policy,
    f: Finding,
)
    requires
        report.unpatched_gems.deep_view() == scanner.gems_under(p),
        report.vulnerable_rubies.deep_view() == scanner.rubies_under(p).0,
        stricter(q, p),
        all_ids(entries(report)).subset_of(q.ignore),
        scanner.gems_under(q).contains(f) || scanner.rubies_under(q).0.contains(f),
    ensures
        f.advisory.identifiers.len() == 0,
{
    let all = entries(report);
    reports_are_exact(scanner, q, f);
    stricter_reports_less(q, p, f.advisory);
    assert(q.reports(f.advisory));
    assert(all.contains(f)) by {
        if scanner.gems_under(q).contains(f) {
            let specs = scanner.distinct();
            let answers = scanner.gem_answers();
            let i = choose|i: int|
                0 <= i < specs.len() && affects_spec(#[trigger] specs[i], answers, q, f);
            assert(affects_spec(specs[i], answers, p, f));
            reports_are_exact(scanner, p, f);
            let k = choose|k: int|
                0 <= k < scanner.gems_under(p).len() && scanner.gems_under(p)[k] == f;
            assert(all[k] == f);
        } else {
            reports_are_exact(scanner, p, f);
            let rubies = scanner.rubies_under(p).0;
            let k = choose|k: int| 0 <= k < rubies.len() && rubies[k] == f;
            assert(all[scanner.gems_under(p).len() + k] == f);
        }
    }
    let n = choose|n: int| 0 <= n < all.len() && all[n] == f;
    if f.advisory.identifiers.len() > 0 {
        written_findings_are_silenced(report, q, n);
    }
}

/// What is written to the settings takes effect: where an audit went by the
/// settings `old`, the next one, going by the settings with its findings added,
/// finds nothing but advisories that have no identifier.
pub proof fn written_ignore_list_takes_effect(
    scanner: Scanner,
    report: Report,
    old_ignore: Set<Seq<char>>,
    severity: Option<crate::advisory::Criticality>,
    f: Finding,
)
    requires
        ({
            let p = Policy { ignore: old_ignore, severity };
            &&& report.unpatched_gems.deep_view() == scanner.gems_under(p)
            &&& report.vulnerable_rubies.deep_view() == scanner.rubies_under(p).0
        }),
    ensures
        ({
            let q = Policy { ignore: old_ignore.union(all_ids(entries(report))), severity };
            scanner.gems_under(q).contains(f) || scanner.rubies_under(q).0.contains(f)
                ==> f.advisory.identifiers.len() == 0
        }),
{
    let p = Policy { ignore: old_ignore, severity };
    let q = Policy { ignore: old_ignore.union(all_ids(entries(report))), severity };
    if scanner.gems_under(q).contains(f) || scanner.rubies_under(q).0.contains(f) {
        ignored_findings_stay_away(scanner, report, p, q, f);
    }
}

/// A database only gets older: once too old, it stays so until it is updated.
pub proof fn staleness_lasts(
    last_updated: Option<i64>,
    now: i64,
    later: i64,
    max_db_age: Option<u64>,
    config_max_age: Option<u64>,
)
    requires
        now <= later,
        stale(last_updated, now, max_db_age, config_max_age),
    ensures
        stale(last_updated, later, max_db_age, config_max_age),
{
}

/// What the command line says of the database's age goes before what the settings
/// say, and without either no database is too old.
pub proof fn command_line_goes_before_settings(
    last_updated: Option<i64>,
    now: i64,
    max_db_age: Option<u64>,
    config_max_age: Option<u64>,
)
    ensures
        max_db_age is Some ==> stale(last_updated, now, max_db_age, config_max_age) == stale(
            last_updated,
            now,
            max_db_age,
            None,
        ),
        max_db_age is None && config_max_age is None ==> !stale(
            last_updated,
            now,
            max_db_age,
            config_max_age,
        ),
{
}

} // verus!
