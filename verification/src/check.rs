//! What is made of a finished audit: whether it went by an old database, and what
//! to write to the project's settings so that its findings are left out from then
//! on.

use vstd::prelude::*;

use crate::advisory::Advisory;
use crate::configuration::Configuration;
use crate::ids::{Comments, IdSet};
use crate::report::{Finding, Report};
use crate::text::{decimal, decimal_text, join2};

verus! {

/// The number of seconds in a day.
pub const SECONDS_PER_DAY: i128 = 86400;

/// The age that the advisory database may have: what the command line says goes
/// before what the settings say.
pub open spec fn effective_max_age(max_db_age: Option<u64>, config_max_age: Option<u64>) -> Option<
    u64,
> {
    match max_db_age {
        Some(days) => Some(days),
        None => config_max_age,
    }
}

/// How many whole days have passed at the time `now` since the time
/// `last_updated`, both in seconds.
pub open spec fn age_in_days(now: int, last_updated: int) -> int {
    let seconds = now - last_updated;
    if seconds >= 0 {
        seconds / (SECONDS_PER_DAY as int)
    } else {
        -((-seconds) / (SECONDS_PER_DAY as int))
    }
}

/// Whether the advisory database is older than it may be. It is not where no age
/// is set, or where it is not known when it was last updated.
pub open spec fn stale(
    last_updated: Option<i64>,
    now: i64,
    max_db_age: Option<u64>,
    config_max_age: Option<u64>,
) -> bool {
    match (effective_max_age(max_db_age, config_max_age), last_updated) {
        (Some(max_days), Some(updated)) => age_in_days(now as int, updated as int) > max_days,
        _ => false,
    }
}

/// What a user is told of a database that is `age` days old where `max` are
/// allowed.
pub open spec fn staleness_text(age: nat, max: nat) -> Seq<char> {
    "warning: advisory database is "@ + decimal_text(age) + " days old (max: "@ + decimal_text(max)
        + " days)"@
}

/// The age of a database that is too old, with the age that it may have.
fn excess_age(
    last_updated: Option<i64>,
    now: i64,
    max_db_age: Option<u64>,
    config_max_age: Option<u64>,
) -> (excess: Option<(u64, u64)>)
    ensures
        excess is Some <==> stale(last_updated, now, max_db_age, config_max_age),
        excess matches Some((age, max)) ==> {
            &&& last_updated matches Some(updated) && age == age_in_days(now as int, updated as int)
            &&& effective_max_age(max_db_age, config_max_age) == Some(max)
        },
{
    let effective = match max_db_age {
        Some(days) => Some(days),
        None => config_max_age,
    };
    match (effective, last_updated) {
        (Some(max), Some(updated)) => {
            let seconds: i128 = now as i128 - updated as i128;
            if seconds < 0 {
                return None;
            }
            let age: u64 = (seconds / SECONDS_PER_DAY) as u64;
            if age > max {
                Some((age, max))
            } else {
                None
            }
        },
        _ => None,
    }
}

/// Whether the advisory database is older than it may be at the time `now`.
pub fn check_staleness(
    last_updated: Option<i64>,
    now: i64,
    max_db_age: Option<u64>,
    config_max_age: Option<u64>,
) -> (b: bool)
    ensures
        b == stale(last_updated, now, max_db_age, config_max_age),
{
    excess_age(last_updated, now, max_db_age, config_max_age).is_some()
}

/// What a user is told where the advisory database is older than it may be.
pub fn staleness_warning(
    last_updated: Option<i64>,
    now: i64,
    max_db_age: Option<u64>,
    config_max_age: Option<u64>,
) -> (warning: Option<String>)
    ensures
        warning is Some <==> stale(last_updated, now, max_db_age, config_max_age),
        warning matches Some(line) ==> line@ == staleness_text(
            age_in_days(now as int, last_updated->0 as int) as nat,
            effective_max_age(max_db_age, config_max_age)->0 as nat,
        ),
{
    match excess_age(last_updated, now, max_db_age, config_max_age) {
        None => None,
        Some((age, max)) => {
            let mut line = join2("warning: advisory database is ", decimal(age).as_str());
            line.append(" days old (max: ");
            line.append(decimal(max).as_str());
            line.append(" days)");
            Some(line)
        },
    }
}

/// What a report says of versions that advisories affect: of gems, then of the
/// interpreter.
pub open spec fn entries(report: Report) -> Seq<Finding> {
    report.unpatched_gems.deep_view() + report.vulnerable_rubies.deep_view()
}

/// The comment on one finding.
pub open spec fn comment_text(f: Finding) -> Seq<char> {
    f.name + " "@ + f.version + " ("@ + (match f.advisory.criticality {
        Some(c) => c.word(),
        None => "Unknown"@,
    }) + ") - "@ + (match f.advisory.title {
        Some(title) => title,
        None => "N/A"@,
    })
}

/// Whether a finding is known under `id`.
pub open spec fn known_as(f: Finding, id: Seq<char>) -> bool {
    f.advisory.identifiers.contains(id)
}

/// Whether one of the findings is known under `id`.
pub open spec fn named(findings: Seq<Finding>, id: Seq<char>) -> bool {
    exists|i: int| 0 <= i < findings.len() && known_as(#[trigger] findings[i], id)
}

/// The identifiers of all findings.
pub open spec fn all_ids(findings: Seq<Finding>) -> Set<Seq<char>> {
    Set::new(|id: Seq<char>| named(findings, id))
}

/// The comment on the first of the findings that is known under `id`.
pub open spec fn first_comment(findings: Seq<Finding>, id: Seq<char>) -> Seq<char>
    decreases findings.len(),
{
    if findings.len() == 0 {
        Seq::empty()
    } else if known_as(findings[0], id) {
        comment_text(findings[0])
    } else {
        first_comment(findings.drop_first(), id)
    }
}

/// The comments on all findings: with each identifier, that on the first finding
/// known under it.
pub open spec fn all_comments(findings: Seq<Finding>) -> Map<Seq<char>, Seq<char>> {
    Map::new(|id: Seq<char>| named(findings, id), |id: Seq<char>| first_comment(findings, id))
}

/// The comment on a version that an advisory affects.
fn comment(name: &String, version: &String, advisory: &Advisory) -> (text: String)
    ensures
        text@ == comment_text(
            Finding { name: name@, version: version@, advisory: advisory.deep_view() },
        ),
{
    let mut text = join2(name.as_str(), " ");
    text.append(version.as_str());
    text.append(" (");
    match advisory.criticality() {
        Some(c) => text.append(c.to_string().as_str()),
        None => text.append("Unknown"),
    }
    text.append(") - ");
    match &advisory.title {
        Some(title) => text.append(title.as_str()),
        None => text.append("N/A"),
    }
    text
}

/// An identifier's comment does not change with the findings that come later.
proof fn lemma_first_comment_push(findings: Seq<Finding>, f: Finding, id: Seq<char>)
    ensures
        named(findings, id) ==> first_comment(findings.push(f), id) == first_comment(findings, id),
        !named(findings, id) && known_as(f, id) ==> first_comment(findings.push(f), id)
            == comment_text(f),
        named(findings.push(f), id) == (named(findings, id) || known_as(f, id)),
    decreases findings.len(),
{
    let more = findings.push(f);
    assert(named(more, id) == (named(findings, id) || known_as(f, id))) by {
        if named(findings, id) {
            let i = choose|i: int| 0 <= i < findings.len() && known_as(#[trigger] findings[i], id);
            assert(known_as(more[i], id));
        }
        if known_as(f, id) {
            assert(known_as(more[findings.len() as int], id));
        }
    }
    if findings.len() == 0 {
        assert(more[0] == f);
    } else {
        let rest = findings.drop_first();
        assert(more.drop_first() =~= rest.push(f));
        lemma_first_comment_push(rest, f, id);
        if named(findings, id) && !known_as(findings[0], id) {
            let i = choose|i: int| 0 <= i < findings.len() && known_as(#[trigger] findings[i], id);
            assert(known_as(rest[i - 1], id));
        }
        if !named(findings, id) {
            assert(!known_as(findings[0], id));
            if named(rest, id) {
                let i = choose|i: int| 0 <= i < rest.len() && known_as(#[trigger] rest[i], id);
                assert(known_as(findings[i + 1], id));
            }
        }
    }
}

/// Adds the identifiers of one finding, and its comment to those that are new.
fn add_entry(
    Ghost(before): Ghost<Seq<Finding>>,
    Ghost(f): Ghost<Finding>,
    identifiers: &Vec<String>,
    text: &String,
    ids: &mut IdSet,
    comments: &mut Comments,
)
    requires
        identifiers.deep_view() == f.advisory.identifiers,
        text@ == comment_text(f),
        old(ids)@ == all_ids(before),
        old(comments)@ == all_comments(before),
    ensures
        final(ids)@ == all_ids(before.push(f)),
        final(comments)@ == all_comments(before.push(f)),
{
    let ghost names = f.advisory.identifiers;
    assert(names.take(0).to_set() =~= Set::<Seq<char>>::empty());
    for i in 0..identifiers.len()
        invariant
            names == identifiers.deep_view(),
            text@ == comment_text(f),
            ids@ =~= all_ids(before).union(names.take(i as int).to_set()),
            comments@.dom() =~= all_ids(before).union(names.take(i as int).to_set()),
            forall|id: Seq<char>| #[trigger]
                comments@.contains_key(id) ==> comments@[id] == if named(before, id) {
                    first_comment(before, id)
                } else {
                    comment_text(f)
                },
    {
        proof {
            assert(names.take(i + 1) =~= names.take(i as int).push(names[i as int]));
            names.take(i as int).lemma_push_to_set_commute(names[i as int]);
        }
        comments.insert_if_absent(&identifiers[i], text);
        ids.insert(identifiers[i].clone());
    }
    proof {
        assert(names.take(names.len() as int) =~= names);
        assert forall|id: Seq<char>| named(before.push(f), id) == (named(before, id) || known_as(
            f,
            id,
        )) by {
            lemma_first_comment_push(before, f, id);
        }
        assert(ids@ =~= all_ids(before.push(f)));
        assert forall|id: Seq<char>| #[trigger] comments@.contains_key(id) implies comments@[id]
            == first_comment(before.push(f), id) by {
            lemma_first_comment_push(before, f, id);
        }
        assert(comments@ =~= all_comments(before.push(f)));
    }
}

/// The identifiers of all advisories that a report names, each with a comment that
/// says what it was found on. Insecure sources have no identifiers.
pub fn build_ignore_comments(report: &Report) -> (r: (IdSet, Comments))
    ensures
        r.0@ == all_ids(entries(*report)),
        r.1@ == all_comments(entries(*report)),
{
    let mut ids = IdSet::new();
    let mut comments = Comments::new();
    let ghost all = entries(*report);
    let ghost gems = report.unpatched_gems.deep_view();
    let ghost rubies = report.vulnerable_rubies.deep_view();
    proof {
        assert(ids@ =~= all_ids(all.take(0)));
        assert(comments@ =~= all_comments(all.take(0)));
    }
    for i in 0..report.unpatched_gems.len()
        invariant
            all == gems + rubies,
            gems == report.unpatched_gems.deep_view(),
            ids@ == all_ids(all.take(i as int)),
            comments@ == all_comments(all.take(i as int)),
    {
        let gem = &report.unpatched_gems[i];
        let text = comment(&gem.name, &gem.version, &gem.advisory);
        add_entry(
            Ghost(all.take(i as int)),
            Ghost(all[i as int]),
            gem.advisory.identifiers(),
            &text,
            &mut ids,
            &mut comments,
        );
        assert(all.take(i + 1) =~= all.take(i as int).push(all[i as int]));
    }
    for i in 0..report.vulnerable_rubies.len()
        invariant
            all == gems + rubies,
            rubies == report.vulnerable_rubies.deep_view(),
            ids@ == all_ids(all.take(gems.len() + i)),
            comments@ == all_comments(all.take(gems.len() + i)),
    {
        let ruby = &report.vulnerable_rubies[i];
        let text = comment(&ruby.engine, &ruby.version, &ruby.advisory);
        let ghost n = gems.len() + i;
        add_entry(
            Ghost(all.take(n)),
            Ghost(all[n]),
            ruby.advisory.identifiers(),
            &text,
            &mut ids,
            &mut comments,
        );
        assert(all.take(n + 1) =~= all.take(n).push(all[n]));
    }
    assert(all.take(all.len() as int) =~= all);
    (ids, comments)
}

/// New settings, and what is told of them.
#[derive(Debug)]
pub struct IgnoreUpdate {
    /// The settings.
    pub config: Configuration,
    /// The comments to be written with the ignored advisories.
    pub comments: Comments,
    /// How many advisories are ignored now and were not before.
    pub added: usize,
}

/// The settings `config`, with every advisory that `report` names ignored too.
pub fn update_ignore_list(report: &Report, config: &Configuration) -> (update: IgnoreUpdate)
    ensures
        update.config.ignore@ == config.ignore@.union(all_ids(entries(*report))),
        update.config.max_db_age_days == config.max_db_age_days,
        update.comments@ == all_comments(entries(*report)),
        update.added == all_ids(entries(*report)).difference(config.ignore@).len(),
{
    let (new_ids, comments) = build_ignore_comments(report);
    let ignore = config.ignore.union(&new_ids);
    let total: usize = ignore.len();
    let known: usize = config.ignore.len();
    proof {
        let fresh = new_ids@.difference(config.ignore@);
        assert(ignore@ =~= config.ignore@.union(fresh));
        assert(fresh =~= ignore@.difference(config.ignore@));
        vstd::set_lib::lemma_set_disjoint_lens(config.ignore@, fresh);
    }
    let added: usize = total - known;
    IgnoreUpdate {
        config: Configuration { ignore, max_db_age_days: config.max_db_age_days },
        comments,
        added,
    }
}

} // verus!
