//! Advisories, their severity, and what the advisory database says of a version.

use vstd::prelude::*;

use crate::lockfile::{queries, same_gem, LockedSpec, Lockfile, RubyModel, SpecModel};

verus! {

/// How severe an advisory is.
#[derive(Clone, Copy, Debug, PartialEq, Eq, Structural)]
pub enum Criticality {
    /// Rated, with no impact.
    NoImpact,
    /// Low impact.
    Low,
    /// Medium impact.
    Medium,
    /// High impact.
    High,
    /// Critical impact.
    Critical,
}

impl Criticality {
    /// The place of a severity in the order from harmless to critical.
    pub open spec fn level(self) -> int {
        match self {
            Criticality::NoImpact => 0,
            Criticality::Low => 1,
            Criticality::Medium => 2,
            Criticality::High => 3,
            Criticality::Critical => 4,
        }
    }

    /// The word for a severity.
    pub open spec fn word(self) -> Seq<char> {
        match self {
            Criticality::NoImpact => "none"@,
            Criticality::Low => "low"@,
            Criticality::Medium => "medium"@,
            Criticality::High => "high"@,
            Criticality::Critical => "critical"@,
        }
    }

    /// Whether `self` is as severe as `threshold`, or more.
    pub fn at_least(self, threshold: Criticality) -> (b: bool)
        ensures
            b == (self.level() >= threshold.level()),
    {
        rank(Some(self)) >= rank(Some(threshold))
    }

    /// The word for a severity.
    pub fn to_string(self) -> (s: String)
        ensures
            s@ == self.word(),
    {
        match self {
            Criticality::NoImpact => "none".to_owned(),
            Criticality::Low => "low".to_owned(),
            Criticality::Medium => "medium".to_owned(),
            Criticality::High => "high".to_owned(),
            Criticality::Critical => "critical".to_owned(),
        }
    }
}

/// How severe an advisory is, as a number: the higher, the more severe. An unknown
/// severity has the lowest rank, so that it is listed after every known one.
pub open spec fn severity_rank(severity: Option<Criticality>) -> int {
    match severity {
        None => 0,
        Some(c) => 1 + c.level(),
    }
}

/// Computes `severity_rank`.
pub fn rank(severity: Option<Criticality>) -> (r: u8)
    ensures
        r == severity_rank(severity),
        r <= 5,
{
    match severity {
        None => 0,
        Some(Criticality::NoImpact) => 1,
        Some(Criticality::Low) => 2,
        Some(Criticality::Medium) => 3,
        Some(Criticality::High) => 4,
        Some(Criticality::Critical) => 5,
    }
}

/// One advisory: what an audit reads of it.
#[derive(Debug)]
pub struct Advisory {
    /// The name of the advisory, such as `CVE-2020-1234`.
    pub id: String,
    /// The headline, where there is one.
    pub title: Option<String>,
    /// Every identifier under which the advisory is known.
    pub identifiers: Vec<String>,
    /// How severe it is, where that is known.
    pub criticality: Option<Criticality>,
}

/// The contents of an `Advisory`.
pub struct AdvisoryModel {
    pub id: Seq<char>,
    pub title: Option<Seq<char>>,
    pub identifiers: Seq<Seq<char>>,
    pub criticality: Option<Criticality>,
}

impl DeepView for Advisory {
    type V = AdvisoryModel;

    open spec fn deep_view(&self) -> AdvisoryModel {
        AdvisoryModel {
            id: self.id@,
            title: self.title.deep_view(),
            identifiers: self.identifiers.deep_view(),
            criticality: self.criticality,
        }
    }
}

impl Clone for Advisory {
    fn clone(&self) -> (copy: Advisory)
        ensures
            copy.deep_view() == self.deep_view(),
    {
        let title = match &self.title {
            Some(t) => Some(t.clone()),
            None => None,
        };
        let identifiers = self.identifiers.clone();
        assert(identifiers@ =~= self.identifiers@);
        Advisory { id: self.id.clone(), title, identifiers, criticality: self.criticality }
    }
}

impl Advisory {
    /// Every identifier under which the advisory is known.
    pub fn identifiers(&self) -> (ids: &Vec<String>)
        ensures
            ids.deep_view() == self.deep_view().identifiers,
    {
        &self.identifiers
    }

    /// How severe the advisory is, where that is known.
    pub fn criticality(&self) -> (c: Option<Criticality>)
        ensures
            c == self.deep_view().criticality,
    {
        self.criticality
    }
}

/// What the advisory database says of one version of a gem, or of one version of
/// a Ruby interpreter.
#[derive(Debug)]
pub struct Answer {
    /// The gem, or the interpreter's engine.
    pub name: String,
    /// The version.
    pub version: String,
    /// The advisories that affect the version.
    pub advisories: Vec<Advisory>,
    /// How many advisories could not be loaded on the way.
    pub load_errors: usize,
}

/// The contents of an `Answer`.
pub struct AnswerModel {
    pub name: Seq<char>,
    pub version: Seq<char>,
    pub advisories: Seq<AdvisoryModel>,
    pub load_errors: nat,
}

impl DeepView for Answer {
    type V = AnswerModel;

    open spec fn deep_view(&self) -> AnswerModel {
        AnswerModel {
            name: self.name@,
            version: self.version@,
            advisories: self.advisories.deep_view(),
            load_errors: self.load_errors as nat,
        }
    }
}

/// What `answers` hold of `version` of `name`: the advisories and the number of
/// load errors of the first answer on it, or nothing where there is none.
pub open spec fn answer_on(answers: Seq<AnswerModel>, name: Seq<char>, version: Seq<char>) -> (
    Seq<AdvisoryModel>,
    nat,
)
    decreases answers.len(),
{
    if answers.len() == 0 {
        (Seq::empty(), 0)
    } else if answers[0].name == name && answers[0].version == version {
        (answers[0].advisories, answers[0].load_errors)
    } else {
        answer_on(answers.drop_first(), name, version)
    }
}

fn find_answer(answers: &Vec<Answer>, name: &String, version: &String) -> (found: (
    Vec<Advisory>,
    usize,
))
    ensures
        found.0.deep_view() == answer_on(answers.deep_view(), name@, version@).0,
        found.1 == answer_on(answers.deep_view(), name@, version@).1,
{
    let ghost all = answers.deep_view();
    assert(all.skip(0) =~= all);
    for i in 0..answers.len()
        invariant
            all == answers.deep_view(),
            answer_on(all, name@, version@) == answer_on(all.skip(i as int), name@, version@),
    {
        proof {
            assert(all.skip(i as int).drop_first() =~= all.skip(i + 1));
            assert(all.skip(i as int)[0] == answers[i as int].deep_view());
        }
        if answers[i].name == *name && answers[i].version == *version {
            let advisories = answers[i].advisories.clone();
            assert(advisories.deep_view() =~= answers[i as int].advisories.deep_view());
            return (advisories, answers[i].load_errors);
        }
    }
    let none: Vec<Advisory> = Vec::new();
    assert(none.deep_view() =~= Seq::<AdvisoryModel>::empty());
    (none, 0)
}

/// What was said of the gem `spec`.
pub open spec fn answer_model(spec: SpecModel, reply: (Seq<AdvisoryModel>, nat)) -> AnswerModel {
    AnswerModel {
        name: spec.name,
        version: spec.version,
        advisories: reply.0,
        load_errors: reply.1,
    }
}

fn pair_answers(asked: &Vec<LockedSpec>, replies: Vec<(Vec<Advisory>, usize)>) -> (answers: Vec<
    Answer,
>)
    requires
        asked@.len() == replies@.len(),
    ensures
        answers@.len() == asked@.len(),
        forall|i: int|
            0 <= i < asked@.len() ==> #[trigger] answers.deep_view()[i] == answer_model(
                asked.deep_view()[i],
                reply_model(replies@[i]),
            ),
{
    let ghost all = replies@;
    let mut answers: Vec<Answer> = Vec::new();
    let mut n: usize = 0;
    for reply in it: replies
        invariant
            it.seq() == all,
            asked@.len() == all.len(),
            n == it.index(),
            answers@.len() == n,
            forall|i: int|
                0 <= i < n ==> (#[trigger] answers@[i]).deep_view() == answer_model(
                    asked@[i].deep_view(),
                    reply_model(all[i]),
                ),
    {
        assert(n < asked.len());
        let (advisories, load_errors) = reply;
        answers.push(
            Answer {
                name: asked[n].name.clone(),
                version: asked[n].version.clone(),
                advisories,
                load_errors,
            },
        );
        n = n + 1;
    }
    answers
}

/// The advisory database, as far as one audit asks it.
#[derive(Debug)]
pub struct Database {
    /// What it says of gem versions.
    pub gems: Vec<Answer>,
    /// What it says of Ruby interpreter versions.
    pub rubies: Vec<Answer>,
}

/// What the database said to one question: the advisories, and how many could not
/// be loaded.
pub open spec fn reply_model(reply: (Vec<Advisory>, usize)) -> (Seq<AdvisoryModel>, nat) {
    (reply.0.deep_view(), reply.1 as nat)
}

/// Whether the database is asked about the interpreter.
pub open spec fn asks_about_ruby(ruby: Option<RubyModel>) -> bool {
    ruby matches Some(rv) && rv.version_valid
}

/// The answer on a version is found, where no earlier answer is on it.
proof fn lemma_answer_found(answers: Seq<AnswerModel>, i: int)
    requires
        0 <= i < answers.len(),
        forall|j: int|
            0 <= j < i ==> !((#[trigger] answers[j]).name == answers[i].name && answers[j].version
                == answers[i].version),
    ensures
        answer_on(answers, answers[i].name, answers[i].version) == (
            answers[i].advisories,
            answers[i].load_errors,
        ),
    decreases i,
{
    if i > 0 {
        let rest = answers.drop_first();
        assert(answers[0] == answers[0]);
        assert forall|j: int| 0 <= j < i - 1 implies !((#[trigger] rest[j]).name == rest[i - 1].name
            && rest[j].version == rest[i - 1].version) by {
            assert(rest[j] == answers[j + 1]);
        }
        lemma_answer_found(rest, i - 1);
    }
}

impl Database {
    /// Whether the database holds, on everything about which it is asked for the
    /// sake of `lockfile`, what it said: `gems` to the questions about gems, in their
    /// order, and `ruby` to the question about the interpreter.
    pub open spec fn holds(
        self,
        lockfile: Lockfile,
        gems: Seq<(Vec<Advisory>, usize)>,
        ruby: Option<(Vec<Advisory>, usize)>,
    ) -> bool {
        let asked = queries(lockfile.specs.deep_view());
        &&& forall|i: int|
            0 <= i < asked.len() ==> answer_on(
                self.gems.deep_view(),
                (#[trigger] asked[i]).name,
                asked[i].version,
            ) == reply_model(gems[i])
        &&& asks_about_ruby(lockfile.ruby_version.deep_view()) ==> answer_on(
            self.rubies.deep_view(),
            lockfile.ruby_version->0.engine@,
            lockfile.ruby_version->0.version@,
        ) == reply_model(ruby->0)
    }

    /// Puts together what the database said for the sake of `lockfile`: `gems` to
    /// the questions that `gem_queries` gives, one by one, and `ruby` to the question
    /// about the interpreter. `None` where a question went without a reply, or a
    /// reply belongs to no question.
    pub fn from_replies(
        lockfile: &Lockfile,
        gems: Vec<(Vec<Advisory>, usize)>,
        ruby: Option<(Vec<Advisory>, usize)>,
    ) -> (database: Option<Database>)
        ensures
            database is Some <==> {
                &&& gems@.len() == queries(lockfile.specs.deep_view()).len()
                &&& ruby is Some <==> asks_about_ruby(lockfile.ruby_version.deep_view())
            },
            database matches Some(db) ==> {
                &&& db.holds(*lockfile, gems@, ruby)
                &&& db.gems.deep_view() == Seq::new(
                    gems@.len(),
                    |i: int|
                        answer_model(
                            queries(lockfile.specs.deep_view())[i],
                            reply_model(gems@[i]),
                        ),
                )
                &&& db.rubies.deep_view() == match (lockfile.ruby_version, ruby) {
                    (Some(rv), Some(reply)) => seq![
                        AnswerModel {
                            name: rv.engine@,
                            version: rv.version@,
                            advisories: reply.0.deep_view(),
                            load_errors: reply.1 as nat,
                        },
                    ],
                    _ => Seq::<AnswerModel>::empty(),
                }
            },
    {
        let asked = lockfile.gem_queries();
        let ghost models = queries(lockfile.specs.deep_view());
        if gems.len() != asked.len() {
            return None;
        }
        let mut rubies: Vec<Answer> = Vec::new();
        match (&lockfile.ruby_version, ruby) {
            (Some(rv), Some((advisories, load_errors))) => {
                if !rv.version_valid {
                    return None;
                }
                let answer = Answer {
                    name: rv.engine.clone(),
                    version: rv.version.clone(),
                    advisories,
                    load_errors,
                };
                rubies.push(answer);
                proof {
                    lemma_answer_found(rubies.deep_view(), 0);
                }
            },
            (Some(rv), None) => {
                if rv.version_valid {
                    return None;
                }
            },
            (None, Some(_)) => {
                return None;
            },
            (None, None) => {},
        }
        let paired = pair_answers(&asked, gems);
        proof {
            let answers = paired.deep_view();
            crate::lockfile::lemma_queries_differ(lockfile.specs.deep_view());
            assert forall|i: int| 0 <= i < models.len() implies answer_on(
                answers,
                (#[trigger] models[i]).name,
                models[i].version,
            ) == reply_model(gems@[i]) by {
                assert(answers[i] == answer_model(models[i], reply_model(gems@[i])));
                assert forall|j: int| 0 <= j < i implies !((#[trigger] answers[j]).name
                    == answers[i].name && answers[j].version == answers[i].version) by {
                    assert(answers[j] == answer_model(models[j], reply_model(gems@[j])));
                    assert(!same_gem(models[j], models[i]));
                }
                lemma_answer_found(answers, i);
            }
        }
        Some(Database { gems: paired, rubies })
    }

    /// What the database says of `version` of the gem `name`: the advisories that
    /// affect it, and how many could not be loaded.
    pub fn check_gem(&self, name: &String, version: &String) -> (found: (Vec<Advisory>, usize))
        ensures
            found.0.deep_view() == answer_on(self.gems.deep_view(), name@, version@).0,
            found.1 == answer_on(self.gems.deep_view(), name@, version@).1,
    {
        find_answer(&self.gems, name, version)
    }

    /// What the database says of `version` of the interpreter `engine`: the
    /// advisories that affect it, and how many could not be loaded.
    pub fn check_ruby(&self, engine: &String, version: &String) -> (found: (Vec<Advisory>, usize))
        ensures
            found.0.deep_view() == answer_on(self.rubies.deep_view(), engine@, version@).0,
            found.1 == answer_on(self.rubies.deep_view(), engine@, version@).1,
    {
        find_answer(&self.rubies, engine, version)
    }
}

} // verus!
