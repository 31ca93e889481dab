//! Looking after the local copy of the advisory database.
//!
//! A task is carried out step by step: `action` says what is to be done next, the
//! front end does it, and `step` takes what came of it and goes on.

use vstd::prelude::*;

use crate::exit::{EXIT_ERROR, EXIT_SUCCESS};
use crate::text::{decimal, decimal_text, join2};

verus! {

/// What is to be done with the database.
#[derive(Clone, Copy, Debug, PartialEq, Eq, Structural)]
pub enum Task {
    /// Have it ready for an audit: fetch it where there is none, bring it up to
    /// date where that is asked for, and open it.
    Ensure {
        /// Whether to bring it up to date.
        update: bool,
        /// Whether to keep silent unless something goes wrong.
        quiet: bool,
    },
    /// Bring it up to date, or fetch it where there is none.
    Update {
        /// Whether to keep silent unless something goes wrong.
        quiet: bool,
    },
    /// Fetch it where there is none.
    Download {
        /// Whether to keep silent unless something goes wrong.
        quiet: bool,
    },
    /// Describe it.
    Stats,
}

/// How far a task has come: what it waits for.
#[derive(Clone, Copy, Debug, PartialEq, Eq, Structural)]
pub enum Stage {
    /// Whether there is a database.
    Probing,
    /// The database being fetched.
    Downloading,
    /// The database being opened so that it can be brought up to date.
    OpeningToUpdate,
    /// The database being brought up to date.
    Updating,
    /// The database being opened.
    Opening,
    /// The description being printed.
    Describing,
    /// Nothing: the task has ended, with this exit status.
    Finished(i32),
}

/// What the front end does for a task.
#[derive(Clone, Copy, Debug, PartialEq, Eq, Structural)]
pub enum Action {
    /// Look whether there is a database.
    Probe,
    /// Fetch it.
    Download,
    /// Open it.
    Open,
    /// Bring it up to date.
    Update,
    /// Print its description.
    Describe,
    /// Nothing more: the exit status.
    Exit(i32),
}

/// What came of an action.
#[derive(Debug)]
pub enum Event {
    /// Whether there is a database.
    Probed(bool),
    /// The database was fetched.
    Downloaded,
    /// The database could not be fetched, for this reason.
    DownloadFailed(String),
    /// The database was opened.
    Opened,
    /// The database could not be opened, for this reason.
    OpenFailed(String),
    /// The database was brought up to date.
    Updated,
    /// The database is no git repository, so it was left as it is.
    NotARepository,
    /// The database could not be brought up to date, for this reason.
    UpdateFailed(String),
    /// The description was printed.
    Described,
}

/// A task under way.
#[derive(Clone, Copy, Debug, PartialEq, Eq, Structural)]
pub struct Maintenance {
    /// The task.
    pub task: Task,
    /// How far it has come.
    pub stage: Stage,
}

/// One line for the user.
pub open spec fn say(line: Seq<char>) -> Seq<Seq<char>> {
    seq![line]
}

/// One line for the user, unless quiet.
pub open spec fn say_unless(quiet: bool, line: Seq<char>) -> Seq<Seq<char>> {
    if quiet {
        Seq::empty()
    } else {
        seq![line]
    }
}

/// No line for the user.
pub open spec fn say_nothing() -> Seq<Seq<char>> {
    Seq::empty()
}

pub(crate) fn lines_of(line: String) -> (lines: Vec<String>)
    ensures
        lines.deep_view() == say(line@),
{
    let mut lines: Vec<String> = Vec::new();
    lines.push(line);
    assert(lines.deep_view() =~= say(line@));
    lines
}

pub(crate) fn no_lines() -> (lines: Vec<String>)
    ensures
        lines.deep_view() == say_nothing(),
{
    let lines: Vec<String> = Vec::new();
    assert(lines.deep_view() =~= say_nothing());
    lines
}

fn lines_unless(quiet: bool, line: &str) -> (lines: Vec<String>)
    ensures
        lines.deep_view() == say_unless(quiet, line@),
{
    if quiet {
        no_lines()
    } else {
        lines_of(line.to_owned())
    }
}

impl Maintenance {
    /// A task that is about to begin.
    pub open spec fn begun(task: Task) -> Maintenance {
        Maintenance {
            task,
            stage: match task {
                Task::Stats => Stage::Opening,
                _ => Stage::Probing,
            },
        }
    }

    /// `self`, waiting for something else.
    pub open spec fn at(self, stage: Stage) -> Maintenance {
        Maintenance { task: self.task, stage }
    }

    /// `self`, ended because the database could not be opened.
    pub open spec fn cannot_open(self, reason: Seq<char>) -> (Maintenance, Seq<Seq<char>>) {
        (
            self.at(Stage::Finished(EXIT_ERROR)),
            say("Failed to open advisory database: "@ + reason),
        )
    }

    /// Where a task goes from here when `event` comes, and what the user is told.
    /// Nowhere, where it does not wait for such an event.
    pub open spec fn next(self, event: Event) -> Option<(Maintenance, Seq<Seq<char>>)> {
        match self.task {
            Task::Ensure { update, quiet } => match (self.stage, event) {
                (Stage::Probing, Event::Probed(false)) => Some(
                    (
                        self.at(Stage::Downloading),
                        say_unless(quiet, "Downloading ruby-advisory-db ..."@),
                    ),
                ),
                (Stage::Probing, Event::Probed(true)) => if update {
                    Some(
                        (
                            self.at(Stage::OpeningToUpdate),
                            say_unless(quiet, "Updating ruby-advisory-db ..."@),
                        ),
                    )
                } else {
                    Some((self.at(Stage::Opening), say_nothing()))
                },
                (Stage::Downloading, Event::Downloaded) => Some(
                    (self.at(Stage::Opening), say_unless(quiet, "Downloaded ruby-advisory-db"@)),
                ),
                (Stage::Downloading, Event::DownloadFailed(reason)) => Some(
                    (
                        self.at(Stage::Finished(EXIT_ERROR)),
                        say("Failed to download advisory database: "@ + reason@),
                    ),
                ),
                (Stage::OpeningToUpdate, Event::Opened) => Some(
                    (self.at(Stage::Updating), say_nothing()),
                ),
                (Stage::OpeningToUpdate, Event::OpenFailed(reason)) => Some(
                    self.cannot_open(reason@),
                ),
                (Stage::Updating, Event::Updated) => Some(
                    (self.at(Stage::Opening), say_unless(quiet, "Updated ruby-advisory-db"@)),
                ),
                (Stage::Updating, Event::NotARepository) => Some(
                    (
                        self.at(Stage::Opening),
                        say_unless(
                            quiet,
                            "Skipping update, ruby-advisory-db is not a git repository"@,
                        ),
                    ),
                ),
                (Stage::Updating, Event::UpdateFailed(reason)) => Some(
                    (
                        self.at(Stage::Opening),
                        say("warning: Failed to update advisory database: "@ + reason@),
                    ),
                ),
                (Stage::Opening, Event::Opened) => Some(
                    (self.at(Stage::Finished(EXIT_SUCCESS)), say_nothing()),
                ),
                (Stage::Opening, Event::OpenFailed(reason)) => Some(self.cannot_open(reason@)),
                _ => None,
            },
            Task::Update { quiet } => match (self.stage, event) {
                (Stage::Probing, Event::Probed(false)) => Some(
                    (Maintenance::begun(Task::Download { quiet }), say_nothing()),
                ),
                (Stage::Probing, Event::Probed(true)) => Some(
                    (
                        self.at(Stage::OpeningToUpdate),
                        say_unless(quiet, "Updating ruby-advisory-db ..."@),
                    ),
                ),
                (Stage::OpeningToUpdate, Event::Opened) => Some(
                    (self.at(Stage::Updating), say_nothing()),
                ),
                (Stage::OpeningToUpdate, Event::OpenFailed(reason)) => Some(
                    self.cannot_open(reason@),
                ),
                (Stage::Updating, Event::Updated) => Some(
                    (self.described(quiet), say_unless(quiet, "Updated ruby-advisory-db"@)),
                ),
                (Stage::Updating, Event::NotARepository) => Some(
                    (
                        self.described(quiet),
                        say_unless(
                            quiet,
                            "Skipping update, ruby-advisory-db is not a git repository"@,
                        ),
                    ),
                ),
                (Stage::Updating, Event::UpdateFailed(reason)) => Some(
                    (
                        self.at(Stage::Finished(EXIT_ERROR)),
                        say("Failed to update: "@ + reason@),
                    ),
                ),
                (Stage::Describing, Event::Described) => Some(
                    (self.at(Stage::Finished(EXIT_SUCCESS)), say_nothing()),
                ),
                _ => None,
            },
            Task::Download { quiet } => match (self.stage, event) {
                (Stage::Probing, Event::Probed(true)) => Some(
                    (self.at(Stage::Finished(EXIT_SUCCESS)), say("Database already exists"@)),
                ),
                (Stage::Probing, Event::Probed(false)) => Some(
                    (
                        self.at(Stage::Downloading),
                        say_unless(quiet, "Downloading ruby-advisory-db ..."@),
                    ),
                ),
                (Stage::Downloading, Event::Downloaded) => Some(
                    (self.described(quiet), say_nothing()),
                ),
                (Stage::Downloading, Event::DownloadFailed(reason)) => Some(
                    (
                        self.at(Stage::Finished(EXIT_ERROR)),
                        say("Failed to download: "@ + reason@),
                    ),
                ),
                (Stage::Describing, Event::Described) => Some(
                    (self.at(Stage::Finished(EXIT_SUCCESS)), say_nothing()),
                ),
                _ => None,
            },
            Task::Stats => match (self.stage, event) {
                (Stage::Opening, Event::Opened) => Some(
                    (self.at(Stage::Describing), say_nothing()),
                ),
                (Stage::Opening, Event::OpenFailed(reason)) => Some(self.cannot_open(reason@)),
                (Stage::Describing, Event::Described) => Some(
                    (self.at(Stage::Finished(EXIT_SUCCESS)), say_nothing()),
                ),
                _ => None,
            },
        }
    }

    /// `self`, with nothing left to do but to describe the database, unless quiet.
    pub open spec fn described(self, quiet: bool) -> Maintenance {
        if quiet {
            self.at(Stage::Finished(EXIT_SUCCESS))
        } else {
            self.at(Stage::Describing)
        }
    }

    /// What a task waits for.
    pub open spec fn pending(self) -> Action {
        match self.stage {
            Stage::Probing => Action::Probe,
            Stage::Downloading => Action::Download,
            Stage::OpeningToUpdate => Action::Open,
            Stage::Updating => Action::Update,
            Stage::Opening => Action::Open,
            Stage::Describing => Action::Describe,
            Stage::Finished(code) => Action::Exit(code),
        }
    }

    /// Begins a task.
    pub fn begin(task: Task) -> (m: Maintenance)
        ensures
            m == Maintenance::begun(task),
    {
        match task {
            Task::Stats => Maintenance { task, stage: Stage::Opening },
            _ => Maintenance { task, stage: Stage::Probing },
        }
    }

    /// What is to be done next.
    pub fn action(self) -> (action: Action)
        ensures
            action == self.pending(),
    {
        match self.stage {
            Stage::Probing => Action::Probe,
            Stage::Downloading => Action::Download,
            Stage::OpeningToUpdate => Action::Open,
            Stage::Updating => Action::Update,
            Stage::Opening => Action::Open,
            Stage::Describing => Action::Describe,
            Stage::Finished(code) => Action::Exit(code),
        }
    }

    fn go(self, stage: Stage) -> (m: Maintenance)
        ensures
            m == self.at(stage),
    {
        Maintenance { task: self.task, stage }
    }

    fn describe(self, quiet: bool) -> (m: Maintenance)
        ensures
            m == self.described(quiet),
    {
        if quiet {
            self.go(Stage::Finished(EXIT_SUCCESS))
        } else {
            self.go(Stage::Describing)
        }
    }

    fn fail(self, text: &str, reason: &String) -> (step: Option<(Maintenance, Vec<String>)>)
        ensures
            step matches Some((m, lines)) && m == self.at(Stage::Finished(EXIT_ERROR))
                && lines.deep_view() == say(text@ + reason@),
    {
        Some((self.go(Stage::Finished(EXIT_ERROR)), lines_of(join2(text, reason.as_str()))))
    }

    /// Goes on with a task when `event` comes: where it goes, and what the user is
    /// told. `None` where it does not wait for such an event.
    pub fn step(self, event: &Event) -> (step: Option<(Maintenance, Vec<String>)>)
        ensures
            step is Some <==> self.next(*event) is Some,
            step matches Some((m, lines)) ==> self.next(*event) == Some((m, lines.deep_view())),
    {
        match self.task {
            Task::Ensure { update, quiet } => self.step_ensure(update, quiet, event),
            Task::Update { quiet } => self.step_update(quiet, event),
            Task::Download { quiet } => self.step_download(quiet, event),
            Task::Stats => match (self.stage, event) {
                (Stage::Opening, Event::Opened) => Some((self.go(Stage::Describing), no_lines())),
                (Stage::Opening, Event::OpenFailed(reason)) => self.fail(
                    "Failed to open advisory database: ",
                    reason,
                ),
                (Stage::Describing, Event::Described) => Some(
                    (self.go(Stage::Finished(EXIT_SUCCESS)), no_lines()),
                ),
                _ => None,
            },
        }
    }

    fn step_ensure(self, update: bool, quiet: bool, event: &Event) -> (step: Option<
        (Maintenance, Vec<String>),
    >)
        requires
            self.task == (Task::Ensure { update, quiet }),
        ensures
            step is Some <==> self.next(*event) is Some,
            step matches Some((m, lines)) ==> self.next(*event) == Some((m, lines.deep_view())),
    {
        match (self.stage, event) {
            (Stage::Probing, Event::Probed(false)) => Some(
                (
                    self.go(Stage::Downloading),
                    lines_unless(quiet, "Downloading ruby-advisory-db ..."),
                ),
            ),
            (Stage::Probing, Event::Probed(true)) => if update {
                Some(
                    (
                        self.go(Stage::OpeningToUpdate),
                        lines_unless(quiet, "Updating ruby-advisory-db ..."),
                    ),
                )
            } else {
                Some((self.go(Stage::Opening), no_lines()))
            },
            (Stage::Downloading, Event::Downloaded) => Some(
                (self.go(Stage::Opening), lines_unless(quiet, "Downloaded ruby-advisory-db")),
            ),
            (Stage::Downloading, Event::DownloadFailed(reason)) => self.fail(
                "Failed to download advisory database: ",
                reason,
            ),
            (Stage::OpeningToUpdate, Event::Opened) => Some((self.go(Stage::Updating), no_lines())),
            (Stage::OpeningToUpdate, Event::OpenFailed(reason)) => self.fail(
                "Failed to open advisory database: ",
                reason,
            ),
            (Stage::Updating, Event::Updated) => Some(
                (self.go(Stage::Opening), lines_unless(quiet, "Updated ruby-advisory-db")),
            ),
            (Stage::Updating, Event::NotARepository) => Some(
                (
                    self.go(Stage::Opening),
                    lines_unless(
                        quiet,
                        "Skipping update, ruby-advisory-db is not a git repository",
                    ),
                ),
            ),
            (Stage::Updating, Event::UpdateFailed(reason)) => Some(
                (
                    self.go(Stage::Opening),
                    lines_of(
                        join2("warning: Failed to update advisory database: ", reason.as_str()),
                    ),
                ),
            ),
            (Stage::Opening, Event::Opened) => Some(
                (self.go(Stage::Finished(EXIT_SUCCESS)), no_lines()),
            ),
            (Stage::Opening, Event::OpenFailed(reason)) => self.fail(
                "Failed to open advisory database: ",
                reason,
            ),
            _ => None,
        }
    }

    fn step_update(self, quiet: bool, event: &Event) -> (step: Option<(Maintenance, Vec<String>)>)
        requires
            self.task == (Task::Update { quiet }),
        ensures
            step is Some <==> self.next(*event) is Some,
            step matches Some((m, lines)) ==> self.next(*event) == Some((m, lines.deep_view())),
    {
        match (self.stage, event) {
            (Stage::Probing, Event::Probed(false)) => Some(
                (Maintenance::begin(Task::Download { quiet }), no_lines()),
            ),
            (Stage::Probing, Event::Probed(true)) => Some(
                (
                    self.go(Stage::OpeningToUpdate),
                    lines_unless(quiet, "Updating ruby-advisory-db ..."),
                ),
            ),
            (Stage::OpeningToUpdate, Event::Opened) => Some((self.go(Stage::Updating), no_lines())),
            (Stage::OpeningToUpdate, Event::OpenFailed(reason)) => self.fail(
                "Failed to open advisory database: ",
                reason,
            ),
            (Stage::Updating, Event::Updated) => Some(
                (self.describe(quiet), lines_unless(quiet, "Updated ruby-advisory-db")),
            ),
            (Stage::Updating, Event::NotARepository) => Some(
                (
                    self.describe(quiet),
                    lines_unless(
                        quiet,
                        "Skipping update, ruby-advisory-db is not a git repository",
                    ),
                ),
            ),
            (Stage::Updating, Event::UpdateFailed(reason)) => self.fail(
                "Failed to update: ",
                reason,
            ),
            (Stage::Describing, Event::Described) => Some(
                (self.go(Stage::Finished(EXIT_SUCCESS)), no_lines()),
            ),
            _ => None,
        }
    }

    fn step_download(self, quiet: bool, event: &Event) -> (step: Option<(Maintenance, Vec<String>)>)
        requires
            self.task == (Task::Download { quiet }),
        ensures
            step is Some <==> self.next(*event) is Some,
            step matches Some((m, lines)) ==> self.next(*event) == Some((m, lines.deep_view())),
    {
        match (self.stage, event) {
            (Stage::Probing, Event::Probed(true)) => Some(
                (
                    self.go(Stage::Finished(EXIT_SUCCESS)),
                    lines_of("Database already exists".to_owned()),
                ),
            ),
            (Stage::Probing, Event::Probed(false)) => Some(
                (
                    self.go(Stage::Downloading),
                    lines_unless(quiet, "Downloading ruby-advisory-db ..."),
                ),
            ),
            (Stage::Downloading, Event::Downloaded) => Some((self.describe(quiet), no_lines())),
            (Stage::Downloading, Event::DownloadFailed(reason)) => self.fail(
                "Failed to download: ",
                reason,
            ),
            (Stage::Describing, Event::Described) => Some(
                (self.go(Stage::Finished(EXIT_SUCCESS)), no_lines()),
            ),
            _ => None,
        }
    }
}

/// The lines that describe a database with `gems` advisories on gems and `rubies`
/// on interpreters, last updated at `last_updated`, at the commit `commit`.
pub open spec fn stats_text(
    gems: nat,
    rubies: nat,
    last_updated: Option<Seq<char>>,
    commit: Option<Seq<char>>,
) -> Seq<Seq<char>> {
    seq![
        "ruby-advisory-db:"@,
        "  advisories:\t"@ + decimal_text(gems + rubies) + " advisories"@,
    ] + (if rubies > 0 {
        seq!["  gems:\t\t"@ + decimal_text(gems), "  rubies:\t"@ + decimal_text(rubies)]
    } else {
        Seq::empty()
    }) + (match last_updated {
        Some(time) => seq!["  last updated:\t"@ + time],
        None => Seq::empty(),
    }) + (match commit {
        Some(id) => seq!["  commit:\t"@ + id],
        None => Seq::empty(),
    })
}

/// The lines that describe a database with `gems` advisories on gems and `rubies`
/// on interpreters.
pub fn stats_lines(
    gems: usize,
    rubies: usize,
    last_updated: Option<String>,
    commit: Option<String>,
) -> (lines: Vec<String>)
    requires
        gems + rubies <= usize::MAX,
    ensures
        lines.deep_view() == stats_text(
            gems as nat,
            rubies as nat,
            last_updated.deep_view(),
            commit.deep_view(),
        ),
{
    let mut lines: Vec<String> = Vec::new();
    lines.push("ruby-advisory-db:".to_owned());
    let mut total = join2("  advisories:\t", decimal((gems + rubies) as u64).as_str());
    total.append(" advisories");
    lines.push(total);
    if rubies > 0 {
        lines.push(join2("  gems:\t\t", decimal(gems as u64).as_str()));
        lines.push(join2("  rubies:\t", decimal(rubies as u64).as_str()));
    }
    match &last_updated {
        Some(time) => lines.push(join2("  last updated:\t", time.as_str())),
        None => {},
    }
    match &commit {
        Some(id) => lines.push(join2("  commit:\t", id.as_str())),
        None => {},
    }
    assert(lines.deep_view() =~= stats_text(
        gems as nat,
        rubies as nat,
        last_updated.deep_view(),
        commit.deep_view(),
    ));
    lines
}

/// What comes of bringing a database up to date.
pub enum UpdateOutcome {
    Done,
    Skipped,
    Failed(String),
}

/// What every action would come to, wherever a task gets to it.
pub struct Surroundings {
    /// Whether there is a database.
    pub present: bool,
    /// Why the database cannot be fetched, if it cannot.
    pub download_failure: Option<String>,
    /// Why the database cannot be opened before it is brought up to date, if it
    /// cannot.
    pub update_open_failure: Option<String>,
    /// What comes of bringing it up to date.
    pub update: UpdateOutcome,
    /// Why the database cannot be opened, if it cannot.
    pub open_failure: Option<String>,
}

/// How opening a database ends.
pub open spec fn opening(failure: Option<String>) -> Event {
    match failure {
        None => Event::Opened,
        Some(reason) => Event::OpenFailed(reason),
    }
}

impl Surroundings {
    /// What comes of what a task waits for.
    pub open spec fn reply(self, m: Maintenance) -> Event {
        match m.stage {
            Stage::Probing => Event::Probed(self.present),
            Stage::Downloading => match self.download_failure {
                None => Event::Downloaded,
                Some(reason) => Event::DownloadFailed(reason),
            },
            Stage::OpeningToUpdate => opening(self.update_open_failure),
            Stage::Updating => match self.update {
                UpdateOutcome::Done => Event::Updated,
                UpdateOutcome::Skipped => Event::NotARepository,
                UpdateOutcome::Failed(reason) => Event::UpdateFailed(reason),
            },
            Stage::Opening => opening(self.open_failure),
            _ => Event::Described,
        }
    }

    /// Where a task ends here.
    pub open spec fn end_of(self, m: Maintenance) -> Maintenance
        decreases m.steps_left(),
    {
        match m.next(self.reply(m)) {
            Some((n, _)) if n.steps_left() < m.steps_left() => self.end_of(n),
            _ => m,
        }
    }
}

impl Maintenance {
    /// Whether a task can come to wait for this.
    pub open spec fn possible(self) -> bool {
        match self.task {
            Task::Ensure { .. } => self.stage !is Describing,
            Task::Update { .. } => self.stage !is Downloading && self.stage !is Opening,
            Task::Download { .. } => self.stage !is OpeningToUpdate && self.stage !is Updating
                && self.stage !is Opening,
            Task::Stats => self.stage is Opening || self.stage is Describing
                || self.stage is Finished,
        }
    }

    /// A bound on the number of steps to the end of a task.
    pub open spec fn steps_left(self) -> nat {
        match self.stage {
            Stage::Probing => if self.task is Update {
                6
            } else {
                5
            },
            Stage::Downloading => 4,
            Stage::OpeningToUpdate => 4,
            Stage::Updating => 3,
            Stage::Opening => 2,
            Stage::Describing => 1,
            Stage::Finished(_) => 0,
        }
    }
}

/// Every step of a task brings it nearer to its end, so that no task takes more
/// than six, and a task only ever waits for what belongs to it.
pub proof fn tasks_end(m: Maintenance, event: Event)
    requires
        m.possible(),
    ensures
        m.steps_left() <= 6,
        m.next(event) matches Some((n, _)) ==> n.possible() && n.steps_left() < m.steps_left(),
        m.stage is Finished ==> m.next(event) is None,
{
}

/// A task that has just begun waits for what belongs to it.
pub proof fn tasks_begin_possible(task: Task)
    ensures
        Maintenance::begun(task).possible(),
{
}

/// A task ends with success or with an error, and with an error only as it tells
/// the user why.
pub proof fn errors_are_told(m: Maintenance, event: Event)
    requires
        m.possible(),
    ensures
        m.next(event) matches Some((n, lines)) ==> {
            &&& n.stage matches Stage::Finished(code) ==> code == EXIT_SUCCESS || code == EXIT_ERROR
            &&& n.stage == Stage::Finished(EXIT_ERROR) ==> lines.len() == 1
        },
{
}

/// Whether a task was asked to keep silent.
pub open spec fn is_quiet(task: Task) -> bool {
    match task {
        Task::Ensure { quiet, .. } => quiet,
        Task::Update { quiet } => quiet,
        Task::Download { quiet } => quiet,
        Task::Stats => false,
    }
}

/// A quiet task speaks only of what went wrong, or of a database that is not
/// fetched because there is one; and it does not describe the database.
pub proof fn quiet_tasks_keep_silent(m: Maintenance, event: Event)
    requires
        m.possible(),
        is_quiet(m.task),
    ensures
        m.next(event) matches Some((n, lines)) ==> {
            &&& lines.len() > 0 ==> event is DownloadFailed || event is OpenFailed || event is UpdateFailed
                || (m.task is Download && event == Event::Probed(true))
            &&& n.stage !is Describing
            &&& is_quiet(n.task)
        },
{
}

proof fn lemma_end_of(world: Surroundings, m: Maintenance)
    requires
        m.possible(),
        m.stage !is Finished,
    ensures
        m.next(world.reply(m)) matches Some((n, _)) && n.possible() && world.end_of(m)
            == world.end_of(n),
{
    tasks_end(m, world.reply(m));
}

/// Every task comes to its end, whatever its surroundings.
pub proof fn every_task_finishes(world: Surroundings, m: Maintenance)
    requires
        m.possible(),
    ensures
        world.end_of(m).stage is Finished,
    decreases m.steps_left(),
{
    if m.stage !is Finished {
        lemma_end_of(world, m);
        let step = m.next(world.reply(m))->0;
        tasks_end(m, world.reply(m));
        every_task_finishes(world, step.0);
    }
}

/// The exit status that a task ends with.
pub open spec fn task_status(task: Task, world: Surroundings) -> i32 {
    let success = match task {
        // The database ends up open. Failing to bring it up to date does not matter.
        Task::Ensure { update, .. } => {
            &&& !world.present ==> world.download_failure is None
            &&& world.present && update ==> world.update_open_failure is None
            &&& world.open_failure is None
        },
        Task::Update { .. } => if world.present {
            world.update_open_failure is None && world.update !is Failed
        } else {
            world.download_failure is None
        },
        Task::Download { .. } => world.present || world.download_failure is None,
        Task::Stats => world.open_failure is None,
    };
    if success {
        EXIT_SUCCESS
    } else {
        EXIT_ERROR
    }
}

/// How a task ends, in terms of its surroundings alone.
pub proof fn task_ends_as_told(task: Task, world: Surroundings)
    ensures
        world.end_of(Maintenance::begun(task)).stage == Stage::Finished(task_status(task, world)),
{
    reveal_with_fuel(Surroundings::end_of, 7);
}

} // verus!
