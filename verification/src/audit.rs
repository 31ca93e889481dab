//! The audit command, from finding the project to the exit status.
//!
//! The command is carried out step by step: `action` says what is to be done next,
//! the front end does it, and `step` takes what came of it and goes on.

use vstd::prelude::*;

use crate::advisory::Database;
use crate::configuration::Configuration;
use crate::exit::{EXIT_ERROR, EXIT_STALE, EXIT_SUCCESS, EXIT_VULNERABLE};
use crate::lockfile::{distinct_specs, Lockfile, SpecModel};
use crate::maintenance::{lines_of, no_lines, say, say_nothing, Maintenance};
use crate::options::{CheckOptions, PrintPlan};
use crate::report::{finding_rank, Report};
use crate::scanner::{
    exposed_remotes, gem_findings, gem_load_errors, ruby_findings, unreadable, unreadable_versions,
    version_warning, LockfileRead, Policy, ScanError, Scanner,
};
use crate::severity::by_severity;
use crate::text::{decimal, decimal_text, join2};

verus! {

/// What a report comes down to.
#[derive(Clone, Copy, Debug, PartialEq, Eq, Structural)]
pub struct Findings {
    /// Whether advisories affect locked gems.
    pub unpatched: bool,
    /// Whether anything was found.
    pub vulnerable: bool,
    /// Whether anything could not be read on the way.
    pub incomplete: bool,
}

impl Findings {
    /// What `report` comes down to.
    pub fn of(report: &Report) -> (found: Findings)
        ensures
            sums_up(found, *report),
            found.unpatched ==> found.vulnerable,
    {
        Findings {
            unpatched: report.unpatched_gems.len() > 0,
            vulnerable: report.vulnerable(),
            incomplete: report.incomplete(),
        }
    }
}

impl CheckOptions {
    /// Which advisories are reported, given the project's settings.
    pub open spec fn policy(self, config: Configuration) -> Policy {
        Policy { ignore: self.ignored(config), severity: self.severity }
    }
}

/// How many advisories cannot be loaded in an audit of `lockfile`.
pub open spec fn load_errors(lockfile: Lockfile, database: Database, policy: Policy) -> nat {
    gem_load_errors(
        distinct_specs(lockfile.specs.deep_view()),
        database.gems.deep_view(),
    ) + ruby_findings(
        lockfile.ruby_version.deep_view(),
        database.rubies.deep_view(),
        policy,
    ).1
}

/// Whether `report` is what an audit of `lockfile` against `database` finds under
/// `policy`.
pub open spec fn is_report_on(
    report: Report,
    lockfile: Lockfile,
    database: Database,
    policy: Policy,
) -> bool {
    let specs = distinct_specs(lockfile.specs.deep_view());
    &&& report.insecure_sources.deep_view() == exposed_remotes(lockfile.sources.deep_view())
    &&& report.unpatched_gems.deep_view() == by_severity(
        gem_findings(specs, database.gems.deep_view(), policy),
        finding_rank(),
    )
    &&& report.vulnerable_rubies.deep_view() == ruby_findings(
        lockfile.ruby_version.deep_view(),
        database.rubies.deep_view(),
        policy,
    ).0
    &&& report.version_parse_errors == unreadable_versions(specs)
    &&& report.advisory_load_errors == load_errors(lockfile, database, policy)
}

/// What a user is told of the versions in `lockfile` that cannot be read: nothing,
/// unless the audit is strict.
pub open spec fn warnings_on(lockfile: Lockfile, strict: bool) -> Seq<Seq<char>> {
    if strict {
        distinct_specs(lockfile.specs.deep_view()).filter(unreadable()).map_values(
            |s: SpecModel| version_warning(s),
        )
    } else {
        Seq::empty()
    }
}

/// Whether `found` is what `report` comes down to.
pub open spec fn sums_up(found: Findings, report: Report) -> bool {
    &&& found.unpatched == (report.unpatched_gems@.len() > 0)
    &&& found.vulnerable == (report.total() > 0)
    &&& found.incomplete == (report.version_parse_errors > 0 || report.advisory_load_errors > 0)
}

/// Audits the lockfile at `path`, given what came of reading it, the way the user
/// and the project's settings ask for: the report, what the user is told of versions
/// that cannot be read, and what the report comes down to.
pub fn audit_lockfile(
    opts: &CheckOptions,
    config: &Configuration,
    path: String,
    read: LockfileRead,
    database: Database,
) -> (r: Result<(Report, Vec<String>, Findings), ScanError>)
    requires
        read matches LockfileRead::Parsed(lockfile) ==> load_errors(
            lockfile,
            database,
            opts.policy(*config),
        ) <= usize::MAX,
    ensures
        match read {
            LockfileRead::Unreadable => r == Err::<(Report, Vec<String>, Findings), ScanError>(
                ScanError::LockfileNotFound(path),
            ),
            LockfileRead::Malformed(reason) => r == Err::<
                (Report, Vec<String>, Findings),
                ScanError,
            >(ScanError::LockfileParse(reason)),
            LockfileRead::Parsed(lockfile) => r matches Ok((report, warnings, found)) && {
                &&& is_report_on(report, lockfile, database, opts.policy(*config))
                &&& warnings.deep_view() == warnings_on(lockfile, opts.strict)
                &&& sums_up(found, report)
            },
        },
{
    let scanner = match Scanner::new(path, read, database) {
        Ok(scanner) => scanner,
        Err(error) => {
            return Err(error);
        },
    };
    let options = opts.scan_options(config);
    let warnings = scanner.version_warnings(&options);
    let report = scanner.scan(&options);
    let found = Findings::of(&report);
    Ok((report, warnings, found))
}

/// How far the command has come: what it waits for.
#[derive(Clone, Copy, Debug, PartialEq, Eq, Structural)]
pub enum CheckStage {
    /// Whether there is such a project directory.
    Locating,
    /// The project's settings being loaded.
    Configuring,
    /// The advisory database being made ready.
    Preparing(Maintenance),
    /// The age of the advisory database.
    Dating,
    /// The lockfile being read and audited.
    Scanning {
        /// Whether the advisory database is too old.
        stale: bool,
    },
    /// The place to which the report goes being opened.
    OpeningOutput {
        /// Whether the advisory database is too old.
        stale: bool,
        /// What was found.
        found: Findings,
    },
    /// Fixed versions of the affected gems being looked up.
    Resolving {
        /// Whether the advisory database is too old.
        stale: bool,
        /// What was found.
        found: Findings,
        /// Whether standard output is a terminal.
        tty: bool,
    },
    /// The report being printed.
    Printing {
        /// Whether the advisory database is too old.
        stale: bool,
        /// What was found.
        found: Findings,
        /// Whether standard output is a terminal.
        tty: bool,
        /// Whether fixed versions were looked up.
        fixes: bool,
    },
    /// The fixed versions being locked.
    Applying {
        /// Whether the advisory database is too old.
        stale: bool,
        /// What was found.
        found: Findings,
    },
    /// The project's settings being written, with the findings ignored.
    Ignoring,
    /// Nothing: the command has ended, with this exit status.
    Finished(i32),
}

/// What the front end does for the command.
#[derive(Clone, Copy, Debug, PartialEq, Eq, Structural)]
pub enum CheckAction {
    /// Look whether there is such a project directory.
    Locate,
    /// Load the project's settings.
    LoadConfig,
    /// Look after the advisory database.
    Maintain(crate::maintenance::Action),
    /// See how old the advisory database is.
    Date,
    /// Read the lockfile and audit it.
    Scan,
    /// Open the place to which the report goes.
    OpenOutput,
    /// Look up fixed versions of the affected gems.
    ResolveFixes,
    /// Print the report.
    Print(PrintPlan),
    /// Lock the fixed versions.
    ApplyFixes,
    /// Write the project's settings, with the findings ignored.
    SaveIgnore,
    /// Nothing more: the exit status.
    Exit(i32),
}

/// What came of an action.
#[derive(Debug)]
pub enum CheckEvent {
    /// Whether there is such a project directory.
    Located(bool),
    /// The project's settings were loaded.
    Configured,
    /// The project's settings could not be loaded, for this reason.
    ConfigFailed(String),
    /// What came of looking after the advisory database.
    Maintained(crate::maintenance::Event),
    /// What is told of the advisory database where it is too old.
    Dated(Option<String>),
    /// The lockfile was audited.
    Scanned(Findings),
    /// The lockfile could not be audited, for this reason.
    ScanFailed(String),
    /// The place to which the report goes is open; whether standard output is a
    /// terminal.
    OutputOpened(bool),
    /// The file to which the report goes could not be opened, for this reason.
    OutputFailed(String),
    /// Fixed versions were looked up.
    Resolved,
    /// The report was printed.
    Printed,
    /// The reader of the report went away.
    ReaderGone,
    /// The report could not be printed, for this reason.
    PrintFailed(String),
    /// Locking the fixed versions is over.
    Applied,
    /// The project's settings were written: how many advisories are ignored that
    /// were not, and the file.
    IgnoreSaved(usize, String),
    /// The project's settings could not be written, for this reason.
    IgnoreFailed(String),
}

/// The exit status of an audit that was carried out, and whose findings stand.
pub open spec fn verdict(opts: CheckOptions, stale: bool, found: Findings) -> i32 {
    if found.vulnerable {
        EXIT_VULNERABLE
    } else if opts.strict && found.incomplete {
        EXIT_ERROR
    } else if stale && opts.fail_on_stale {
        EXIT_STALE
    } else {
        EXIT_SUCCESS
    }
}

/// What is left to do when the report is out and the lockfile is done with.
pub open spec fn settled(opts: CheckOptions, stale: bool, found: Findings) -> CheckStage {
    if opts.write_ignore && found.vulnerable {
        CheckStage::Ignoring
    } else {
        CheckStage::Finished(verdict(opts, stale, found))
    }
}

/// What is left to do when the report is out.
pub open spec fn printed(
    opts: CheckOptions,
    stale: bool,
    found: Findings,
    fixes: bool,
) -> CheckStage {
    if fixes && opts.fix && !opts.dry_run {
        CheckStage::Applying { stale, found }
    } else {
        settled(opts, stale, found)
    }
}

/// Ended with an error, of which the user is told.
pub open spec fn failed(line: Seq<char>) -> Option<(CheckStage, Seq<Seq<char>>)> {
    Some((CheckStage::Finished(EXIT_ERROR), say(line)))
}

impl CheckStage {
    /// Where the command goes from here when `event` comes, and what the user is
    /// told. Nowhere, where it does not wait for such an event.
    pub open spec fn next(self, opts: CheckOptions, event: CheckEvent) -> Option<
        (CheckStage, Seq<Seq<char>>),
    > {
        match (self, event) {
            (CheckStage::Locating, CheckEvent::Located(true)) => Some(
                (CheckStage::Configuring, say_nothing()),
            ),
            (CheckStage::Locating, CheckEvent::Located(false)) => failed(
                "No such file or directory: "@ + opts.dir@,
            ),
            (CheckStage::Configuring, CheckEvent::Configured) => Some(
                (
                    CheckStage::Preparing(
                        Maintenance::begun(
                            crate::maintenance::Task::Ensure {
                                update: opts.update,
                                quiet: opts.quiet,
                            },
                        ),
                    ),
                    say_nothing(),
                ),
            ),
            (CheckStage::Configuring, CheckEvent::ConfigFailed(reason)) => failed(reason@),
            (CheckStage::Preparing(m), CheckEvent::Maintained(e)) => match m.next(e) {
                None => None,
                Some((n, lines)) => match n.stage {
                    crate::maintenance::Stage::Finished(code) => if code == EXIT_SUCCESS {
                        Some((CheckStage::Dating, lines))
                    } else {
                        Some((CheckStage::Finished(code), lines))
                    },
                    _ => Some((CheckStage::Preparing(n), lines)),
                },
            },
            (CheckStage::Dating, CheckEvent::Dated(Some(warning))) => Some(
                (CheckStage::Scanning { stale: true }, say(warning@)),
            ),
            (CheckStage::Dating, CheckEvent::Dated(None)) => Some(
                (CheckStage::Scanning { stale: false }, say_nothing()),
            ),
            (CheckStage::Scanning { stale }, CheckEvent::Scanned(found)) => Some(
                (CheckStage::OpeningOutput { stale, found }, say_nothing()),
            ),
            (CheckStage::Scanning { .. }, CheckEvent::ScanFailed(reason)) => failed(reason@),
            (
                CheckStage::OpeningOutput { stale, found },
                CheckEvent::OutputOpened(tty),
            ) => if opts.fix && found.unpatched {
                Some((CheckStage::Resolving { stale, found, tty }, say_nothing()))
            } else {
                Some((CheckStage::Printing { stale, found, tty, fixes: false }, say_nothing()))
            },
            (
                CheckStage::OpeningOutput { .. },
                CheckEvent::OutputFailed(reason),
            ) => match opts.output {
                Some(path) => failed("Failed to open output file "@ + path@ + ": "@ + reason@),
                None => None,
            },
            (CheckStage::Resolving { stale, found, tty }, CheckEvent::Resolved) => Some(
                (CheckStage::Printing { stale, found, tty, fixes: true }, say_nothing()),
            ),
            (CheckStage::Printing { stale, found, fixes, .. }, CheckEvent::Printed) => Some(
                (printed(opts, stale, found, fixes), say_nothing()),
            ),
            (CheckStage::Printing { stale, found, fixes, .. }, CheckEvent::ReaderGone) => Some(
                (printed(opts, stale, found, fixes), say_nothing()),
            ),
            (CheckStage::Printing { .. }, CheckEvent::PrintFailed(reason)) => failed(
                "error: write failed: "@ + reason@,
            ),
            (CheckStage::Applying { stale, found }, CheckEvent::Applied) => Some(
                (settled(opts, stale, found), say_nothing()),
            ),
            (CheckStage::Ignoring, CheckEvent::IgnoreSaved(added, path)) => Some(
                (
                    CheckStage::Finished(EXIT_SUCCESS),
                    say("Added "@ + decimal_text(added as nat) + " advisory ID(s) to "@ + path@),
                ),
            ),
            (CheckStage::Ignoring, CheckEvent::IgnoreFailed(reason)) => failed(
                "Failed to write config: "@ + reason@,
            ),
            _ => None,
        }
    }

    /// What the command waits for.
    pub open spec fn pending(self, opts: CheckOptions) -> CheckAction {
        match self {
            CheckStage::Locating => CheckAction::Locate,
            CheckStage::Configuring => CheckAction::LoadConfig,
            CheckStage::Preparing(m) => CheckAction::Maintain(m.pending()),
            CheckStage::Dating => CheckAction::Date,
            CheckStage::Scanning { .. } => CheckAction::Scan,
            CheckStage::OpeningOutput { .. } => CheckAction::OpenOutput,
            CheckStage::Resolving { .. } => CheckAction::ResolveFixes,
            CheckStage::Printing { tty, .. } => CheckAction::Print(opts.plan(tty)),
            CheckStage::Applying { .. } => CheckAction::ApplyFixes,
            CheckStage::Ignoring => CheckAction::SaveIgnore,
            CheckStage::Finished(code) => CheckAction::Exit(code),
        }
    }

    /// Begins the command.
    pub fn begin() -> (stage: CheckStage)
        ensures
            stage == CheckStage::Locating,
    {
        CheckStage::Locating
    }

    /// What is to be done next.
    pub fn action(self, opts: &CheckOptions) -> (action: CheckAction)
        ensures
            action == self.pending(*opts),
    {
        match self {
            CheckStage::Locating => CheckAction::Locate,
            CheckStage::Configuring => CheckAction::LoadConfig,
            CheckStage::Preparing(m) => CheckAction::Maintain(m.action()),
            CheckStage::Dating => CheckAction::Date,
            CheckStage::Scanning { .. } => CheckAction::Scan,
            CheckStage::OpeningOutput { .. } => CheckAction::OpenOutput,
            CheckStage::Resolving { .. } => CheckAction::ResolveFixes,
            CheckStage::Printing { tty, .. } => CheckAction::Print(opts.print_plan(tty)),
            CheckStage::Applying { .. } => CheckAction::ApplyFixes,
            CheckStage::Ignoring => CheckAction::SaveIgnore,
            CheckStage::Finished(code) => CheckAction::Exit(code),
        }
    }

    /// Goes on with the command when `event` comes: where it goes, and what the
    /// user is told. `None` where it does not wait for such an event.
    pub fn step(self, opts: &CheckOptions, event: &CheckEvent) -> (step: Option<
        (CheckStage, Vec<String>),
    >)
        ensures
            step is Some <==> self.next(*opts, *event) is Some,
            step matches Some((stage, lines)) ==> self.next(*opts, *event) == Some(
                (stage, lines.deep_view()),
            ),
    {
        match (self, event) {
            (CheckStage::Locating, CheckEvent::Located(there)) => if *there {
                Some((CheckStage::Configuring, no_lines()))
            } else {
                fail(join2("No such file or directory: ", opts.dir.as_str()))
            },
            (CheckStage::Configuring, CheckEvent::Configured) => {
                let task = crate::maintenance::Task::Ensure {
                    update: opts.update,
                    quiet: opts.quiet,
                };
                Some((CheckStage::Preparing(Maintenance::begin(task)), no_lines()))
            },
            (CheckStage::Configuring, CheckEvent::ConfigFailed(reason)) => fail(reason.clone()),
            (CheckStage::Preparing(m), CheckEvent::Maintained(e)) => match m.step(e) {
                None => None,
                Some((n, lines)) => match n.stage {
                    crate::maintenance::Stage::Finished(code) => if code == EXIT_SUCCESS {
                        Some((CheckStage::Dating, lines))
                    } else {
                        Some((CheckStage::Finished(code), lines))
                    },
                    _ => Some((CheckStage::Preparing(n), lines)),
                },
            },
            (CheckStage::Dating, CheckEvent::Dated(warning)) => match warning {
                Some(line) => Some((CheckStage::Scanning { stale: true }, lines_of(line.clone()))),
                None => Some((CheckStage::Scanning { stale: false }, no_lines())),
            },
            (CheckStage::Scanning { stale }, CheckEvent::Scanned(found)) => Some(
                (CheckStage::OpeningOutput { stale, found: *found }, no_lines()),
            ),
            (CheckStage::Scanning { .. }, CheckEvent::ScanFailed(reason)) => fail(reason.clone()),
            (
                CheckStage::OpeningOutput { stale, found },
                CheckEvent::OutputOpened(tty),
            ) => if opts.fix && found.unpatched {
                Some((CheckStage::Resolving { stale, found, tty: *tty }, no_lines()))
            } else {
                Some((CheckStage::Printing { stale, found, tty: *tty, fixes: false }, no_lines()))
            },
            (
                CheckStage::OpeningOutput { .. },
                CheckEvent::OutputFailed(reason),
            ) => match &opts.output {
                Some(path) => {
                    let mut line = join2("Failed to open output file ", path.as_str());
                    line.append(": ");
                    line.append(reason.as_str());
                    fail(line)
                },
                None => None,
            },
            (CheckStage::Resolving { stale, found, tty }, CheckEvent::Resolved) => Some(
                (CheckStage::Printing { stale, found, tty, fixes: true }, no_lines()),
            ),
            (CheckStage::Printing { stale, found, fixes, .. }, CheckEvent::Printed) => Some(
                (after_print(opts, stale, found, fixes), no_lines()),
            ),
            (CheckStage::Printing { stale, found, fixes, .. }, CheckEvent::ReaderGone) => Some(
                (after_print(opts, stale, found, fixes), no_lines()),
            ),
            (CheckStage::Printing { .. }, CheckEvent::PrintFailed(reason)) => fail(
                join2("error: write failed: ", reason.as_str()),
            ),
            (CheckStage::Applying { stale, found }, CheckEvent::Applied) => Some(
                (settle(opts, stale, found), no_lines()),
            ),
            (CheckStage::Ignoring, CheckEvent::IgnoreSaved(added, path)) => {
                let mut line = join2("Added ", decimal(*added as u64).as_str());
                line.append(" advisory ID(s) to ");
                line.append(path.as_str());
                Some((CheckStage::Finished(EXIT_SUCCESS), lines_of(line)))
            },
            (CheckStage::Ignoring, CheckEvent::IgnoreFailed(reason)) => fail(
                join2("Failed to write config: ", reason.as_str()),
            ),
            _ => None,
        }
    }
}

fn fail(line: String) -> (step: Option<(CheckStage, Vec<String>)>)
    ensures
        step matches Some((stage, lines)) && failed(line@) == Some((stage, lines.deep_view())),
{
    Some((CheckStage::Finished(EXIT_ERROR), lines_of(line)))
}

/// The exit status of an audit that was carried out, and whose findings stand:
/// findings count before anything that could not be read, and that before an old
/// database.
pub fn exit_status(opts: &CheckOptions, stale: bool, found: Findings) -> (code: i32)
    ensures
        code == verdict(*opts, stale, found),
{
    if found.vulnerable {
        EXIT_VULNERABLE
    } else if opts.strict && found.incomplete {
        EXIT_ERROR
    } else if stale && opts.fail_on_stale {
        EXIT_STALE
    } else {
        EXIT_SUCCESS
    }
}

fn settle(opts: &CheckOptions, stale: bool, found: Findings) -> (stage: CheckStage)
    ensures
        stage == settled(*opts, stale, found),
{
    if opts.write_ignore && found.vulnerable {
        CheckStage::Ignoring
    } else {
        CheckStage::Finished(exit_status(opts, stale, found))
    }
}

fn after_print(opts: &CheckOptions, stale: bool, found: Findings, fixes: bool) -> (stage:
    CheckStage)
    ensures
        stage == printed(*opts, stale, found, fixes),
{
    if fixes && opts.fix && !opts.dry_run {
        CheckStage::Applying { stale, found }
    } else {
        settle(opts, stale, found)
    }
}

/// What every action would come to, wherever the command gets to it.
pub struct AuditSurroundings {
    /// Whether there is such a project directory.
    pub directory: bool,
    /// Why the project's settings cannot be loaded, if they cannot.
    pub config_failure: Option<String>,
    /// What is done with the advisory database.
    pub database: crate::maintenance::Surroundings,
    /// What is told of the advisory database where it is too old.
    pub age_warning: Option<String>,
    /// What the audit finds, or why it cannot be made.
    pub scan: Result<Findings, String>,
    /// Whether standard output is a terminal.
    pub tty: bool,
    /// Why the file to which the report goes cannot be opened, if it cannot.
    pub output_failure: Option<String>,
    /// Whether the reader of the report goes away.
    pub reader_gone: bool,
    /// Why the report cannot be printed, if it cannot.
    pub print_failure: Option<String>,
    /// How many advisories are newly ignored, and in which file, or why the file
    /// cannot be written.
    pub save: Result<(usize, String), String>,
}

impl AuditSurroundings {
    /// What comes of what the command waits for.
    pub open spec fn reply(self, opts: CheckOptions, stage: CheckStage) -> CheckEvent {
        match stage {
            CheckStage::Locating => CheckEvent::Located(self.directory),
            CheckStage::Configuring => match self.config_failure {
                None => CheckEvent::Configured,
                Some(reason) => CheckEvent::ConfigFailed(reason),
            },
            CheckStage::Preparing(m) => CheckEvent::Maintained(self.database.reply(m)),
            CheckStage::Dating => CheckEvent::Dated(self.age_warning),
            CheckStage::Scanning { .. } => match self.scan {
                Ok(found) => CheckEvent::Scanned(found),
                Err(reason) => CheckEvent::ScanFailed(reason),
            },
            CheckStage::OpeningOutput { .. } => match (opts.output, self.output_failure) {
                (Some(_), Some(reason)) => CheckEvent::OutputFailed(reason),
                _ => CheckEvent::OutputOpened(self.tty),
            },
            CheckStage::Resolving { .. } => CheckEvent::Resolved,
            CheckStage::Printing { .. } => match self.print_failure {
                Some(reason) => CheckEvent::PrintFailed(reason),
                None => if self.reader_gone {
                    CheckEvent::ReaderGone
                } else {
                    CheckEvent::Printed
                },
            },
            CheckStage::Applying { .. } => CheckEvent::Applied,
            _ => match self.save {
                Ok((added, path)) => CheckEvent::IgnoreSaved(added, path),
                Err(reason) => CheckEvent::IgnoreFailed(reason),
            },
        }
    }

    /// Where the command ends here.
    pub open spec fn end_of(self, opts: CheckOptions, stage: CheckStage) -> CheckStage
        decreases stage.steps_left(),
    {
        match stage.next(opts, self.reply(opts, stage)) {
            Some((n, _)) if n.steps_left() < stage.steps_left() => self.end_of(opts, n),
            _ => stage,
        }
    }
}

impl CheckStage {
    /// A bound on the number of steps to the end.
    pub open spec fn steps_left(self) -> nat {
        match self {
            CheckStage::Locating => 16,
            CheckStage::Configuring => 15,
            CheckStage::Preparing(m) => 8 + m.steps_left(),
            CheckStage::Dating => 7,
            CheckStage::Scanning { .. } => 6,
            CheckStage::OpeningOutput { .. } => 5,
            CheckStage::Resolving { .. } => 4,
            CheckStage::Printing { .. } => 3,
            CheckStage::Applying { .. } => 2,
            CheckStage::Ignoring => 1,
            CheckStage::Finished(_) => 0,
        }
    }

    /// Whether the command can come to wait for this, under the options `opts`.
    pub open spec fn possible(self, opts: CheckOptions) -> bool {
        match self {
            CheckStage::Preparing(m) => {
                &&& m.possible()
                &&& m.stage !is Finished
                &&& m.task == (crate::maintenance::Task::Ensure {
                    update: opts.update,
                    quiet: opts.quiet,
                })
            },
            CheckStage::Resolving { found, .. } => opts.fix && found.unpatched,
            CheckStage::Printing { found, fixes, .. } => fixes == (opts.fix && found.unpatched),
            CheckStage::Applying { found, .. } => opts.fix && !opts.dry_run && found.unpatched,
            CheckStage::Ignoring => opts.write_ignore,
            CheckStage::Finished(code) => EXIT_SUCCESS <= code <= EXIT_STALE,
            _ => true,
        }
    }
}

/// What holds at every point of the command: it comes nearer to its end with every
/// step, the lockfile is changed only where fixes are asked for, found, and not
/// merely tried out, and the settings only where that is asked for. The exit
/// status is one of the four.
pub proof fn audits_stay_within_bounds(stage: CheckStage, opts: CheckOptions, event: CheckEvent)
    requires
        stage.possible(opts),
    ensures
        stage.next(opts, event) matches Some((n, _)) ==> n.possible(opts) && n.steps_left()
            < stage.steps_left(),
        stage is Finished ==> stage.next(opts, event) is None,
        CheckStage::Locating.possible(opts),
{
    match (stage, event) {
        (CheckStage::Preparing(m), CheckEvent::Maintained(e)) => {
            crate::maintenance::tasks_end(m, e);
            crate::maintenance::errors_are_told(m, e);
        },
        _ => {},
    }
}

/// Whether the audit is made and its report gets out, or goes nowhere only because
/// its reader went away.
pub open spec fn carried_out(opts: CheckOptions, world: AuditSurroundings) -> bool {
    let task = crate::maintenance::Task::Ensure { update: opts.update, quiet: opts.quiet };
    &&& world.directory
    &&& world.config_failure is None
    &&& crate::maintenance::task_status(task, world.database) == EXIT_SUCCESS
    &&& world.scan is Ok
    &&& opts.output is Some ==> world.output_failure is None
    &&& world.print_failure is None
}

/// The exit status that the command ends with.
pub open spec fn audit_status(opts: CheckOptions, world: AuditSurroundings) -> i32 {
    if !carried_out(opts, world) {
        EXIT_ERROR
    } else if opts.write_ignore && world.scan->Ok_0.vulnerable {
        if world.save is Ok {
            EXIT_SUCCESS
        } else {
            EXIT_ERROR
        }
    } else {
        verdict(opts, world.age_warning is Some, world.scan->Ok_0)
    }
}

/// The command goes on by one step, unless it has ended.
proof fn lemma_end_of(opts: CheckOptions, world: AuditSurroundings, stage: CheckStage)
    requires
        stage.possible(opts),
    ensures
        stage is Finished ==> world.end_of(opts, stage) == stage,
        stage !is Finished ==> {
            &&& stage.next(opts, world.reply(opts, stage)) matches Some((n, _))
            &&& n.possible(opts)
            &&& world.end_of(opts, stage) == world.end_of(opts, n)
        },
{
    audits_stay_within_bounds(stage, opts, world.reply(opts, stage));
    if let CheckStage::Preparing(m) = stage {
        crate::maintenance::tasks_end(m, world.database.reply(m));
    }
}

/// Making the database ready ends in the audit going on, or in an error.
proof fn lemma_preparing(opts: CheckOptions, world: AuditSurroundings, m: Maintenance)
    requires
        CheckStage::Preparing(m).possible(opts),
    ensures
        world.database.end_of(m).stage == crate::maintenance::Stage::Finished(EXIT_SUCCESS)
            ==> world.end_of(opts, CheckStage::Preparing(m)) == world.end_of(
            opts,
            CheckStage::Dating,
        ),
        world.database.end_of(m).stage == crate::maintenance::Stage::Finished(EXIT_ERROR)
            ==> world.end_of(opts, CheckStage::Preparing(m)) == CheckStage::Finished(EXIT_ERROR),
    decreases m.steps_left(),
{
    let e = world.database.reply(m);
    crate::maintenance::tasks_end(m, e);
    crate::maintenance::errors_are_told(m, e);
    lemma_end_of(opts, world, CheckStage::Preparing(m));
    let n = (m.next(e)->0).0;
    assert(world.database.end_of(m) == world.database.end_of(n));
    if n.stage is Finished {
        assert(world.database.end_of(n) == n);
        lemma_end_of(opts, world, CheckStage::Finished(EXIT_ERROR));
    } else {
        lemma_preparing(opts, world, n);
    }
}

/// How the command goes on when the report is printed.
proof fn lemma_printing(opts: CheckOptions, world: AuditSurroundings, stage: CheckStage)
    requires
        stage is Printing,
        stage.possible(opts),
    ensures
        world.end_of(opts, stage) == CheckStage::Finished(
            if world.print_failure is Some {
                EXIT_ERROR
            } else if opts.write_ignore && stage->Printing_found.vulnerable {
                if world.save is Ok {
                    EXIT_SUCCESS
                } else {
                    EXIT_ERROR
                }
            } else {
                verdict(opts, stage->Printing_stale, stage->Printing_found)
            },
        ),
{
    let stale = stage->Printing_stale;
    let found = stage->Printing_found;
    lemma_end_of(opts, world, stage);
    lemma_end_of(opts, world, CheckStage::Finished(EXIT_ERROR));
    lemma_end_of(opts, world, CheckStage::Finished(EXIT_SUCCESS));
    lemma_end_of(opts, world, CheckStage::Finished(verdict(opts, stale, found)));
    if opts.fix && !opts.dry_run && found.unpatched {
        lemma_end_of(opts, world, CheckStage::Applying { stale, found });
    }
    if opts.write_ignore {
        lemma_end_of(opts, world, CheckStage::Ignoring);
    }
}

/// How the command goes on when the lockfile is audited.
proof fn lemma_scanning(opts: CheckOptions, world: AuditSurroundings, stale: bool)
    ensures
        world.end_of(opts, CheckStage::Scanning { stale }) == CheckStage::Finished(
            if world.scan is Err || (opts.output is Some && world.output_failure is Some)
                || world.print_failure is Some {
                EXIT_ERROR
            } else if opts.write_ignore && world.scan->Ok_0.vulnerable {
                if world.save is Ok {
                    EXIT_SUCCESS
                } else {
                    EXIT_ERROR
                }
            } else {
                verdict(opts, stale, world.scan->Ok_0)
            },
        ),
{
    lemma_end_of(opts, world, CheckStage::Scanning { stale });
    lemma_end_of(opts, world, CheckStage::Finished(EXIT_ERROR));
    if let Ok(found) = world.scan {
        let tty = world.tty;
        let fixes = opts.fix && found.unpatched;
        lemma_end_of(opts, world, CheckStage::OpeningOutput { stale, found });
        if fixes {
            lemma_end_of(opts, world, CheckStage::Resolving { stale, found, tty });
        }
        lemma_printing(opts, world, CheckStage::Printing { stale, found, tty, fixes });
    }
}

/// How the command ends, in terms of its surroundings alone.
pub proof fn audit_ends_as_told(opts: CheckOptions, world: AuditSurroundings)
    ensures
        world.end_of(opts, CheckStage::Locating) == CheckStage::Finished(audit_status(opts, world)),
{
    let task = crate::maintenance::Task::Ensure { update: opts.update, quiet: opts.quiet };
    crate::maintenance::task_ends_as_told(task, world.database);
    lemma_end_of(opts, world, CheckStage::Finished(EXIT_ERROR));
    lemma_end_of(opts, world, CheckStage::Locating);
    lemma_end_of(opts, world, CheckStage::Configuring);
    lemma_preparing(opts, world, Maintenance::begun(task));
    lemma_end_of(opts, world, CheckStage::Dating);
    lemma_scanning(opts, world, world.age_warning is Some);
}

/// What each exit status means, where findings are not to be ignored: findings
/// come before all else, and an old database comes last.
pub proof fn exit_statuses_mean(opts: CheckOptions, world: AuditSurroundings)
    requires
        !opts.write_ignore,
    ensures
        audit_status(opts, world) == EXIT_VULNERABLE <==> carried_out(opts, world)
            && world.scan->Ok_0.vulnerable,
        audit_status(opts, world) == EXIT_ERROR <==> !carried_out(opts, world) || (
        !world.scan->Ok_0.vulnerable && opts.strict && world.scan->Ok_0.incomplete),
        audit_status(opts, world) == EXIT_STALE <==> carried_out(opts, world)
            && !world.scan->Ok_0.vulnerable && !(opts.strict && world.scan->Ok_0.incomplete)
            && opts.fail_on_stale && world.age_warning is Some,
{
}

} // verus!
