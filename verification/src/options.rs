//! What a user asks of an audit.

use vstd::prelude::*;

use crate::advisory::Criticality;
use crate::configuration::Configuration;
use crate::ids::IdSet;
use crate::scanner::ScanOptions;

verus! {

/// How a report is written.
#[derive(Clone, Copy, Debug, PartialEq, Eq, Structural)]
pub enum OutputFormat {
    /// As text for a reader.
    Text,
    /// As JSON.
    Json,
}

/// What a user asks of an audit.
#[derive(Debug)]
pub struct CheckOptions {
    /// The project directory to audit.
    pub dir: String,
    /// Whether to keep silent.
    pub quiet: bool,
    /// Whether to describe advisories at length.
    pub verbose: bool,
    /// Advisories to leave out. Where any is named, those of the project's settings
    /// do not count.
    pub ignore: Vec<String>,
    /// Whether to bring the advisory database up to date first.
    pub update: bool,
    /// Where the advisory database is, if not in the usual place.
    pub database: Option<String>,
    /// How the report is written.
    pub format: OutputFormat,
    /// The lockfile, seen from the project directory.
    pub gemfile_lock: String,
    /// The file with the project's settings, seen from the project directory.
    pub config: String,
    /// The file to which the report goes, if not to standard output.
    pub output: Option<String>,
    /// Where given, only advisories at least this severe are reported.
    pub severity: Option<Criticality>,
    /// The age in days beyond which the advisory database is out of date.
    pub max_db_age: Option<u64>,
    /// Whether a database that is out of date makes the audit fail.
    pub fail_on_stale: bool,
    /// Whether versions or advisories that cannot be read make the audit fail.
    pub strict: bool,
    /// Whether to lock fixed versions of affected gems.
    pub fix: bool,
    /// Whether to leave the lockfile as it is, and only show what would be locked.
    pub dry_run: bool,
    /// Whether to have everything that is found ignored from then on.
    pub write_ignore: bool,
}

impl Default for CheckOptions {
    fn default() -> (options: CheckOptions)
        ensures
            options.dir@ == "."@,
            !options.quiet,
            !options.verbose,
            options.ignore@.len() == 0,
            !options.update,
            options.database is None,
            options.format == OutputFormat::Text,
            options.gemfile_lock@ == "Gemfile.lock"@,
            options.config@ == Configuration::default_file_name(),
            options.output is None,
            options.severity is None,
            options.max_db_age is None,
            !options.fail_on_stale,
            !options.strict,
            !options.fix,
            !options.dry_run,
            !options.write_ignore,
    {
        CheckOptions {
            dir: ".".to_owned(),
            quiet: false,
            verbose: false,
            ignore: Vec::new(),
            update: false,
            database: None,
            format: OutputFormat::Text,
            gemfile_lock: "Gemfile.lock".to_owned(),
            config: Configuration::default_file(),
            output: None,
            severity: None,
            max_db_age: None,
            fail_on_stale: false,
            strict: false,
            fix: false,
            dry_run: false,
            write_ignore: false,
        }
    }
}

/// How a report is printed.
#[derive(Clone, Copy, Debug, PartialEq, Eq, Structural)]
pub enum PrintPlan {
    /// As text.
    Text {
        /// Whether to describe advisories at length.
        verbose: bool,
        /// Whether to keep silent.
        quiet: bool,
        /// Whether to use colours.
        color: bool,
        /// Whether fixes are asked for.
        fix: bool,
    },
    /// As JSON.
    Json {
        /// Whether to lay it out for a reader.
        pretty: bool,
        /// Whether fixes are asked for.
        fix: bool,
    },
}

impl CheckOptions {
    /// Which advisories are left out of the report.
    pub open spec fn ignored(self, config: Configuration) -> Set<Seq<char>> {
        if self.ignore@.len() > 0 {
            self.ignore.deep_view().to_set()
        } else {
            config.ignore@
        }
    }

    /// What is reported and what is left out, given the project's settings.
    pub fn scan_options(&self, config: &Configuration) -> (options: ScanOptions)
        ensures
            options.ignore@ == self.ignored(*config),
            options.severity == self.severity,
            options.strict == self.strict,
    {
        let ignore = if self.ignore.len() > 0 {
            IdSet::from_list(&self.ignore)
        } else {
            IdSet::from_list(config.ignore.items())
        };
        ScanOptions { ignore, severity: self.severity, strict: self.strict }
    }

    /// How the report is printed, where `tty` tells whether standard output is a
    /// terminal. Colours and layout are for terminals alone.
    pub open spec fn plan(self, tty: bool) -> PrintPlan {
        let on_terminal = tty && self.output is None;
        match self.format {
            OutputFormat::Text => PrintPlan::Text {
                verbose: self.verbose,
                quiet: self.quiet,
                color: on_terminal,
                fix: self.fix,
            },
            OutputFormat::Json => PrintPlan::Json { pretty: on_terminal, fix: self.fix },
        }
    }

    /// Computes `plan`.
    pub fn print_plan(&self, tty: bool) -> (plan: PrintPlan)
        ensures
            plan == self.plan(tty),
    {
        let on_terminal = tty && self.output.is_none();
        match self.format {
            OutputFormat::Text => PrintPlan::Text {
                verbose: self.verbose,
                quiet: self.quiet,
                color: on_terminal,
                fix: self.fix,
            },
            OutputFormat::Json => PrintPlan::Json { pretty: on_terminal, fix: self.fix },
        }
    }
}

} // verus!
