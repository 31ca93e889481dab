use gem_audit::advisory::Criticality;
use gem_audit::audit::{exit_status, CheckAction, CheckEvent, CheckStage, Findings};
use gem_audit::configuration::Configuration;
use gem_audit::fixes::{select_fixes, ApplyAction, ApplyEvent, ApplyStage, FixResult};
use gem_audit::ids::IdSet;
use gem_audit::maintenance::{stats_lines, Action, Event, Maintenance, Stage, Task};
use gem_audit::options::{CheckOptions, OutputFormat, PrintPlan};
use gem_audit::report::{InsecureSource, Report};

fn run_task(task: Task, events: Vec<Event>) -> (Maintenance, Vec<String>) {
    let mut m = Maintenance::begin(task);
    let mut said = Vec::new();
    for event in events {
        let (next, lines) = m.step(&event).expect("event not expected");
        said.extend(lines);
        m = next;
    }
    (m, said)
}

fn reason(text: &str) -> String {
    text.to_string()
}

#[test]
fn ensure_downloads_a_missing_database() {
    let task = Task::Ensure { update: true, quiet: false };
    let (m, said) = run_task(task, vec![Event::Probed(false), Event::Downloaded, Event::Opened]);
    assert_eq!(m.action(), Action::Exit(0));
    assert_eq!(
        said,
        vec!["Downloading ruby-advisory-db ...", "Downloaded ruby-advisory-db"]
    );
}

#[test]
fn ensure_fails_where_the_database_cannot_be_had() {
    let task = Task::Ensure { update: false, quiet: true };
    let (m, said) = run_task(
        task,
        vec![Event::Probed(false), Event::DownloadFailed(reason("offline"))],
    );
    assert_eq!(m.action(), Action::Exit(2));
    assert_eq!(said, vec!["Failed to download advisory database: offline"]);

    let (m, said) = run_task(
        task,
        vec![Event::Probed(true), Event::OpenFailed(reason("locked"))],
    );
    assert_eq!(m.action(), Action::Exit(2));
    assert_eq!(said, vec!["Failed to open advisory database: locked"]);
}

#[test]
fn ensure_goes_on_where_updating_fails() {
    let task = Task::Ensure { update: true, quiet: true };
    let (m, said) = run_task(
        task,
        vec![
            Event::Probed(true),
            Event::Opened,
            Event::UpdateFailed(reason("offline")),
            Event::Opened,
        ],
    );
    assert_eq!(m.action(), Action::Exit(0));
    assert_eq!(
        said,
        vec!["warning: Failed to update advisory database: offline"]
    );

    let task = Task::Ensure { update: true, quiet: false };
    let (m, said) = run_task(
        task,
        vec![
            Event::Probed(true),
            Event::Opened,
            Event::NotARepository,
            Event::Opened,
        ],
    );
    assert_eq!(m.action(), Action::Exit(0));
    assert_eq!(
        said,
        vec![
            "Updating ruby-advisory-db ...",
            "Skipping update, ruby-advisory-db is not a git repository"
        ]
    );
    let (m, _) = run_task(task, vec![Event::Probed(true), Event::OpenFailed(reason("x"))]);
    assert_eq!(m.stage, Stage::Finished(2));
}

#[test]
fn ensure_without_update_only_opens() {
    let task = Task::Ensure { update: false, quiet: false };
    let (m, said) = run_task(task, vec![Event::Probed(true), Event::Opened]);
    assert_eq!(m.action(), Action::Exit(0));
    assert!(said.is_empty());
}

#[test]
fn update_command() {
    let task = Task::Update { quiet: false };
    let (m, said) = run_task(
        task,
        vec![Event::Probed(true), Event::Opened, Event::Updated],
    );
    assert_eq!(m.action(), Action::Describe);
    assert_eq!(
        said,
        vec!["Updating ruby-advisory-db ...", "Updated ruby-advisory-db"]
    );
    let (m, lines) = m.step(&Event::Described).unwrap();
    assert_eq!(m.action(), Action::Exit(0));
    assert!(lines.is_empty());

    let (m, said) = run_task(
        Task::Update { quiet: true },
        vec![Event::Probed(true), Event::Opened, Event::NotARepository],
    );
    assert_eq!(m.action(), Action::Exit(0));
    assert!(said.is_empty());

    let (m, said) = run_task(
        Task::Update { quiet: true },
        vec![
            Event::Probed(true),
            Event::Opened,
            Event::UpdateFailed(reason("offline")),
        ],
    );
    assert_eq!(m.action(), Action::Exit(2));
    assert_eq!(said, vec!["Failed to update: offline"]);

    let (m, said) = run_task(
        task,
        vec![Event::Probed(true), Event::OpenFailed(reason("locked"))],
    );
    assert_eq!(m.action(), Action::Exit(2));
    assert_eq!(said[1], "Failed to open advisory database: locked");
}

#[test]
fn update_command_downloads_a_missing_database() {
    let (m, said) = run_task(
        Task::Update { quiet: false },
        vec![Event::Probed(false), Event::Probed(false), Event::Downloaded],
    );
    assert_eq!(m.task, Task::Download { quiet: false });
    assert_eq!(m.action(), Action::Describe);
    assert_eq!(said, vec!["Downloading ruby-advisory-db ..."]);
}

#[test]
fn download_command() {
    let (m, said) = run_task(Task::Download { quiet: true }, vec![Event::Probed(true)]);
    assert_eq!(m.action(), Action::Exit(0));
    assert_eq!(said, vec!["Database already exists"]);

    let (m, said) = run_task(
        Task::Download { quiet: true },
        vec![Event::Probed(false), Event::DownloadFailed(reason("offline"))],
    );
    assert_eq!(m.action(), Action::Exit(2));
    assert_eq!(said, vec!["Failed to download: offline"]);
}

#[test]
fn stats_command() {
    let m = Maintenance::begin(Task::Stats);
    assert_eq!(m.action(), Action::Open);
    let (m, _) = run_task(Task::Stats, vec![Event::Opened, Event::Described]);
    assert_eq!(m.action(), Action::Exit(0));
    let (m, said) = run_task(Task::Stats, vec![Event::OpenFailed(reason("gone"))]);
    assert_eq!(m.action(), Action::Exit(2));
    assert_eq!(said, vec!["Failed to open advisory database: gone"]);
}

#[test]
fn tasks_take_no_events_that_they_do_not_wait_for() {
    let m = Maintenance::begin(Task::Download { quiet: false });
    assert!(m.step(&Event::Downloaded).is_none());
    assert!(m.step(&Event::Opened).is_none());
    let (done, _) = m.step(&Event::Probed(true)).unwrap();
    assert!(done.step(&Event::Probed(true)).is_none());
}

#[test]
fn stats_are_described() {
    assert_eq!(
        stats_lines(
            1043,
            27,
            Some("2024-01-02 03:04:05 UTC".to_string()),
            Some("abc".to_string())
        ),
        vec![
            "ruby-advisory-db:",
            "  advisories:\t1070 advisories",
            "  gems:\t\t1043",
            "  rubies:\t27",
            "  last updated:\t2024-01-02 03:04:05 UTC",
            "  commit:\tabc",
        ]
    );
    assert_eq!(
        stats_lines(0, 0, None, None),
        vec!["ruby-advisory-db:", "  advisories:\t0 advisories"]
    );
}

#[test]
fn default_options() {
    let opts = CheckOptions::default();
    assert_eq!(opts.dir, ".");
    assert_eq!(opts.gemfile_lock, "Gemfile.lock");
    assert_eq!(opts.config, ".gem-audit.yml");
    assert_eq!(opts.format, OutputFormat::Text);
    assert!(opts.ignore.is_empty());
    assert!(opts.database.is_none() && opts.output.is_none());
    assert!(opts.severity.is_none() && opts.max_db_age.is_none());
    assert!(!opts.quiet && !opts.verbose && !opts.update && !opts.fail_on_stale);
    assert!(!opts.strict && !opts.fix && !opts.dry_run && !opts.write_ignore);
}

#[test]
fn ignored_ids_of_the_command_line_replace_those_of_the_settings() {
    let mut ignore = IdSet::new();
    ignore.insert("CVE-1".to_string());
    let config = Configuration {
        ignore,
        max_db_age_days: None,
    };
    let opts = CheckOptions {
        severity: Some(Criticality::High),
        strict: true,
        ..Default::default()
    };
    let scan = opts.scan_options(&config);
    assert!(scan.ignore.contains("CVE-1"));
    assert_eq!(scan.severity, Some(Criticality::High));
    assert!(scan.strict);

    let opts = CheckOptions {
        ignore: vec!["CVE-2".to_string(), "CVE-2".to_string()],
        ..Default::default()
    };
    let scan = opts.scan_options(&config);
    assert!(!scan.ignore.contains("CVE-1"));
    assert!(scan.ignore.contains("CVE-2"));
    assert_eq!(scan.ignore.len(), 1);
}

#[test]
fn colours_are_for_terminals() {
    let mut opts = CheckOptions::default();
    opts.verbose = true;
    assert_eq!(
        opts.print_plan(true),
        PrintPlan::Text { verbose: true, quiet: false, color: true, fix: false }
    );
    assert_eq!(
        opts.print_plan(false),
        PrintPlan::Text { verbose: true, quiet: false, color: false, fix: false }
    );
    opts.output = Some("report.txt".to_string());
    opts.format = OutputFormat::Json;
    opts.fix = true;
    assert_eq!(opts.print_plan(true), PrintPlan::Json { pretty: false, fix: true });
    opts.output = None;
    assert_eq!(opts.print_plan(true), PrintPlan::Json { pretty: true, fix: true });
}

const NOTHING: Findings = Findings { unpatched: false, vulnerable: false, incomplete: false };
const UNPATCHED: Findings = Findings { unpatched: true, vulnerable: true, incomplete: true };

fn run_check(opts: &CheckOptions, events: Vec<CheckEvent>) -> (CheckStage, Vec<String>) {
    let mut stage = CheckStage::begin();
    let mut said = Vec::new();
    for event in events {
        let (next, lines) = stage.step(opts, &event).expect("event not expected");
        said.extend(lines);
        stage = next;
    }
    (stage, said)
}

fn scanned(found: Findings, warning: Option<&str>) -> Vec<CheckEvent> {
    vec![
        CheckEvent::Located(true),
        CheckEvent::Configured,
        CheckEvent::Maintained(Event::Probed(true)),
        CheckEvent::Maintained(Event::Opened),
        CheckEvent::Dated(warning.map(|w| w.to_string())),
        CheckEvent::Scanned(found),
        CheckEvent::OutputOpened(false),
    ]
}

#[test]
fn a_clean_audit_succeeds() {
    let opts = CheckOptions::default();
    let (stage, said) = run_check(&opts, scanned(NOTHING, None));
    assert_eq!(
        stage.action(&opts),
        CheckAction::Print(PrintPlan::Text {
            verbose: false,
            quiet: false,
            color: false,
            fix: false
        })
    );
    assert!(said.is_empty());
    let (stage, lines) = stage.step(&opts, &CheckEvent::Printed).unwrap();
    assert_eq!(stage.action(&opts), CheckAction::Exit(0));
    assert!(lines.is_empty());
}

#[test]
fn findings_exit_with_one() {
    let opts = CheckOptions {
        strict: true,
        fail_on_stale: true,
        ..Default::default()
    };
    let mut events = scanned(UNPATCHED, Some("old"));
    events.push(CheckEvent::ReaderGone);
    let (stage, said) = run_check(&opts, events);
    assert_eq!(stage.action(&opts), CheckAction::Exit(1));
    assert_eq!(said, vec!["old"]);
}

#[test]
fn exit_statuses_have_their_order() {
    let mut opts = CheckOptions::default();
    let incomplete = Findings { incomplete: true, ..NOTHING };
    assert_eq!(exit_status(&opts, true, incomplete), 0);
    opts.fail_on_stale = true;
    assert_eq!(exit_status(&opts, true, incomplete), 3);
    assert_eq!(exit_status(&opts, false, incomplete), 0);
    opts.strict = true;
    assert_eq!(exit_status(&opts, true, incomplete), 2);
    assert_eq!(exit_status(&opts, true, UNPATCHED), 1);
}

#[test]
fn failures_exit_with_two() {
    let opts = CheckOptions {
        dir: "missing".to_string(),
        output: Some("out".to_string()),
        ..Default::default()
    };
    let (stage, said) = run_check(&opts, vec![CheckEvent::Located(false)]);
    assert_eq!(stage.action(&opts), CheckAction::Exit(2));
    assert_eq!(said, vec!["No such file or directory: missing"]);

    let (stage, said) = run_check(
        &opts,
        vec![
            CheckEvent::Located(true),
            CheckEvent::ConfigFailed(reason("bad settings")),
        ],
    );
    assert_eq!(stage.action(&opts), CheckAction::Exit(2));
    assert_eq!(said, vec!["bad settings"]);

    let (stage, said) = run_check(
        &opts,
        vec![
            CheckEvent::Located(true),
            CheckEvent::Configured,
            CheckEvent::Maintained(Event::Probed(true)),
            CheckEvent::Maintained(Event::OpenFailed(reason("locked"))),
        ],
    );
    assert_eq!(stage.action(&opts), CheckAction::Exit(2));
    assert_eq!(said, vec!["Failed to open advisory database: locked"]);

    let mut events = scanned(NOTHING, None);
    events.truncate(5);
    events.push(CheckEvent::ScanFailed(reason("Gemfile.lock not found: x")));
    let (stage, said) = run_check(&opts, events);
    assert_eq!(stage.action(&opts), CheckAction::Exit(2));
    assert_eq!(said, vec!["Gemfile.lock not found: x"]);

    let mut events = scanned(NOTHING, None);
    events.truncate(6);
    events.push(CheckEvent::OutputFailed(reason("denied")));
    let (stage, said) = run_check(&opts, events);
    assert_eq!(stage.action(&opts), CheckAction::Exit(2));
    assert_eq!(said, vec!["Failed to open output file out: denied"]);

    let mut events = scanned(UNPATCHED, None);
    events.push(CheckEvent::PrintFailed(reason("disk full")));
    let (stage, said) = run_check(&opts, events);
    assert_eq!(stage.action(&opts), CheckAction::Exit(2));
    assert_eq!(said, vec!["error: write failed: disk full"]);
}

#[test]
fn fixes_are_applied_unless_tried_out() {
    let mut opts = CheckOptions {
        fix: true,
        ..Default::default()
    };
    let (stage, _) = run_check(&opts, scanned(UNPATCHED, None));
    assert_eq!(stage.action(&opts), CheckAction::ResolveFixes);
    let (stage, _) = stage.step(&opts, &CheckEvent::Resolved).unwrap();
    let (after, _) = stage.step(&opts, &CheckEvent::Printed).unwrap();
    assert_eq!(after.action(&opts), CheckAction::ApplyFixes);
    let (after, _) = after.step(&opts, &CheckEvent::Applied).unwrap();
    assert_eq!(after.action(&opts), CheckAction::Exit(1));

    opts.dry_run = true;
    let (after, _) = stage.step(&opts, &CheckEvent::Printed).unwrap();
    assert_eq!(after.action(&opts), CheckAction::Exit(1));

    // Nothing to fix
    let insecure = Findings { vulnerable: true, ..NOTHING };
    let (stage, _) = run_check(&opts, scanned(insecure, None));
    assert!(matches!(stage.action(&opts), CheckAction::Print(_)));
}

#[test]
fn findings_are_written_to_the_settings() {
    let opts = CheckOptions {
        write_ignore: true,
        ..Default::default()
    };
    let mut events = scanned(UNPATCHED, None);
    events.push(CheckEvent::Printed);
    let (stage, _) = run_check(&opts, events);
    assert_eq!(stage.action(&opts), CheckAction::SaveIgnore);
    let (saved, said) = stage
        .step(&opts, &CheckEvent::IgnoreSaved(12, ".gem-audit.yml".to_string()))
        .unwrap();
    assert_eq!(saved.action(&opts), CheckAction::Exit(0));
    assert_eq!(said, vec!["Added 12 advisory ID(s) to .gem-audit.yml"]);
    let (failed, said) = stage
        .step(&opts, &CheckEvent::IgnoreFailed(reason("denied")))
        .unwrap();
    assert_eq!(failed.action(&opts), CheckAction::Exit(2));
    assert_eq!(said, vec!["Failed to write config: denied"]);

    // Nothing found, nothing to write
    let mut events = scanned(NOTHING, None);
    events.push(CheckEvent::Printed);
    let (stage, _) = run_check(&opts, events);
    assert_eq!(stage.action(&opts), CheckAction::Exit(0));
}

#[test]
fn audits_take_no_events_that_they_do_not_wait_for() {
    let opts = CheckOptions::default();
    assert!(CheckStage::begin().step(&opts, &CheckEvent::Printed).is_none());
    // Standard output is always open
    let mut events = scanned(NOTHING, None);
    events.truncate(6);
    let (stage, _) = run_check(&opts, events);
    assert!(stage
        .step(&opts, &CheckEvent::OutputFailed(reason("x")))
        .is_none());
}

#[test]
fn a_report_comes_down_to_its_findings() {
    let report = Report {
        insecure_sources: vec![InsecureSource {
            source: "http://rubygems.org/".to_string(),
        }],
        unpatched_gems: vec![],
        vulnerable_rubies: vec![],
        version_parse_errors: 0,
        advisory_load_errors: 1,
    };
    assert_eq!(
        Findings::of(&report),
        Findings { unpatched: false, vulnerable: true, incomplete: true }
    );
}

fn run_apply(fixes: usize, events: Vec<ApplyEvent>) -> (ApplyStage, Vec<String>) {
    let mut stage = ApplyStage::begin(fixes);
    let mut said = Vec::new();
    for event in events {
        let (next, lines) = stage.step("dir/Gemfile.lock", &event).expect("not expected");
        said.extend(lines);
        stage = next;
    }
    (stage, said)
}

#[test]
fn fixes_are_picked_in_order() {
    let results = vec![
        FixResult::Unfixed("no release"),
        FixResult::Fixed("a"),
        FixResult::Unfixed("yanked"),
        FixResult::Fixed("b"),
    ];
    assert_eq!(select_fixes(results), vec!["a", "b"]);
    assert!(select_fixes::<u8, u8>(vec![FixResult::Unfixed(1)]).is_empty());
}

#[test]
fn the_lockfile_is_replaced() {
    let (stage, said) = run_apply(
        3,
        vec![
            ApplyEvent::Read,
            ApplyEvent::Patched(2),
            ApplyEvent::Written,
            ApplyEvent::Replaced,
        ],
    );
    assert_eq!(stage.action(), ApplyAction::Stop);
    assert_eq!(
        said,
        vec![
            "\nFixed 2 gem(s) in dir/Gemfile.lock. Run `bundle install` to install the updated versions."
        ]
    );
}

#[test]
fn the_lockfile_stays_where_nothing_changes() {
    assert_eq!(ApplyStage::begin(0).action(), ApplyAction::Stop);
    let (stage, said) = run_apply(1, vec![ApplyEvent::Read, ApplyEvent::Patched(0)]);
    assert_eq!(stage.action(), ApplyAction::Stop);
    assert!(said.is_empty());
}

#[test]
fn failures_to_lock_fixes_are_told() {
    let (stage, said) = run_apply(1, vec![ApplyEvent::ReadFailed(reason("denied"))]);
    assert_eq!(stage.action(), ApplyAction::Stop);
    assert_eq!(said, vec!["error: failed to read dir/Gemfile.lock: denied"]);

    let (stage, said) = run_apply(
        1,
        vec![
            ApplyEvent::Read,
            ApplyEvent::Patched(1),
            ApplyEvent::WriteFailed(reason("full")),
        ],
    );
    assert_eq!(stage.action(), ApplyAction::Stop);
    assert_eq!(said, vec!["error: failed to write temporary file: full"]);

    let (stage, said) = run_apply(
        1,
        vec![
            ApplyEvent::Read,
            ApplyEvent::Patched(1),
            ApplyEvent::Written,
            ApplyEvent::ReplaceFailed(reason("busy")),
        ],
    );
    assert_eq!(stage.action(), ApplyAction::Remove);
    assert_eq!(said, vec!["error: failed to write Gemfile.lock: busy"]);
    let (stage, _) = stage.step("dir/Gemfile.lock", &ApplyEvent::Removed).unwrap();
    assert_eq!(stage.action(), ApplyAction::Stop);
}

/// Locks fixes where every action comes to what is given here: what was done, and
/// what was said.
fn lock(
    fixes: usize,
    read: bool,
    patched: usize,
    written: bool,
    replaced: bool,
) -> (Vec<ApplyAction>, Vec<String>) {
    let mut stage = ApplyStage::begin(fixes);
    let mut done = Vec::new();
    let mut said = Vec::new();
    loop {
        let action = stage.action();
        let event = match action {
            ApplyAction::Stop => return (done, said),
            ApplyAction::Read if read => ApplyEvent::Read,
            ApplyAction::Read => ApplyEvent::ReadFailed(reason("denied")),
            ApplyAction::Patch => ApplyEvent::Patched(patched),
            ApplyAction::Write if written => ApplyEvent::Written,
            ApplyAction::Write => ApplyEvent::WriteFailed(reason("full")),
            ApplyAction::Replace if replaced => ApplyEvent::Replaced,
            ApplyAction::Replace => ApplyEvent::ReplaceFailed(reason("busy")),
            ApplyAction::Remove => ApplyEvent::Removed,
        };
        done.push(action);
        let (next, lines) = stage.step("Gemfile.lock", &event).expect("not expected");
        said.extend(lines);
        stage = next;
    }
}

#[test]
fn the_lockfile_is_replaced_exactly_where_its_new_text_stands() {
    for fixes in 0..3 {
        for patched in 0..3 {
            for flags in 0..8 {
                let (read, written, replaced) = (flags & 1 > 0, flags & 2 > 0, flags & 4 > 0);
                let (done, said) = lock(fixes, read, patched, written, replaced);
                let stands = fixes > 0 && read && patched > 0 && written;
                assert_eq!(done.contains(&ApplyAction::Replace), stands);
                assert_eq!(done.contains(&ApplyAction::Remove), stands && !replaced);
                let silent = fixes == 0 || (read && patched == 0);
                assert_eq!(said.len(), if silent { 0 } else { 1 });
            }
        }
    }
    let (done, said) = lock(1, true, 1, true, false);
    assert_eq!(
        done,
        vec![
            ApplyAction::Read,
            ApplyAction::Patch,
            ApplyAction::Write,
            ApplyAction::Replace,
            ApplyAction::Remove,
        ]
    );
    assert_eq!(said, vec!["error: failed to write Gemfile.lock: busy"]);
}
