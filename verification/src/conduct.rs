//! How commands go from beginning to end: what is done, in which order, what the
//! user is told, and the exit status as a number.

use vstd::prelude::*;

use crate::audit::{verdict, AuditSurroundings, CheckAction, CheckEvent, CheckStage, Findings};
use crate::exit::{EXIT_ERROR, EXIT_STALE, EXIT_SUCCESS, EXIT_VULNERABLE};
use crate::fixes::{ApplyAction, ApplyEvent, ApplyStage, ApplySurroundings};
use crate::maintenance::{
    stats_text, Action, Event, Maintenance, Stage, Surroundings, Task, UpdateOutcome,
};
use crate::options::CheckOptions;
use crate::text::decimal_text;

verus! {

/// The course of something from here to its end.
pub struct Course<A, S> {
    /// What is done, in order.
    pub done: Seq<A>,
    /// What the user is told, in order.
    pub told: Seq<Seq<char>>,
    /// Where it ends.
    pub end: S,
}

/// The exit statuses, as numbers.
pub proof fn exit_statuses_are_numbers()
    ensures
        EXIT_SUCCESS == 0,
        EXIT_VULNERABLE == 1,
        EXIT_ERROR == 2,
        EXIT_STALE == 3,
{
}

/// The course of a task.
pub open spec fn task_course(world: Surroundings, m: Maintenance) -> Course<Action, Stage>
    decreases m.steps_left(),
{
    match m.next(world.reply(m)) {
        Some((n, lines)) if n.steps_left() < m.steps_left() => {
            let rest = task_course(world, n);
            Course {
                done: seq![m.pending()] + rest.done,
                told: lines + rest.told,
                end: rest.end,
            }
        },
        _ => Course { done: Seq::empty(), told: Seq::empty(), end: m.stage },
    }
}

/// A line for the user, unless quiet.
pub open spec fn aside(quiet: bool, line: Seq<char>) -> Seq<Seq<char>> {
    if quiet {
        Seq::empty()
    } else {
        seq![line]
    }
}

/// Having the database ready for an audit: it is fetched where there is none, brought
/// up to date where there is one and that is asked for, and opened. Failing to bring
/// it up to date is told of and does not matter; any other failure ends in 2.
pub proof fn course_of_making_ready(world: Surroundings, update: bool, quiet: bool)
    ensures
        ({
            let course = task_course(world, Maintenance::begun(Task::Ensure { update, quiet }));
            let opened = match world.open_failure {
                None => Seq::empty(),
                Some(reason) => seq!["Failed to open advisory database: "@ + reason@],
            };
            let status: i32 = if world.open_failure is None {
                0
            } else {
                2
            };
            if !world.present {
                match world.download_failure {
                    Some(reason) => {
                        &&& course.done == seq![Action::Probe, Action::Download]
                        &&& course.told == aside(quiet, "Downloading ruby-advisory-db ..."@)
                            + seq!["Failed to download advisory database: "@ + reason@]
                        &&& course.end == Stage::Finished(2)
                    },
                    None => {
                        &&& course.done == seq![Action::Probe, Action::Download, Action::Open]
                        &&& course.told == aside(quiet, "Downloading ruby-advisory-db ..."@)
                            + aside(quiet, "Downloaded ruby-advisory-db"@) + opened
                        &&& course.end == Stage::Finished(status)
                    },
                }
            } else if !update {
                &&& course.done == seq![Action::Probe, Action::Open]
                &&& course.told == opened
                &&& course.end == Stage::Finished(status)
            } else {
                match world.update_open_failure {
                    Some(reason) => {
                        &&& course.done == seq![Action::Probe, Action::Open]
                        &&& course.told == aside(quiet, "Updating ruby-advisory-db ..."@)
                            + seq!["Failed to open advisory database: "@ + reason@]
                        &&& course.end == Stage::Finished(2)
                    },
                    None => {
                        &&& course.done == seq![
                            Action::Probe,
                            Action::Open,
                            Action::Update,
                            Action::Open,
                        ]
                        &&& course.told == aside(quiet, "Updating ruby-advisory-db ..."@) + (
                        match world.update {
                            UpdateOutcome::Done => aside(quiet, "Updated ruby-advisory-db"@),
                            UpdateOutcome::Skipped => aside(
                                quiet,
                                "Skipping update, ruby-advisory-db is not a git repository"@,
                            ),
                            UpdateOutcome::Failed(reason) => seq![
                                "warning: Failed to update advisory database: "@ + reason@,
                            ],
                        }) + opened
                        &&& course.end == Stage::Finished(status)
                    },
                }
            }
        }),
{
    reveal_with_fuel(task_course, 7);
}

/// Fetching the database: where there is one already, that is told and nothing is
/// fetched; else it is fetched and, unless quiet, described.
pub proof fn course_of_downloading(world: Surroundings, quiet: bool)
    ensures
        ({
            let course = task_course(world, Maintenance::begun(Task::Download { quiet }));
            if world.present {
                &&& course.done == seq![Action::Probe]
                &&& course.told == seq!["Database already exists"@]
                &&& course.end == Stage::Finished(0)
            } else {
                match world.download_failure {
                    Some(reason) => {
                        &&& course.done == seq![Action::Probe, Action::Download]
                        &&& course.told == aside(quiet, "Downloading ruby-advisory-db ..."@)
                            + seq!["Failed to download: "@ + reason@]
                        &&& course.end == Stage::Finished(2)
                    },
                    None => {
                        &&& course.done == if quiet {
                            seq![Action::Probe, Action::Download]
                        } else {
                            seq![Action::Probe, Action::Download, Action::Describe]
                        }
                        &&& course.told == aside(quiet, "Downloading ruby-advisory-db ..."@)
                        &&& course.end == Stage::Finished(0)
                    },
                }
            }
        }),
{
    reveal_with_fuel(task_course, 7);
}

/// Bringing the database up to date: where there is none, it is fetched instead;
/// else it is opened, brought up to date and, unless quiet, described.
pub proof fn course_of_updating(world: Surroundings, quiet: bool)
    ensures
        ({
            let course = task_course(world, Maintenance::begun(Task::Update { quiet }));
            let fetching = task_course(world, Maintenance::begun(Task::Download { quiet }));
            if !world.present {
                &&& course.done == seq![Action::Probe] + fetching.done
                &&& course.told == fetching.told
                &&& course.end == fetching.end
            } else {
                match (world.update_open_failure, world.update) {
                    (Some(reason), _) => {
                        &&& course.done == seq![Action::Probe, Action::Open]
                        &&& course.told == aside(quiet, "Updating ruby-advisory-db ..."@)
                            + seq!["Failed to open advisory database: "@ + reason@]
                        &&& course.end == Stage::Finished(2)
                    },
                    (None, UpdateOutcome::Failed(reason)) => {
                        &&& course.done == seq![Action::Probe, Action::Open, Action::Update]
                        &&& course.told == aside(quiet, "Updating ruby-advisory-db ..."@)
                            + seq!["Failed to update: "@ + reason@]
                        &&& course.end == Stage::Finished(2)
                    },
                    (None, outcome) => {
                        &&& course.done == if quiet {
                            seq![Action::Probe, Action::Open, Action::Update]
                        } else {
                            seq![Action::Probe, Action::Open, Action::Update, Action::Describe]
                        }
                        &&& course.told == aside(quiet, "Updating ruby-advisory-db ..."@) + aside(
                            quiet,
                            if outcome is Done {
                                "Updated ruby-advisory-db"@
                            } else {
                                "Skipping update, ruby-advisory-db is not a git repository"@
                            },
                        )
                        &&& course.end == Stage::Finished(0)
                    },
                }
            }
        }),
{
    reveal_with_fuel(task_course, 7);
    let course = task_course(world, Maintenance::begun(Task::Update { quiet }));
    let fetching = task_course(world, Maintenance::begun(Task::Download { quiet }));
    if !world.present {
        assert(course.told =~= fetching.told);
    }
}

/// Describing the database: it is opened and described.
pub proof fn course_of_describing(world: Surroundings)
    ensures
        ({
            let course = task_course(world, Maintenance::begun(Task::Stats));
            match world.open_failure {
                Some(reason) => {
                    &&& course.done == seq![Action::Open]
                    &&& course.told == seq!["Failed to open advisory database: "@ + reason@]
                    &&& course.end == Stage::Finished(2)
                },
                None => {
                    &&& course.done == seq![Action::Open, Action::Describe]
                    &&& course.told == Seq::<Seq<char>>::empty()
                    &&& course.end == Stage::Finished(0)
                },
            }
        }),
{
    reveal_with_fuel(task_course, 7);
}

/// A task takes what can come of the action that it waits for, and nothing else.
pub proof fn tasks_take_what_they_wait_for(m: Maintenance, event: Event)
    requires
        m.possible(),
    ensures
        m.next(event) is Some <==> match m.pending() {
            Action::Probe => event is Probed,
            Action::Download => event is Downloaded || event is DownloadFailed,
            Action::Open => event is Opened || event is OpenFailed,
            Action::Update => event is Updated || event is NotARepository || event is UpdateFailed,
            Action::Describe => event is Described,
            Action::Exit(_) => false,
        },
        m.pending() is Exit <==> m.stage is Finished,
        m.stage is Finished ==> m.pending() == Action::Exit(m.stage->Finished_0),
{
}

/// The description of the database tells how many advisories there are, in all and,
/// where there are any on interpreters, of each kind; then when it was last updated
/// and at which commit it stands, as far as that is known.
pub proof fn descriptions_add_up(
    gems: nat,
    rubies: nat,
    updated: Option<Seq<char>>,
    commit: Option<Seq<char>>,
)
    ensures
        ({
            let lines = stats_text(gems, rubies, updated, commit);
            let kinds: int = if rubies > 0 {
                2
            } else {
                0
            };
            let dates: int = if updated is Some {
                1
            } else {
                0
            };
            let commits: int = if commit is Some {
                1
            } else {
                0
            };
            &&& lines.len() == 2 + kinds + dates + commits
            &&& lines[0] == "ruby-advisory-db:"@
            &&& lines[1] == "  advisories:\t"@ + decimal_text(gems + rubies) + " advisories"@
            &&& rubies > 0 ==> lines[2] == "  gems:\t\t"@ + decimal_text(gems)
            &&& rubies > 0 ==> lines[3] == "  rubies:\t"@ + decimal_text(rubies)
            &&& updated is Some ==> lines[2 + kinds] == "  last updated:\t"@ + updated->0
            &&& commit is Some ==> lines[2 + kinds + dates] == "  commit:\t"@ + commit->0
        }),
{
}

/// The course of locking fixes.
pub open spec fn apply_course(
    world: ApplySurroundings,
    path: Seq<char>,
    stage: ApplyStage,
) -> Course<ApplyAction, ApplyStage>
    decreases stage.steps_left(),
{
    match stage.next(path, world.reply(stage)) {
        Some((n, lines)) if n.steps_left() < stage.steps_left() => {
            let rest = apply_course(world, path, n);
            Course {
                done: seq![stage.pending()] + rest.done,
                told: lines + rest.told,
                end: rest.end,
            }
        },
        _ => Course { done: Seq::empty(), told: Seq::empty(), end: stage },
    }
}

/// Locking fixes: where there are any, the lockfile is read and patched; where that
/// changed it, the new text is written aside and then takes the lockfile's place, or
/// is removed where it cannot.
pub proof fn course_of_locking_fixes(world: ApplySurroundings, path: Seq<char>, fixes: nat)
    ensures
        ({
            let course = apply_course(world, path, ApplyStage::begun(fixes));
            &&& course.end == ApplyStage::Finished
            &&& if fixes == 0 {
                &&& course.done == Seq::<ApplyAction>::empty()
                &&& course.told == Seq::<Seq<char>>::empty()
            } else {
                match (world.read_failure, world.write_failure, world.replace_failure) {
                    (Some(reason), _, _) => {
                        &&& course.done == seq![ApplyAction::Read]
                        &&& course.told == seq![
                            "error: failed to read "@ + path + ": "@ + reason@,
                        ]
                    },
                    (None, Some(reason), _) if world.patched > 0 => {
                        &&& course.done == seq![
                            ApplyAction::Read,
                            ApplyAction::Patch,
                            ApplyAction::Write,
                        ]
                        &&& course.told == seq![
                            "error: failed to write temporary file: "@ + reason@,
                        ]
                    },
                    (None, None, Some(reason)) if world.patched > 0 => {
                        &&& course.done == seq![
                            ApplyAction::Read,
                            ApplyAction::Patch,
                            ApplyAction::Write,
                            ApplyAction::Replace,
                            ApplyAction::Remove,
                        ]
                        &&& course.told == seq![
                            "error: failed to write Gemfile.lock: "@ + reason@,
                        ]
                    },
                    (None, None, None) if world.patched > 0 => {
                        &&& course.done == seq![
                            ApplyAction::Read,
                            ApplyAction::Patch,
                            ApplyAction::Write,
                            ApplyAction::Replace,
                        ]
                        &&& course.told == seq![
                            "\nFixed "@ + decimal_text(world.patched as nat) + " gem(s) in "@ + path
                                + ". Run `bundle install` to install the updated versions."@,
                        ]
                    },
                    _ => {
                        &&& course.done == seq![ApplyAction::Read, ApplyAction::Patch]
                        &&& course.told == Seq::<Seq<char>>::empty()
                    },
                }
            }
        }),
{
    reveal_with_fuel(apply_course, 6);
}

/// Locking fixes takes what can come of the action that it waits for, and nothing
/// else.
pub proof fn locking_takes_what_it_waits_for(
    stage: ApplyStage,
    path: Seq<char>,
    event: ApplyEvent,
)
    ensures
        stage.next(path, event) is Some <==> match stage.pending() {
            ApplyAction::Read => event is Read || event is ReadFailed,
            ApplyAction::Patch => event is Patched,
            ApplyAction::Write => event is Written || event is WriteFailed,
            ApplyAction::Replace => event is Replaced || event is ReplaceFailed,
            ApplyAction::Remove => event is Removed,
            ApplyAction::Stop => false,
        },
        stage.pending() is Stop <==> stage is Finished,
{
}

/// The course of an audit.
#[verifier::opaque]
pub open spec fn audit_course(
    opts: CheckOptions,
    world: AuditSurroundings,
    stage: CheckStage,
) -> Course<CheckAction, CheckStage>
    decreases stage.steps_left(),
{
    match stage.next(opts, world.reply(opts, stage)) {
        Some((n, lines)) if n.steps_left() < stage.steps_left() => {
            let rest = audit_course(opts, world, n);
            Course {
                done: seq![stage.pending(opts)] + rest.done,
                told: lines + rest.told,
                end: rest.end,
            }
        },
        _ => Course { done: Seq::empty(), told: Seq::empty(), end: stage },
    }
}

/// The exit status of an audit whose report is out: 1 where anything was found, else
/// 2 where the audit is strict and anything went unread, else 3 where the database is
/// too old and that is to count, and else 0.
pub proof fn findings_count_before_all_else(opts: CheckOptions, stale: bool, found: Findings)
    ensures
        verdict(opts, stale, found) == 1 <==> found.vulnerable,
        verdict(opts, stale, found) == 2 <==> !found.vulnerable && opts.strict && found.incomplete,
        verdict(opts, stale, found) == 3 <==> !found.vulnerable && !(opts.strict
            && found.incomplete) && stale && opts.fail_on_stale,
        verdict(opts, stale, found) == 0 <==> !found.vulnerable && !(opts.strict
            && found.incomplete) && !(stale && opts.fail_on_stale),
{
}

/// The course of an audit goes on by one step, unless it has ended.
proof fn lemma_audit_step(opts: CheckOptions, world: AuditSurroundings, stage: CheckStage)
    ensures
        ({
            let course = audit_course(opts, world, stage);
            match stage.next(opts, world.reply(opts, stage)) {
                Some((n, lines)) => n.steps_left() < stage.steps_left() ==> {
                    let rest = audit_course(opts, world, n);
                    &&& course.done == seq![stage.pending(opts)] + rest.done
                    &&& course.told == lines + rest.told
                    &&& course.end == rest.end
                },
                None => {
                    &&& course.done == Seq::<CheckAction>::empty()
                    &&& course.told == Seq::<Seq<char>>::empty()
                    &&& course.end == stage
                },
            }
        }),
{
    reveal(audit_course);
}

/// From the printing of the report to the end.
proof fn lemma_printing_course(
    opts: CheckOptions,
    world: AuditSurroundings,
    stale: bool,
    found: Findings,
)
    ensures
        ({
            let fixes = opts.fix && found.unpatched;
            let tty = world.tty;
            let course = audit_course(
                opts,
                world,
                CheckStage::Printing { stale, found, tty, fixes },
            );
            let nothing = Seq::<CheckAction>::empty();
            let print = seq![CheckAction::Print(opts.plan(tty))];
            let saving = opts.write_ignore && found.vulnerable;
            if world.print_failure is Some {
                &&& course.done == print
                &&& course.told == seq!["error: write failed: "@ + world.print_failure->0@]
                &&& course.end == CheckStage::Finished(2)
            } else {
                &&& course.done == print + (if fixes && !opts.dry_run {
                    seq![CheckAction::ApplyFixes]
                } else {
                    nothing
                }) + (if saving {
                    seq![CheckAction::SaveIgnore]
                } else {
                    nothing
                })
                &&& if saving {
                    match world.save {
                        Ok((added, path)) => {
                            &&& course.told == seq![
                                "Added "@ + decimal_text(added as nat) + " advisory ID(s) to "@
                                    + path@,
                            ]
                            &&& course.end == CheckStage::Finished(0)
                        },
                        Err(reason) => {
                            &&& course.told == seq!["Failed to write config: "@ + reason@]
                            &&& course.end == CheckStage::Finished(2)
                        },
                    }
                } else {
                    &&& course.told == Seq::<Seq<char>>::empty()
                    &&& course.end == CheckStage::Finished(verdict(opts, stale, found))
                }
            }
        }),
{
    let fixes = opts.fix && found.unpatched;
    let tty = world.tty;
    let printing = CheckStage::Printing { stale, found, tty, fixes };
    let applying = CheckStage::Applying { stale, found };
    lemma_audit_step(opts, world, printing);
    lemma_audit_step(opts, world, applying);
    lemma_audit_step(opts, world, CheckStage::Ignoring);
    lemma_audit_step(opts, world, CheckStage::Finished(0));
    lemma_audit_step(opts, world, CheckStage::Finished(2));
    lemma_audit_step(opts, world, CheckStage::Finished(verdict(opts, stale, found)));
}

/// From the audit of the lockfile to the printing of the report.
proof fn lemma_until_printing(opts: CheckOptions, world: AuditSurroundings, stale: bool)
    ensures
        ({
            let course = audit_course(opts, world, CheckStage::Scanning { stale });
            match world.scan {
                Err(reason) => {
                    &&& course.done == seq![CheckAction::Scan]
                    &&& course.told == seq![reason@]
                    &&& course.end == CheckStage::Finished(2)
                },
                Ok(found) => if opts.output is Some && world.output_failure is Some {
                    &&& course.done == seq![CheckAction::Scan, CheckAction::OpenOutput]
                    &&& course.told == seq![
                        "Failed to open output file "@ + opts.output->0@ + ": "@
                            + world.output_failure->0@,
                    ]
                    &&& course.end == CheckStage::Finished(2)
                } else {
                    let fixes = opts.fix && found.unpatched;
                    let tty = world.tty;
                    let rest = audit_course(
                        opts,
                        world,
                        CheckStage::Printing { stale, found, tty, fixes },
                    );
                    &&& course.done == seq![CheckAction::Scan, CheckAction::OpenOutput] + (
                    if fixes {
                        seq![CheckAction::ResolveFixes]
                    } else {
                        Seq::empty()
                    }) + rest.done
                    &&& course.told == rest.told
                    &&& course.end == rest.end
                },
            }
        }),
{
    lemma_audit_step(opts, world, CheckStage::Scanning { stale });
    lemma_audit_step(opts, world, CheckStage::Finished(2));
    if let Ok(found) = world.scan {
        let tty = world.tty;
        lemma_audit_step(opts, world, CheckStage::OpeningOutput { stale, found });
        if opts.fix && found.unpatched {
            lemma_audit_step(opts, world, CheckStage::Resolving { stale, found, tty });
        }
    }
}

/// From the audit of the lockfile to the end. The lockfile is audited, the place to
/// which the report goes is opened, fixes are looked up where they are asked for and
/// gems are affected, and the report is printed. Then the fixes are locked, unless
/// they are only tried out, and the findings are written to the settings, where that
/// is asked for and there are any. A failure on the way is told of and ends in 2;
/// that a reader went away is no failure.
pub proof fn course_from_the_audit_on(opts: CheckOptions, world: AuditSurroundings, stale: bool)
    ensures
        ({
            let course = audit_course(opts, world, CheckStage::Scanning { stale });
            let nothing = Seq::<CheckAction>::empty();
            match world.scan {
                Err(reason) => {
                    &&& course.done == seq![CheckAction::Scan]
                    &&& course.told == seq![reason@]
                    &&& course.end == CheckStage::Finished(2)
                },
                Ok(found) => {
                    let fixing = opts.fix && found.unpatched;
                    let saving = opts.write_ignore && found.vulnerable;
                    let until_printed = seq![CheckAction::Scan, CheckAction::OpenOutput] + (
                    if fixing {
                        seq![CheckAction::ResolveFixes]
                    } else {
                        nothing
                    }) + seq![CheckAction::Print(opts.plan(world.tty))];
                    if opts.output is Some && world.output_failure is Some {
                        &&& course.done == seq![CheckAction::Scan, CheckAction::OpenOutput]
                        &&& course.told == seq![
                            "Failed to open output file "@ + opts.output->0@ + ": "@
                                + world.output_failure->0@,
                        ]
                        &&& course.end == CheckStage::Finished(2)
                    } else if world.print_failure is Some {
                        &&& course.done == until_printed
                        &&& course.told == seq![
                            "error: write failed: "@ + world.print_failure->0@,
                        ]
                        &&& course.end == CheckStage::Finished(2)
                    } else {
                        &&& course.done == until_printed + (if fixing && !opts.dry_run {
                            seq![CheckAction::ApplyFixes]
                        } else {
                            nothing
                        }) + (if saving {
                            seq![CheckAction::SaveIgnore]
                        } else {
                            nothing
                        })
                        &&& if saving {
                            match world.save {
                                Ok((added, path)) => {
                                    &&& course.told == seq![
                                        "Added "@ + decimal_text(added as nat)
                                            + " advisory ID(s) to "@ + path@,
                                    ]
                                    &&& course.end == CheckStage::Finished(0)
                                },
                                Err(reason) => {
                                    &&& course.told == seq!["Failed to write config: "@ + reason@]
                                    &&& course.end == CheckStage::Finished(2)
                                },
                            }
                        } else {
                            &&& course.told == Seq::<Seq<char>>::empty()
                            &&& course.end == CheckStage::Finished(
                                if found.vulnerable {
                                    1
                                } else if opts.strict && found.incomplete {
                                    2
                                } else if stale && opts.fail_on_stale {
                                    3
                                } else {
                                    0
                                },
                            )
                        }
                    }
                },
            }
        }),
{
    lemma_until_printing(opts, world, stale);
    if let Ok(found) = world.scan {
        lemma_printing_course(opts, world, stale, found);
    }
}

/// Making the database ready within an audit goes as it does by itself.
proof fn lemma_preparing_course(opts: CheckOptions, world: AuditSurroundings, m: Maintenance)
    requires
        m.possible(),
        m.stage !is Finished,
        m.task is Ensure,
    ensures
        ({
            let alone = task_course(world.database, m);
            let course = audit_course(opts, world, CheckStage::Preparing(m));
            let after = audit_course(opts, world, CheckStage::Dating);
            let done = alone.done.map_values(|a: Action| CheckAction::Maintain(a));
            if alone.end == Stage::Finished(0) {
                &&& course.done == done + after.done
                &&& course.told == alone.told + after.told
                &&& course.end == after.end
            } else {
                &&& course.done == done
                &&& course.told == alone.told
                &&& course.end == CheckStage::Finished(2)
                &&& alone.end == Stage::Finished(2)
            }
        }),
    decreases m.steps_left(),
{
    let wrap = |a: Action| CheckAction::Maintain(a);
    let e = world.database.reply(m);
    let stage = CheckStage::Preparing(m);
    crate::maintenance::tasks_end(m, e);
    crate::maintenance::errors_are_told(m, e);
    tasks_take_what_they_wait_for(m, e);
    lemma_audit_step(opts, world, stage);
    let step = m.next(e)->0;
    let n = step.0;
    let alone = task_course(world.database, m);
    let alone_after = task_course(world.database, n);
    let course = audit_course(opts, world, stage);
    assert(alone.done == seq![m.pending()] + alone_after.done);
    assert(alone.done.map_values(wrap) =~= seq![CheckAction::Maintain(m.pending())]
        + alone_after.done.map_values(wrap));
    if let Stage::Finished(code) = n.stage {
        crate::maintenance::tasks_end(n, world.database.reply(n));
        assert(alone_after.done =~= Seq::<Action>::empty());
        assert(alone_after.told =~= Seq::<Seq<char>>::empty());
        assert(alone_after.end == n.stage);
        lemma_audit_step(opts, world, CheckStage::Finished(code));
        if code == 0 {
            let after = audit_course(opts, world, CheckStage::Dating);
            assert(course.done == seq![CheckAction::Maintain(m.pending())] + after.done);
            assert(course.done =~= alone.done.map_values(wrap) + after.done);
            assert(course.told =~= alone.told + after.told);
        } else {
            assert(course.done =~= alone.done.map_values(wrap));
            assert(course.told =~= alone.told);
        }
    } else {
        lemma_preparing_course(opts, world, n);
        let next = audit_course(opts, world, CheckStage::Preparing(n));
        let after = audit_course(opts, world, CheckStage::Dating);
        assert(course.done == seq![CheckAction::Maintain(m.pending())] + next.done);
        assert(course.told == step.1 + next.told);
        if alone.end == Stage::Finished(0) {
            assert(course.done =~= alone.done.map_values(wrap) + after.done);
            assert(course.told =~= alone.told + after.told);
        } else {
            assert(course.done =~= alone.done.map_values(wrap));
            assert(course.told =~= alone.told);
        }
    }
}

/// An audit from its beginning: the project directory is looked for, its settings are
/// loaded, the database is made ready, its age is looked at, and the lockfile is
/// audited. What fails on the way is told of and ends in 2; an old database is told
/// of and the audit goes on.
pub proof fn course_of_an_audit(opts: CheckOptions, world: AuditSurroundings)
    ensures
        ({
            let course = audit_course(opts, world, CheckStage::Locating);
            let ready = task_course(
                world.database,
                Maintenance::begun(Task::Ensure { update: opts.update, quiet: opts.quiet }),
            );
            let begun = seq![CheckAction::Locate, CheckAction::LoadConfig];
            let prepared = begun + ready.done.map_values(|a: Action| CheckAction::Maintain(a));
            if !world.directory {
                &&& course.done == seq![CheckAction::Locate]
                &&& course.told == seq!["No such file or directory: "@ + opts.dir@]
                &&& course.end == CheckStage::Finished(2)
            } else if world.config_failure is Some {
                &&& course.done == begun
                &&& course.told == seq![world.config_failure->0@]
                &&& course.end == CheckStage::Finished(2)
            } else if ready.end != Stage::Finished(0) {
                &&& course.done == prepared
                &&& course.told == ready.told
                &&& course.end == CheckStage::Finished(2)
            } else {
                let rest = audit_course(
                    opts,
                    world,
                    CheckStage::Scanning { stale: world.age_warning is Some },
                );
                &&& course.done == prepared + seq![CheckAction::Date] + rest.done
                &&& course.told == ready.told + (match world.age_warning {
                    Some(warning) => seq![warning@],
                    None => Seq::empty(),
                }) + rest.told
                &&& course.end == rest.end
            }
        }),
{
    let task = Task::Ensure { update: opts.update, quiet: opts.quiet };
    let m = Maintenance::begun(task);
    lemma_preparing_course(opts, world, m);
    let locating = audit_course(opts, world, CheckStage::Locating);
    let configuring = audit_course(opts, world, CheckStage::Configuring);
    let preparing = audit_course(opts, world, CheckStage::Preparing(m));
    let dating = audit_course(opts, world, CheckStage::Dating);
    let scanning = audit_course(
        opts,
        world,
        CheckStage::Scanning { stale: world.age_warning is Some },
    );
    lemma_audit_step(opts, world, CheckStage::Locating);
    lemma_audit_step(opts, world, CheckStage::Configuring);
    lemma_audit_step(opts, world, CheckStage::Dating);
    lemma_audit_step(opts, world, CheckStage::Finished(2));
    assert(dating.done == seq![CheckAction::Date] + scanning.done);
    if world.directory {
        assert(locating.done == seq![CheckAction::Locate] + configuring.done);
        assert(locating.told =~= configuring.told);
        if world.config_failure is None {
            assert(configuring.done == seq![CheckAction::LoadConfig] + preparing.done);
            assert(configuring.told =~= preparing.told);
        }
    }
}

/// An audit takes what can come of the action that it waits for, and nothing else.
pub proof fn audits_take_what_they_wait_for(
    opts: CheckOptions,
    stage: CheckStage,
    event: CheckEvent,
)
    requires
        stage.possible(opts),
    ensures
        stage.next(opts, event) is Some <==> match stage.pending(opts) {
            CheckAction::Locate => event is Located,
            CheckAction::LoadConfig => event is Configured || event is ConfigFailed,
            CheckAction::Maintain(action) => event matches CheckEvent::Maintained(e) && match action {
                Action::Probe => e is Probed,
                Action::Download => e is Downloaded || e is DownloadFailed,
                Action::Open => e is Opened || e is OpenFailed,
                Action::Update => e is Updated || e is NotARepository || e is UpdateFailed,
                Action::Describe => e is Described,
                Action::Exit(_) => false,
            },
            CheckAction::Date => event is Dated,
            CheckAction::Scan => event is Scanned || event is ScanFailed,
            CheckAction::OpenOutput => event is OutputOpened || (event is OutputFailed
                && opts.output is Some),
            CheckAction::ResolveFixes => event is Resolved,
            CheckAction::Print(_) => event is Printed || event is ReaderGone || event is PrintFailed,
            CheckAction::ApplyFixes => event is Applied,
            CheckAction::SaveIgnore => event is IgnoreSaved || event is IgnoreFailed,
            CheckAction::Exit(_) => false,
        },
        stage.pending(opts) is Exit <==> stage is Finished,
        stage is Finished ==> stage.pending(opts) == CheckAction::Exit(stage->Finished_0),
{
    if let (CheckStage::Preparing(m), CheckEvent::Maintained(e)) = (stage, event) {
        tasks_take_what_they_wait_for(m, e);
    }
}

} // verus!
