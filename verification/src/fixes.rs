//! Locking fixed versions of affected gems.
//!
//! The lockfile is replaced as a whole: the new text goes to a temporary file,
//! which then takes the lockfile's place. As with other tasks, `action` says what
//! is to be done next and `step` takes what came of it.

use vstd::prelude::*;

use crate::maintenance::{lines_of, no_lines, say, say_nothing};
use crate::text::{decimal, decimal_text, join2};

verus! {

/// What came of looking for a fixed version of one gem.
#[derive(Debug)]
pub enum FixResult<F, U> {
    /// There is one.
    Fixed(F),
    /// There is none to be had; what is known of that.
    Unfixed(U),
}

/// Being a fix.
pub open spec fn is_fix<F, U>() -> spec_fn(FixResult<F, U>) -> bool {
    |r: FixResult<F, U>| r is Fixed
}

/// The fixes among `results`, in order.
pub open spec fn fixes_in<F, U>(results: Seq<FixResult<F, U>>) -> Seq<F> {
    results.filter(is_fix()).map_values(|r: FixResult<F, U>| r->Fixed_0)
}

/// Picks the fixes out of `results`.
pub fn select_fixes<F, U>(results: Vec<FixResult<F, U>>) -> (fixes: Vec<F>)
    ensures
        fixes@ == fixes_in(results@),
{
    let ghost all = results@;
    let mut fixes: Vec<F> = Vec::new();
    proof {
        reveal(Seq::filter);
        assert(fixes@ =~= fixes_in(all.take(0)));
    }
    for result in it: results
        invariant
            it.seq() == all,
            fixes@ == fixes_in(all.take(it.index() as int)),
    {
        let ghost n = it.index() as int;
        proof {
            reveal(Seq::filter);
            assert(all.take(n + 1).drop_last() =~= all.take(n));
            assert(fixes_in(all.take(n + 1)) =~= match all[n] {
                FixResult::Fixed(f) => fixes_in(all.take(n)).push(f),
                FixResult::Unfixed(_) => fixes_in(all.take(n)),
            });
        }
        match result {
            FixResult::Fixed(f) => fixes.push(f),
            FixResult::Unfixed(_) => {},
        }
    }
    assert(all.take(all.len() as int) =~= all);
    fixes
}

/// How far locking fixes has come: what it waits for.
#[derive(Clone, Copy, Debug, PartialEq, Eq, Structural)]
pub enum ApplyStage {
    /// The lockfile being read.
    Reading,
    /// The fixed versions being put into its text.
    Patching,
    /// The new text being written to the temporary file.
    Writing {
        /// How many gems were fixed in the text.
        patched: usize,
    },
    /// The temporary file taking the lockfile's place.
    Replacing {
        /// How many gems were fixed in the text.
        patched: usize,
    },
    /// The temporary file being removed.
    CleaningUp,
    /// Nothing: it is over.
    Finished,
}

/// What the front end does to lock fixes.
#[derive(Clone, Copy, Debug, PartialEq, Eq, Structural)]
pub enum ApplyAction {
    /// Read the lockfile.
    Read,
    /// Put the fixed versions into its text.
    Patch,
    /// Write the new text to the temporary file.
    Write,
    /// Have the temporary file take the lockfile's place.
    Replace,
    /// Remove the temporary file.
    Remove,
    /// Nothing more.
    Stop,
}

/// What came of an action.
#[derive(Debug)]
pub enum ApplyEvent {
    /// The lockfile was read.
    Read,
    /// The lockfile could not be read, for this reason.
    ReadFailed(String),
    /// So many gems were fixed in the text.
    Patched(usize),
    /// The temporary file was written.
    Written,
    /// The temporary file could not be written, for this reason.
    WriteFailed(String),
    /// The temporary file has taken the lockfile's place.
    Replaced,
    /// The temporary file could not take the lockfile's place, for this reason.
    ReplaceFailed(String),
    /// Removing the temporary file is over.
    Removed,
}

impl ApplyStage {
    /// Where it goes from here when `event` comes, and what the user is told, where
    /// the lockfile is at `path`. Nowhere, where it does not wait for such an event.
    pub open spec fn next(self, path: Seq<char>, event: ApplyEvent) -> Option<
        (ApplyStage, Seq<Seq<char>>),
    > {
        match (self, event) {
            (ApplyStage::Reading, ApplyEvent::Read) => Some((ApplyStage::Patching, say_nothing())),
            (ApplyStage::Reading, ApplyEvent::ReadFailed(reason)) => Some(
                (
                    ApplyStage::Finished,
                    say("error: failed to read "@ + path + ": "@ + reason@),
                ),
            ),
            (ApplyStage::Patching, ApplyEvent::Patched(patched)) => if patched > 0 {
                Some((ApplyStage::Writing { patched }, say_nothing()))
            } else {
                Some((ApplyStage::Finished, say_nothing()))
            },
            (ApplyStage::Writing { patched }, ApplyEvent::Written) => Some(
                (ApplyStage::Replacing { patched }, say_nothing()),
            ),
            (ApplyStage::Writing { .. }, ApplyEvent::WriteFailed(reason)) => Some(
                (
                    ApplyStage::Finished,
                    say("error: failed to write temporary file: "@ + reason@),
                ),
            ),
            (ApplyStage::Replacing { patched }, ApplyEvent::Replaced) => Some(
                (
                    ApplyStage::Finished,
                    say(
                        "\nFixed "@ + decimal_text(patched as nat) + " gem(s) in "@ + path
                            + ". Run `bundle install` to install the updated versions."@,
                    ),
                ),
            ),
            (ApplyStage::Replacing { .. }, ApplyEvent::ReplaceFailed(reason)) => Some(
                (
                    ApplyStage::CleaningUp,
                    say("error: failed to write Gemfile.lock: "@ + reason@),
                ),
            ),
            (ApplyStage::CleaningUp, ApplyEvent::Removed) => Some(
                (ApplyStage::Finished, say_nothing()),
            ),
            _ => None,
        }
    }

    /// About to lock so many fixes. Where there are none, it is over at once.
    pub open spec fn begun(fixes: nat) -> ApplyStage {
        if fixes == 0 {
            ApplyStage::Finished
        } else {
            ApplyStage::Reading
        }
    }

    /// What it waits for.
    pub open spec fn pending(self) -> ApplyAction {
        match self {
            ApplyStage::Reading => ApplyAction::Read,
            ApplyStage::Patching => ApplyAction::Patch,
            ApplyStage::Writing { .. } => ApplyAction::Write,
            ApplyStage::Replacing { .. } => ApplyAction::Replace,
            ApplyStage::CleaningUp => ApplyAction::Remove,
            ApplyStage::Finished => ApplyAction::Stop,
        }
    }

    /// Begins to lock so many fixes. Where there are none, it is over at once.
    pub fn begin(fixes: usize) -> (stage: ApplyStage)
        ensures
            stage == ApplyStage::begun(fixes as nat),
    {
        if fixes == 0 {
            ApplyStage::Finished
        } else {
            ApplyStage::Reading
        }
    }

    /// What is to be done next.
    pub fn action(self) -> (action: ApplyAction)
        ensures
            action == self.pending(),
    {
        match self {
            ApplyStage::Reading => ApplyAction::Read,
            ApplyStage::Patching => ApplyAction::Patch,
            ApplyStage::Writing { .. } => ApplyAction::Write,
            ApplyStage::Replacing { .. } => ApplyAction::Replace,
            ApplyStage::CleaningUp => ApplyAction::Remove,
            ApplyStage::Finished => ApplyAction::Stop,
        }
    }

    /// Goes on when `event` comes: where it goes, and what the user is told. `None`
    /// where it does not wait for such an event.
    pub fn step(self, path: &str, event: &ApplyEvent) -> (step: Option<(ApplyStage, Vec<String>)>)
        ensures
            step is Some <==> self.next(path@, *event) is Some,
            step matches Some((stage, lines)) ==> self.next(path@, *event) == Some(
                (stage, lines.deep_view()),
            ),
    {
        match (self, event) {
            (ApplyStage::Reading, ApplyEvent::Read) => Some((ApplyStage::Patching, no_lines())),
            (ApplyStage::Reading, ApplyEvent::ReadFailed(reason)) => {
                let mut line = join2("error: failed to read ", path);
                line.append(": ");
                line.append(reason.as_str());
                Some((ApplyStage::Finished, lines_of(line)))
            },
            (ApplyStage::Patching, ApplyEvent::Patched(patched)) => if *patched > 0 {
                Some((ApplyStage::Writing { patched: *patched }, no_lines()))
            } else {
                Some((ApplyStage::Finished, no_lines()))
            },
            (ApplyStage::Writing { patched }, ApplyEvent::Written) => Some(
                (ApplyStage::Replacing { patched }, no_lines()),
            ),
            (ApplyStage::Writing { .. }, ApplyEvent::WriteFailed(reason)) => Some(
                (
                    ApplyStage::Finished,
                    lines_of(join2("error: failed to write temporary file: ", reason.as_str())),
                ),
            ),
            (ApplyStage::Replacing { patched }, ApplyEvent::Replaced) => {
                let mut line = join2("\nFixed ", decimal(patched as u64).as_str());
                line.append(" gem(s) in ");
                line.append(path);
                line.append(". Run `bundle install` to install the updated versions.");
                Some((ApplyStage::Finished, lines_of(line)))
            },
            (ApplyStage::Replacing { .. }, ApplyEvent::ReplaceFailed(reason)) => Some(
                (
                    ApplyStage::CleaningUp,
                    lines_of(join2("error: failed to write Gemfile.lock: ", reason.as_str())),
                ),
            ),
            (ApplyStage::CleaningUp, ApplyEvent::Removed) => Some(
                (ApplyStage::Finished, no_lines()),
            ),
            _ => None,
        }
    }

    /// A bound on the number of steps to the end.
    pub open spec fn steps_left(self) -> nat {
        match self {
            ApplyStage::Reading => 5,
            ApplyStage::Patching => 4,
            ApplyStage::Writing { .. } => 3,
            ApplyStage::Replacing { .. } => 2,
            ApplyStage::CleaningUp => 1,
            ApplyStage::Finished => 0,
        }
    }
}

/// Locking fixes ends after five steps at most.
pub proof fn applying_ends(stage: ApplyStage, path: Seq<char>, event: ApplyEvent)
    ensures
        stage.steps_left() <= 5,
        stage.next(path, event) matches Some((n, _)) ==> n.steps_left() < stage.steps_left(),
        stage is Finished ==> stage.next(path, event) is None,
{
}

/// The lockfile is touched only when its text has changed and the new text stands
/// in full in the temporary file: replacing it is waited for only after the
/// temporary file was written, and that only after a gem was fixed.
pub proof fn replaced_only_by_whole_files(stage: ApplyStage, path: Seq<char>, event: ApplyEvent)
    ensures
        stage.next(path, event) matches Some((n, _)) ==> {
            &&& n is Replacing ==> event is Written && stage == (ApplyStage::Writing {
                patched: n->Replacing_patched,
            })
            &&& n is Writing ==> stage is Patching && event == ApplyEvent::Patched(
                n->Writing_patched,
            ) && n->Writing_patched > 0
            &&& stage is Replacing && event is ReplaceFailed ==> n is CleaningUp
        },
{
}

/// What every action would come to, wherever locking fixes gets to it.
pub struct ApplySurroundings {
    /// Why the lockfile cannot be read, if it cannot.
    pub read_failure: Option<String>,
    /// How many gems are fixed in its text.
    pub patched: usize,
    /// Why the temporary file cannot be written, if it cannot.
    pub write_failure: Option<String>,
    /// Why the temporary file cannot take the lockfile's place, if it cannot.
    pub replace_failure: Option<String>,
}

impl ApplySurroundings {
    /// What comes of what is waited for.
    pub open spec fn reply(self, stage: ApplyStage) -> ApplyEvent {
        match stage {
            ApplyStage::Reading => match self.read_failure {
                None => ApplyEvent::Read,
                Some(reason) => ApplyEvent::ReadFailed(reason),
            },
            ApplyStage::Patching => ApplyEvent::Patched(self.patched),
            ApplyStage::Writing { .. } => match self.write_failure {
                None => ApplyEvent::Written,
                Some(reason) => ApplyEvent::WriteFailed(reason),
            },
            ApplyStage::Replacing { .. } => match self.replace_failure {
                None => ApplyEvent::Replaced,
                Some(reason) => ApplyEvent::ReplaceFailed(reason),
            },
            _ => ApplyEvent::Removed,
        }
    }

    /// Where locking fixes ends here.
    pub open spec fn end_of(self, path: Seq<char>, stage: ApplyStage) -> ApplyStage
        decreases stage.steps_left(),
    {
        match stage.next(path, self.reply(stage)) {
            Some((n, _)) if n.steps_left() < stage.steps_left() => self.end_of(path, n),
            _ => stage,
        }
    }

    /// Whether an action is waited for on the way from `stage` to the end.
    pub open spec fn asks_for(
        self,
        path: Seq<char>,
        stage: ApplyStage,
        action: ApplyAction,
    ) -> bool
        decreases stage.steps_left(),
    {
        stage.pending() == action || match stage.next(path, self.reply(stage)) {
            Some((n, _)) if n.steps_left() < stage.steps_left() => self.asks_for(path, n, action),
            _ => false,
        }
    }

    /// What the user is told on the way from `stage` to the end.
    pub open spec fn told(self, path: Seq<char>, stage: ApplyStage) -> Seq<Seq<char>>
        decreases stage.steps_left(),
    {
        match stage.next(path, self.reply(stage)) {
            Some((n, lines)) if n.steps_left() < stage.steps_left() => lines + self.told(path, n),
            _ => say_nothing(),
        }
    }

    /// Whether the new text of the lockfile comes to stand in the temporary file,
    /// where there are so many fixes to lock.
    pub open spec fn new_text_stands(self, fixes: nat) -> bool {
        &&& fixes > 0
        &&& self.read_failure is None
        &&& self.patched > 0
        &&& self.write_failure is None
    }
}

/// How locking fixes ends, and what is done on the way, in terms of its
/// surroundings alone: it always comes to its end; the temporary file is written
/// exactly where there are fixes, the lockfile can be read and a gem was fixed in
/// its text; it takes the lockfile's place exactly where it was written as well;
/// and it is removed exactly where it could not do so.
pub proof fn fixes_are_locked_as_told(world: ApplySurroundings, path: Seq<char>, fixes: nat)
    ensures
        ({
            let start = ApplyStage::begun(fixes);
            &&& world.end_of(path, start) == ApplyStage::Finished
            &&& world.asks_for(path, start, ApplyAction::Read) <==> fixes > 0
            &&& world.asks_for(path, start, ApplyAction::Write) <==> fixes > 0
                && world.read_failure is None && world.patched > 0
            &&& world.asks_for(path, start, ApplyAction::Replace) <==> world.new_text_stands(fixes)
            &&& world.asks_for(path, start, ApplyAction::Remove) <==> world.new_text_stands(fixes)
                && world.replace_failure is Some
        }),
{
    reveal_with_fuel(ApplySurroundings::end_of, 6);
    reveal_with_fuel(ApplySurroundings::asks_for, 6);
}

/// What the user is told when fixes are locked: of the first thing that goes wrong,
/// of the gems that were fixed where nothing does, and nothing where there is
/// nothing to fix.
pub proof fn locking_fixes_is_told(world: ApplySurroundings, path: Seq<char>, fixes: nat)
    ensures
        world.told(path, ApplyStage::begun(fixes)) == if fixes == 0 {
            say_nothing()
        } else if world.read_failure is Some {
            say("error: failed to read "@ + path + ": "@ + world.read_failure->0@)
        } else if world.patched == 0 {
            say_nothing()
        } else if world.write_failure is Some {
            say("error: failed to write temporary file: "@ + world.write_failure->0@)
        } else if world.replace_failure is Some {
            say("error: failed to write Gemfile.lock: "@ + world.replace_failure->0@)
        } else {
            say(
                "\nFixed "@ + decimal_text(world.patched as nat) + " gem(s) in "@ + path
                    + ". Run `bundle install` to install the updated versions."@,
            )
        },
{
    reveal_with_fuel(ApplySurroundings::told, 6);
    assert forall|lines: Seq<Seq<char>>| #[trigger] (say_nothing() + lines) == lines by {
        assert(say_nothing() + lines =~= lines);
    }
    assert forall|lines: Seq<Seq<char>>| #[trigger] (lines + say_nothing()) == lines by {
        assert(lines + say_nothing() =~= lines);
    }
}

} // verus!
