//! The coverage of one run, and the housekeeping of the counter directories.
//!
//! An instrumented machine writes counter files into a directory of its own,
//! the hot one. Two more directories serve the bookkeeping: the accumulator
//! holds the merged counters of all earlier runs, the staging directory is
//! scratch space for the merge. All file and process work is done by the
//! caller. The observer tells it what to do next, one [`CoverAction`] at a
//! time, and is told how that went, one [`CoverEvent`] at a time:
//!
//! * before a run, the hot directory is emptied, so that what is found there
//!   afterwards belongs to this run alone;
//! * after a run, the text report of the hot directory is rendered and read,
//!   the hot directory and the accumulator are merged into the emptied staging
//!   directory, the accumulator is emptied and filled from the staging
//!   directory, and the staging directory is emptied again.
//!
//! Every failure ends the cycle with an error: without the toolchain there is
//! no coverage to speak of.
use crate::report::{read_report, report_hits, texts};
use std::path::PathBuf;
use vstd::prelude::*;

verus! {

#[verifier::external_type_specification]
#[verifier::external_body]
pub struct ExPathBuf(std::path::PathBuf);

/// What `Path::join` returns for the directory `dir` and the file name `name`.
pub uninterp spec fn path_join(dir: PathBuf, name: Seq<char>) -> PathBuf;

/// Calls `Path::join`. The result is the path that [`path_join`] names.
#[verifier::external_body]
pub(crate) fn join(dir: &PathBuf, name: &str) -> (r: PathBuf)
    ensures
        r == path_join(*dir, name@),
{
    dir.join(name)
}

/// The package of the machine under test. The report is rendered for this
/// package alone.
pub const COVERED_PACKAGE: &'static str = "github.com/nspcc-dev/neo-go/pkg/vm";

/// The name of the file into which the report is rendered.
pub const PROFILE_NAME: &'static str = "profile.txt";

/// One of the three directories.
#[derive(Clone, Copy, Debug, PartialEq, Eq, Structural)]
pub enum CoverDir {
    /// Receives the counters of the current run.
    Hot,
    /// Holds the merged counters of the earlier runs.
    Accumulator,
    /// Scratch space for the merge.
    Staging,
}

/// What the caller has to do next.
#[derive(Clone, Copy, Debug, PartialEq, Eq, Structural)]
pub enum CoverAction {
    /// Delete every file in the directory.
    Clear(CoverDir),
    /// Render the counters of the hot directory as text into the profile file,
    /// for the package under test alone.
    Render,
    /// Read the profile file and hand its text in.
    Read,
    /// Merge the hot directory and the accumulator into the staging directory.
    Merge,
    /// Copy every file of the staging directory into the accumulator.
    Promote,
    /// Nothing: the cycle is complete.
    Finished,
}

/// How the last action went.
#[derive(Debug)]
pub enum CoverEvent {
    /// It was carried out.
    Done,
    /// The profile file was read, with this text.
    Report(String),
    /// It could not be carried out.
    Failed,
}

/// Why a cycle ended early.
#[derive(Clone, Copy, Debug, PartialEq, Eq, Structural)]
pub enum CoverError {
    /// This action could not be carried out.
    Failed(CoverAction),
    /// The report cannot be read.
    BadReport,
    /// The event answers no action that was asked for.
    OutOfTurn,
}

/// How far a cycle has come: the action whose outcome is awaited.
#[derive(Clone, Copy, Debug, PartialEq, Eq, Structural)]
pub enum Phase {
    /// No cycle is under way.
    Idle,
    /// Before a run: the hot directory is being emptied.
    Isolating,
    /// The report is being rendered.
    Rendering,
    /// The report is being read.
    Reading,
    /// The staging directory is being emptied for the merge.
    Clearing,
    /// The counters are being merged.
    Merging,
    /// The accumulator is being emptied.
    Dropping,
    /// The accumulator is being filled from the staging directory.
    Promoting,
    /// The staging directory is being emptied for the next cycle.
    Emptying,
}

/// The action whose outcome is awaited in a phase.
pub open spec fn awaited(phase: Phase) -> CoverAction {
    match phase {
        Phase::Idle => CoverAction::Finished,
        Phase::Isolating => CoverAction::Clear(CoverDir::Hot),
        Phase::Rendering => CoverAction::Render,
        Phase::Reading => CoverAction::Read,
        Phase::Clearing => CoverAction::Clear(CoverDir::Staging),
        Phase::Merging => CoverAction::Merge,
        Phase::Dropping => CoverAction::Clear(CoverDir::Accumulator),
        Phase::Promoting => CoverAction::Promote,
        Phase::Emptying => CoverAction::Clear(CoverDir::Staging),
    }
}

/// The phase that follows once the awaited action has been carried out.
pub open spec fn following(phase: Phase) -> Phase {
    match phase {
        Phase::Idle => Phase::Idle,
        Phase::Isolating => Phase::Idle,
        Phase::Rendering => Phase::Reading,
        Phase::Reading => Phase::Clearing,
        Phase::Clearing => Phase::Merging,
        Phase::Merging => Phase::Dropping,
        Phase::Dropping => Phase::Promoting,
        Phase::Promoting => Phase::Emptying,
        Phase::Emptying => Phase::Idle,
    }
}

/// Whether an event answers the action that is awaited in a phase: a text
/// answers the reading of the report, and `Done` every other action.
pub open spec fn answers(phase: Phase, event: CoverEvent) -> bool {
    match event {
        CoverEvent::Done => phase != Phase::Idle && phase != Phase::Reading,
        CoverEvent::Report(_) => phase == Phase::Reading,
        CoverEvent::Failed => false,
    }
}

/// What an event leads to in a phase: the next action, or the error that ends
/// the cycle.
pub open spec fn outcome(phase: Phase, event: CoverEvent) -> Result<CoverAction, CoverError> {
    match event {
        CoverEvent::Failed if phase != Phase::Idle => Err(CoverError::Failed(awaited(phase))),
        CoverEvent::Report(text) if phase == Phase::Reading => if report_hits(text@) is Some {
            Ok(awaited(following(phase)))
        } else {
            Err(CoverError::BadReport)
        },
        CoverEvent::Done if answers(phase, event) => Ok(awaited(following(phase))),
        _ => Err(CoverError::OutOfTurn),
    }
}

/// The coverage of the last run, and the state of the housekeeping.
#[derive(Debug)]
pub struct GoCoverObserver {
    coverage: Vec<String>,
    cover_dir: PathBuf,
    cover_merged_dir: PathBuf,
    cover_tmp_dir: PathBuf,
    profile_path: PathBuf,
    phase: Phase,
}

impl GoCoverObserver {
    /// The locations that the last run covered, as they are listed.
    pub closed spec fn listed(&self) -> Seq<String> {
        self.coverage@
    }

    /// The locations that the last run covered.
    pub open spec fn covered(&self) -> Set<Seq<char>> {
        texts(self.listed()).to_set()
    }

    /// One of the three directories.
    pub closed spec fn directory(&self, which: CoverDir) -> PathBuf {
        match which {
            CoverDir::Hot => self.cover_dir,
            CoverDir::Accumulator => self.cover_merged_dir,
            CoverDir::Staging => self.cover_tmp_dir,
        }
    }

    /// The file into which the report is rendered.
    pub closed spec fn profile(&self) -> PathBuf {
        self.profile_path
    }

    /// How far the current cycle has come.
    pub closed spec fn phase(&self) -> Phase {
        self.phase
    }

    /// Whether `other` has the same directories and the same profile file.
    pub open spec fn same_places(&self, other: &GoCoverObserver) -> bool {
        &&& self.profile() == other.profile()
        &&& forall|which: CoverDir| self.directory(which) == other.directory(which)
    }

    /// An observer over the three directories: `cover_dir` is the hot one,
    /// `cover_merged_dir` the accumulator, `cover_tmp_dir` the staging
    /// directory. The report goes to `profile.txt` in the hot directory.
    pub fn new(cover_dir: PathBuf, cover_merged_dir: PathBuf, cover_tmp_dir: PathBuf) -> (r:
        GoCoverObserver)
        ensures
            r.listed().len() == 0,
            r.phase() == Phase::Idle,
            r.directory(CoverDir::Hot) == cover_dir,
            r.directory(CoverDir::Accumulator) == cover_merged_dir,
            r.directory(CoverDir::Staging) == cover_tmp_dir,
            r.profile() == path_join(cover_dir, PROFILE_NAME@),
    {
        let profile_path = join(&cover_dir, PROFILE_NAME);
        GoCoverObserver {
            coverage: Vec::new(),
            cover_dir,
            cover_merged_dir,
            cover_tmp_dir,
            profile_path,
            phase: Phase::Idle,
        }
    }

    /// The locations that the last run covered, each once.
    pub fn coverage(&self) -> (r: &Vec<String>)
        ensures
            r@ == self.listed(),
    {
        &self.coverage
    }

    /// The path of one of the three directories.
    pub fn dir(&self, which: CoverDir) -> (r: &PathBuf)
        ensures
            *r == self.directory(which),
    {
        match which {
            CoverDir::Hot => &self.cover_dir,
            CoverDir::Accumulator => &self.cover_merged_dir,
            CoverDir::Staging => &self.cover_tmp_dir,
        }
    }

    /// The path of the file into which the report is rendered.
    pub fn profile_path(&self) -> (r: &PathBuf)
        ensures
            *r == self.profile(),
    {
        &self.profile_path
    }

    /// The action whose outcome is awaited.
    pub fn pending(&self) -> (r: CoverAction)
        ensures
            r == awaited(self.phase()),
    {
        match self.phase {
            Phase::Idle => CoverAction::Finished,
            Phase::Isolating => CoverAction::Clear(CoverDir::Hot),
            Phase::Rendering => CoverAction::Render,
            Phase::Reading => CoverAction::Read,
            Phase::Clearing => CoverAction::Clear(CoverDir::Staging),
            Phase::Merging => CoverAction::Merge,
            Phase::Dropping => CoverAction::Clear(CoverDir::Accumulator),
            Phase::Promoting => CoverAction::Promote,
            Phase::Emptying => CoverAction::Clear(CoverDir::Staging),
        }
    }

    /// Starts the cycle before a run: the hot directory is to be emptied.
    pub fn pre_exec(&mut self) -> (r: CoverAction)
        ensures
            r == CoverAction::Clear(CoverDir::Hot),
            final(self).phase() == Phase::Isolating,
            final(self).listed() == old(self).listed(),
            final(self).same_places(old(self)),
    {
        self.phase = Phase::Isolating;
        CoverAction::Clear(CoverDir::Hot)
    }

    /// Starts the cycle after a run: the coverage of the run before is
    /// forgotten, and the report is to be rendered.
    pub fn post_exec(&mut self) -> (r: CoverAction)
        ensures
            r == CoverAction::Render,
            final(self).phase() == Phase::Rendering,
            final(self).listed().len() == 0,
            final(self).same_places(old(self)),
    {
        self.coverage.clear();
        self.phase = Phase::Rendering;
        CoverAction::Render
    }

    /// Takes in how the awaited action went and returns what to do next.
    ///
    /// The text of the report becomes the coverage of this run, if it can be
    /// read. A failure, a report that cannot be read, and an event that
    /// answers no awaited action end the cycle with an error.
    pub fn advance(&mut self, event: CoverEvent) -> (r: Result<CoverAction, CoverError>)
        ensures
            r == outcome(old(self).phase(), event),
            final(self).phase() == if r is Ok {
                following(old(self).phase())
            } else {
                Phase::Idle
            },
            final(self).same_places(old(self)),
            match event {
                CoverEvent::Report(text) if r is Ok => {
                    &&& final(self).covered() == report_hits(text@)->0
                    &&& texts(final(self).listed()).no_duplicates()
                },
                _ => final(self).listed() == old(self).listed(),
            },
    {
        let phase = self.phase;
        self.phase = Phase::Idle;
        let next = match phase {
            Phase::Idle => Phase::Idle,
            Phase::Isolating => Phase::Idle,
            Phase::Rendering => Phase::Reading,
            Phase::Reading => Phase::Clearing,
            Phase::Clearing => Phase::Merging,
            Phase::Merging => Phase::Dropping,
            Phase::Dropping => Phase::Promoting,
            Phase::Promoting => Phase::Emptying,
            Phase::Emptying => Phase::Idle,
        };
        let idle = match phase {
            Phase::Idle => true,
            _ => false,
        };
        let reading = match phase {
            Phase::Reading => true,
            _ => false,
        };
        match event {
            CoverEvent::Failed => {
                if idle {
                    Err(CoverError::OutOfTurn)
                } else {
                    self.phase = phase;
                    let failed = self.pending();
                    self.phase = Phase::Idle;
                    Err(CoverError::Failed(failed))
                }
            },
            CoverEvent::Report(text) => {
                if !reading {
                    return Err(CoverError::OutOfTurn);
                }
                match read_report(text.as_str()) {
                    Ok(found) => {
                        self.coverage = found;
                        self.phase = next;
                        Ok(self.pending())
                    },
                    Err(_) => Err(CoverError::BadReport),
                }
            },
            CoverEvent::Done => {
                if idle || reading {
                    return Err(CoverError::OutOfTurn);
                }
                self.phase = next;
                Ok(self.pending())
            },
        }
    }
}

} // verus!
