//! The rules by which two runs of one input count as diverging.
//!
//! The rules are tried in a fixed order and the first that applies decides:
//! a crash of one machine alone, then differing stacks after a normal end of
//! both, then differing statuses. The order keeps benign differences out of the
//! findings, so [`verdict`] spells it out.
use crate::input::{base64_standard, ByteCodeInput};
use crate::output::{
    output_view, parse_captured, received, same_stack, stacks_equal, Output, OutputView,
};
use vstd::prelude::*;

verus! {

/// How the run of one of the two machines ended.
#[derive(Clone, Copy, Debug, PartialEq, Eq, Structural)]
pub enum DiffExitKind {
    /// The run ended normally.
    Normal,
    /// The machine crashed.
    Crash,
    /// The machine ran out of memory.
    Oom,
    /// The run took too long.
    Timeout,
    /// The executor of this machine reported a difference of its own.
    Diff,
}

/// How the run of both machines ended.
#[derive(Clone, Copy, Debug, PartialEq, Eq, Structural)]
pub enum ExitKind {
    /// Both runs ended normally.
    Normal,
    /// Both machines crashed.
    Crash,
    /// Both machines ran out of memory.
    Oom,
    /// Both runs took too long.
    Timeout,
    /// The two runs ended in different ways.
    Diff { primary: DiffExitKind, secondary: DiffExitKind },
}

/// Why two runs count as diverging.
#[derive(Clone, Copy, Debug, PartialEq, Eq, Structural)]
pub enum Cause {
    /// One machine crashed and the other did not.
    ExitCode { primary: DiffExitKind, secondary: DiffExitKind },
    /// Both runs ended normally, with different stacks.
    Stack,
    /// The runs ended with different statuses.
    Status,
}

/// The status that a run reports when it ends normally.
pub open spec fn halted() -> Seq<char> {
    "VM halted"@
}

/// Whether exactly one of the two machines crashed.
pub open spec fn one_crashed(exit: ExitKind) -> bool {
    match exit {
        ExitKind::Diff { primary, secondary } => (primary == DiffExitKind::Crash) != (secondary
            == DiffExitKind::Crash),
        _ => false,
    }
}

/// The decision on one pair of runs: `None` where they do not diverge, else the
/// cause. `fst` and `snd` are the outputs of the two machines, absent where a
/// machine printed nothing that could be read.
pub open spec fn verdict(
    exit: ExitKind,
    fst: Option<OutputView>,
    snd: Option<OutputView>,
    detect_status_diff: bool,
    detect_crash_diff: bool,
) -> Option<Cause> {
    if detect_crash_diff && one_crashed(exit) {
        Some(Cause::ExitCode { primary: exit->primary, secondary: exit->secondary })
    } else {
        match (fst, snd) {
            (Some(a), Some(b)) => if a.status == b.status {
                if a.status == halted() && !same_stack(a.estack, b.estack) {
                    Some(Cause::Stack)
                } else {
                    None
                }
            } else if detect_status_diff {
                Some(Cause::Status)
            } else {
                None
            },
            _ => None,
        }
    }
}

impl DiffExitKind {
    /// The name of this way to end, as it appears in a cause.
    pub open spec fn name(self) -> Seq<char> {
        match self {
            DiffExitKind::Normal => "Ok"@,
            DiffExitKind::Crash => "Crash"@,
            DiffExitKind::Oom => "Oom"@,
            DiffExitKind::Timeout => "Timeout"@,
            DiffExitKind::Diff => "Diff"@,
        }
    }

    /// The name of this way to end.
    pub fn to_string(&self) -> (r: String)
        ensures
            r@ == self.name(),
    {
        match self {
            DiffExitKind::Normal => String::from_str("Ok"),
            DiffExitKind::Crash => String::from_str("Crash"),
            DiffExitKind::Oom => String::from_str("Oom"),
            DiffExitKind::Timeout => String::from_str("Timeout"),
            DiffExitKind::Diff => String::from_str("Diff"),
        }
    }
}

impl Cause {
    /// The cause in words, as it is written into a finding.
    pub open spec fn text(self) -> Seq<char> {
        match self {
            Cause::ExitCode { primary, secondary } => "different exit code: "@ + primary.name()
                + " / "@ + secondary.name(),
            Cause::Stack => "different stack"@,
            Cause::Status => "different status"@,
        }
    }

    /// The cause in words.
    pub fn to_string(&self) -> (r: String)
        ensures
            r@ == self.text(),
    {
        match self {
            Cause::ExitCode { primary, secondary } => {
                let mut words = String::from_str("different exit code: ");
                let first = primary.to_string();
                words.append(first.as_str());
                words.append(" / ");
                let second = secondary.to_string();
                words.append(second.as_str());
                words
            },
            Cause::Stack => String::from_str("different stack"),
            Cause::Status => String::from_str("different status"),
        }
    }
}

/// The decision depends on the two outputs, on the way the runs ended and on
/// the two flags, and on nothing else: pairs of runs that agree in these get the
/// same decision, the same cause and the same record.
pub proof fn verdict_is_deterministic(
    input: Seq<u8>,
    exit: ExitKind,
    fst: Option<OutputView>,
    snd: Option<OutputView>,
    detect_status_diff: bool,
    detect_crash_diff: bool,
    input2: Seq<u8>,
    exit2: ExitKind,
    fst2: Option<OutputView>,
    snd2: Option<OutputView>,
    detect_status_diff2: bool,
    detect_crash_diff2: bool,
)
    requires
        input == input2,
        exit == exit2,
        fst == fst2,
        snd == snd2,
        detect_status_diff == detect_status_diff2,
        detect_crash_diff == detect_crash_diff2,
    ensures
        verdict(exit, fst, snd, detect_status_diff, detect_crash_diff) == verdict(
            exit2,
            fst2,
            snd2,
            detect_status_diff2,
            detect_crash_diff2,
        ),
        record_of(input, fst, snd, verdict(exit, fst, snd, detect_status_diff, detect_crash_diff))
            == record_of(
            input2,
            fst2,
            snd2,
            verdict(exit2, fst2, snd2, detect_status_diff2, detect_crash_diff2),
        ),
{
}

/// A crash of one machine alone is a divergence whatever the two machines
/// printed, readable or not, as long as crashes are looked for.
pub proof fn crash_takes_precedence(
    exit: ExitKind,
    fst: Option<OutputView>,
    snd: Option<OutputView>,
    detect_status_diff: bool,
)
    requires
        one_crashed(exit),
    ensures
        verdict(exit, fst, snd, detect_status_diff, true) == Some(
            Cause::ExitCode { primary: exit->primary, secondary: exit->secondary },
        ),
{
}

/// Where the crash rule does not apply, two outputs with different statuses
/// diverge exactly if status differences are looked for.
pub proof fn status_difference_is_gated(
    exit: ExitKind,
    a: OutputView,
    b: OutputView,
    detect_status_diff: bool,
    detect_crash_diff: bool,
)
    requires
        a.status != b.status,
        !(detect_crash_diff && one_crashed(exit)),
    ensures
        verdict(exit, Some(a), Some(b), detect_status_diff, detect_crash_diff) == if detect_status_diff {
            Some(Cause::Status)
        } else {
            None
        },
{
}

/// Where the crash rule does not apply, two normal ends with different stacks
/// diverge, and two outputs with the same status do not diverge otherwise.
pub proof fn same_status_diverges_on_stacks_only(
    exit: ExitKind,
    a: OutputView,
    b: OutputView,
    detect_status_diff: bool,
    detect_crash_diff: bool,
)
    requires
        a.status == b.status,
        !(detect_crash_diff && one_crashed(exit)),
    ensures
        verdict(exit, Some(a), Some(b), detect_status_diff, detect_crash_diff) == if a.status
            == halted() && !same_stack(a.estack, b.estack) {
            Some(Cause::Stack)
        } else {
            None
        },
{
}

/// Where the crash rule does not apply, a pair of runs of which one printed
/// nothing readable does not diverge.
pub proof fn unreadable_output_does_not_diverge(
    exit: ExitKind,
    fst: Option<OutputView>,
    snd: Option<OutputView>,
    detect_status_diff: bool,
    detect_crash_diff: bool,
)
    requires
        fst is None || snd is None,
        !(detect_crash_diff && one_crashed(exit)),
    ensures
        verdict(exit, fst, snd, detect_status_diff, detect_crash_diff) is None,
{
}

/// Decides whether two runs diverge, from their outputs and the way they ended.
pub fn classify(
    exit_kind: &ExitKind,
    fst: &Option<Output>,
    snd: &Option<Output>,
    detect_status_diff: bool,
    detect_crash_diff: bool,
) -> (r: Option<Cause>)
    ensures
        r == verdict(
            *exit_kind,
            output_view(*fst),
            output_view(*snd),
            detect_status_diff,
            detect_crash_diff,
        ),
{
    if detect_crash_diff {
        match exit_kind {
            ExitKind::Diff { primary, secondary } => {
                let first_crashed = match primary {
                    DiffExitKind::Crash => true,
                    _ => false,
                };
                let second_crashed = match secondary {
                    DiffExitKind::Crash => true,
                    _ => false,
                };
                if first_crashed != second_crashed {
                    return Some(Cause::ExitCode { primary: *primary, secondary: *secondary });
                }
            },
            _ => {},
        }
    }
    match (fst, snd) {
        (Some(a), Some(b)) => {
            if a.status == b.status {
                let normal = String::from_str("VM halted");
                if a.status == normal && !stacks_equal(&a.estack, &b.estack) {
                    Some(Cause::Stack)
                } else {
                    None
                }
            } else if detect_status_diff {
                Some(Cause::Status)
            } else {
                None
            }
        },
        _ => None,
    }
}

/// What is kept of a pair of diverging runs, so that the finding can be judged
/// later. All four fields are empty after a pair that did not diverge.
#[derive(Debug)]
pub struct DiffStdOutMetadata {
    /// The input, in base64.
    pub base64: Option<String>,
    /// The output of the first machine, if it could be read.
    pub fst: Option<Output>,
    /// The output of the second machine, if it could be read.
    pub snd: Option<Output>,
    /// The cause, in words.
    pub cause: Option<String>,
}

/// A [`DiffStdOutMetadata`] as contracts see it.
pub struct DiffStdOutMetadataView {
    pub base64: Option<Seq<char>>,
    pub fst: Option<OutputView>,
    pub snd: Option<OutputView>,
    pub cause: Option<Seq<char>>,
}

/// A text that may be absent, by its view.
pub open spec fn text_view(s: Option<String>) -> Option<Seq<char>> {
    match s {
        Some(t) => Some(t@),
        None => None,
    }
}

impl View for DiffStdOutMetadata {
    type V = DiffStdOutMetadataView;

    open spec fn view(&self) -> DiffStdOutMetadataView {
        DiffStdOutMetadataView {
            base64: text_view(self.base64),
            fst: output_view(self.fst),
            snd: output_view(self.snd),
            cause: text_view(self.cause),
        }
    }
}

/// What is kept of one pair of runs: nothing where they do not diverge, else
/// the input in base64, both outputs as far as they could be read, and the cause.
pub open spec fn record_of(
    input: Seq<u8>,
    fst: Option<OutputView>,
    snd: Option<OutputView>,
    cause: Option<Cause>,
) -> DiffStdOutMetadataView {
    match cause {
        Some(c) => DiffStdOutMetadataView {
            base64: Some(base64_standard(input)),
            fst,
            snd,
            cause: Some(c.text()),
        },
        None => DiffStdOutMetadataView { base64: None, fst: None, snd: None, cause: None },
    }
}

impl Default for DiffStdOutMetadata {
    fn default() -> (r: Self)
        ensures
            r@ == record_of(Seq::empty(), None, None, None),
    {
        DiffStdOutMetadata { base64: None, fst: None, snd: None, cause: None }
    }
}

impl Clone for DiffStdOutMetadata {
    fn clone(&self) -> (r: Self)
        ensures
            r@ == self@,
    {
        DiffStdOutMetadata {
            base64: match &self.base64 {
                Some(t) => Some(t.clone()),
                None => None,
            },
            fst: match &self.fst {
                Some(o) => Some(o.clone()),
                None => None,
            },
            snd: match &self.snd {
                Some(o) => Some(o.clone()),
                None => None,
            },
            cause: match &self.cause {
                Some(t) => Some(t.clone()),
                None => None,
            },
        }
    }
}

/// The oracle: it judges each pair of runs by the rules of [`verdict`] and keeps
/// the record of the last pair it judged. The two flags are fixed when it is made.
pub struct DiffStdOutObjective {
    diff_std_out_metadata: DiffStdOutMetadata,
    detect_status_diff: bool,
    detect_crash_diff: bool,
}

impl DiffStdOutObjective {
    /// Whether differing statuses count as a divergence.
    pub closed spec fn status_diff(&self) -> bool {
        self.detect_status_diff
    }

    /// Whether a crash of one machine alone counts as a divergence.
    pub closed spec fn crash_diff(&self) -> bool {
        self.detect_crash_diff
    }

    /// The record of the last pair of runs.
    pub closed spec fn record(&self) -> DiffStdOutMetadataView {
        self.diff_std_out_metadata@
    }

    /// An oracle with the given flags and an empty record.
    pub fn new(detect_status_diff: bool, detect_crash_diff: bool) -> (r: DiffStdOutObjective)
        ensures
            r.status_diff() == detect_status_diff,
            r.crash_diff() == detect_crash_diff,
            r.record() == record_of(Seq::empty(), None, None, None),
    {
        DiffStdOutObjective {
            diff_std_out_metadata: DiffStdOutMetadata::default(),
            detect_status_diff,
            detect_crash_diff,
        }
    }

    /// Whether differing statuses count as a divergence.
    pub fn detect_status_diff(&self) -> (r: bool)
        ensures
            r == self.status_diff(),
    {
        self.detect_status_diff
    }

    /// Whether a crash of one machine alone counts as a divergence.
    pub fn detect_crash_diff(&self) -> (r: bool)
        ensures
            r == self.crash_diff(),
    {
        self.detect_crash_diff
    }

    /// The record of the last pair of runs.
    pub fn metadata(&self) -> (r: &DiffStdOutMetadata)
        ensures
            r@ == self.record(),
    {
        &self.diff_std_out_metadata
    }

    /// Judges one pair of runs of `input`. `fst_out` and `snd_out` are what the
    /// two machines printed, `exit_kind` is how the runs ended. Returns whether
    /// the runs diverge, and replaces the record by that of this pair.
    pub fn is_interesting(
        &mut self,
        input: &ByteCodeInput,
        fst_out: &Option<Vec<u8>>,
        snd_out: &Option<Vec<u8>>,
        exit_kind: &ExitKind,
    ) -> (r: bool)
        requires
            input.encodable(),
        ensures
            final(self).status_diff() == old(self).status_diff(),
            final(self).crash_diff() == old(self).crash_diff(),
            r == verdict(
                *exit_kind,
                received(*fst_out),
                received(*snd_out),
                old(self).status_diff(),
                old(self).crash_diff(),
            ) is Some,
            final(self).record() == record_of(
                input@,
                received(*fst_out),
                received(*snd_out),
                verdict(
                    *exit_kind,
                    received(*fst_out),
                    received(*snd_out),
                    old(self).status_diff(),
                    old(self).crash_diff(),
                ),
            ),
    {
        let fst = parse_captured(fst_out);
        let snd = parse_captured(snd_out);
        match classify(exit_kind, &fst, &snd, self.detect_status_diff, self.detect_crash_diff) {
            Some(cause) => {
                self.diff_std_out_metadata = DiffStdOutMetadata {
                    base64: Some(input.as_standard_base64()),
                    fst,
                    snd,
                    cause: Some(cause.to_string()),
                };
                true
            },
            None => {
                self.diff_std_out_metadata = DiffStdOutMetadata::default();
                false
            },
        }
    }

    /// A copy of the record of the last pair of runs, to be attached to the
    /// finding.
    pub fn append_metadata(&self) -> (r: DiffStdOutMetadata)
        ensures
            r@ == self.record(),
    {
        self.diff_std_out_metadata.clone()
    }
}

} // verus!
