//! The steps of looking at one repository: which invocations of the
//! version-control tool are made, in which order, and what can come of one.

use vstd::prelude::*;

use crate::marker::Marker;
use crate::options::Opt;
use crate::text::texts;

verus! {

/// One invocation of the version-control tool in a repository.
#[derive(Clone, Copy, Debug, PartialEq, Eq, Structural)]
pub enum ProbeStep {
    /// Refresh what is known of the remote.
    Fetch,
    /// Bring the working tree up to date with the remote.
    Pull,
    /// Ask for the machine-readable status report, branch line included.
    Status,
    /// Ask, by exit status alone, whether the working tree differs from the
    /// last commit.
    Diff,
}

/// What came of running one step.
#[derive(Clone, Debug, PartialEq, Eq)]
pub enum Outcome {
    /// The tool could not be started.
    NotStarted,
    /// The tool ran to its end.
    Exited {
        /// Whether it exited with status zero.
        success: bool,
        /// Everything it wrote to its standard output.
        stdout: String,
    },
}

/// Why a step of a probe did not do its work. None of these ends the run.
#[derive(Clone, Copy, Debug, PartialEq, Eq, Structural)]
pub enum ProbeError {
    /// The tool could not be started for the step.
    NotStarted(ProbeStep),
    /// The step ran and exited with a status other than zero.
    Failed(ProbeStep),
    /// The regular expression of the marker was refused.
    Pattern(Marker),
}

/// One invocation of the tool, ready to be run: nothing of it is left to the
/// state of the process, its working directory least of all.
#[derive(Clone, Debug, PartialEq, Eq)]
pub struct Invocation {
    /// Name of the program.
    pub program: String,
    /// Its arguments, in order.
    pub arguments: Vec<String>,
    /// The directory in which it runs.
    pub directory: String,
}

/// Name of the version-control tool.
pub open spec fn tool() -> Seq<char> {
    "git"@
}

impl Outcome {
    /// Whether the tool ran and exited with a status other than zero.
    pub open spec fn failed(self) -> bool {
        self matches Outcome::Exited { success, .. } && !success
    }
}

impl ProbeStep {
    /// Position of the step in the fixed order of a probe.
    pub open spec fn rank(self) -> int {
        match self {
            ProbeStep::Fetch => 0,
            ProbeStep::Pull => 1,
            ProbeStep::Status => 2,
            ProbeStep::Diff => 3,
        }
    }

    /// The arguments that the tool is given for this step.
    pub open spec fn arguments(self) -> Seq<Seq<char>> {
        match self {
            ProbeStep::Fetch => seq!["fetch"@],
            ProbeStep::Pull => seq!["pull"@],
            ProbeStep::Status => seq!["status"@, "--porcelain"@, "--branch"@],
            ProbeStep::Diff => seq!["diff"@, "--quiet"@],
        }
    }

    /// The invocation that performs this step on the repository at
    /// `directory`.
    pub fn invocation(self, directory: &str) -> (invocation: Invocation)
        ensures
            invocation.program@ == tool(),
            texts(invocation.arguments@) == self.arguments(),
            invocation.directory@ == directory@,
    {
        let mut arguments: Vec<String> = Vec::new();
        match self {
            ProbeStep::Fetch => {
                arguments.push("fetch".to_owned());
            },
            ProbeStep::Pull => {
                arguments.push("pull".to_owned());
            },
            ProbeStep::Status => {
                arguments.push("status".to_owned());
                arguments.push("--porcelain".to_owned());
                arguments.push("--branch".to_owned());
            },
            ProbeStep::Diff => {
                arguments.push("diff".to_owned());
                arguments.push("--quiet".to_owned());
            },
        }
        assert(texts(arguments@) =~= self.arguments());
        Invocation { program: "git".to_owned(), arguments, directory: directory.to_owned() }
    }
}

/// The steps that the options ask for, in the order in which they are run:
/// the fetch if asked for, then the pull if asked for, then always the status
/// and the diff.
pub open spec fn planned(opt: Opt) -> Seq<ProbeStep> {
    let fetch = if opt.fetch { seq![ProbeStep::Fetch] } else { seq![] };
    let pull = if opt.pull { seq![ProbeStep::Pull] } else { seq![] };
    fetch + pull + seq![ProbeStep::Status, ProbeStep::Diff]
}

/// The steps to run for one repository, first to last.
pub fn plan(opt: &Opt) -> (steps: Vec<ProbeStep>)
    ensures
        steps@ == planned(*opt),
{
    let mut steps: Vec<ProbeStep> = Vec::new();
    if opt.fetch {
        steps.push(ProbeStep::Fetch);
    }
    if opt.pull {
        steps.push(ProbeStep::Pull);
    }
    steps.push(ProbeStep::Status);
    steps.push(ProbeStep::Diff);
    steps
}

/// A plan holds each step at most once, in the fixed order, and ends with the
/// status followed by the diff; the fetch and the pull are in it exactly when
/// the options ask for them.
pub proof fn lemma_plan_order(opt: Opt)
    ensures
        forall|i: int, j: int|
            0 <= i < j < planned(opt).len() ==> planned(opt)[i].rank() < planned(opt)[j].rank(),
        planned(opt).len() >= 2,
        planned(opt)[planned(opt).len() - 2] == ProbeStep::Status,
        planned(opt).last() == ProbeStep::Diff,
        planned(opt).contains(ProbeStep::Fetch) <==> opt.fetch,
        planned(opt).contains(ProbeStep::Pull) <==> opt.pull,
{
    let steps = planned(opt);
    if opt.fetch {
        assert(steps[0] == ProbeStep::Fetch);
    }
    if opt.pull {
        assert(steps[if opt.fetch { 1int } else { 0int }] == ProbeStep::Pull);
    }
}

} // verus!
