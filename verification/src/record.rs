//! The record of one repository and how a probe fills it.

use vstd::prelude::*;
use vstd::string::*;

use crate::marker::{find_marker, has_marker, regex_compiles, Marker};
use crate::options::Opt;
use crate::probe::{plan, planned, Outcome, ProbeError, ProbeStep};

verus! {

/// What is known of one repository, as plain values.
pub struct RepoState {
    /// Path of the repository root.
    pub path: Seq<char>,
    /// Whether the working tree differs from the last commit.
    pub has_local_changes: bool,
    /// Whether the branch has commits that its upstream lacks.
    pub ahead: bool,
    /// Whether the upstream has commits that the branch lacks.
    pub behind: bool,
    /// The status report, as the tool wrote it.
    pub status_text: Seq<char>,
    /// The first step of the probe that did not do its work, if any.
    pub probe_error: Option<ProbeError>,
}

/// The record of one repository.
#[derive(Clone, Debug, PartialEq, Eq)]
pub struct Gsr {
    /// Path of the repository root.
    pub path: String,
    /// Whether the working tree differs from the last commit.
    pub has_local_changes: bool,
    /// Whether the branch has commits that its upstream lacks.
    pub ahead: bool,
    /// Whether the upstream has commits that the branch lacks.
    pub behind: bool,
    /// The status report, as the tool wrote it.
    pub status_text: String,
    /// The first step of the probe that did not do its work, if any.
    pub probe_error: Option<ProbeError>,
}

impl View for Gsr {
    type V = RepoState;

    open spec fn view(&self) -> RepoState {
        RepoState {
            path: self.path@,
            has_local_changes: self.has_local_changes,
            ahead: self.ahead,
            behind: self.behind,
            status_text: self.status_text@,
            probe_error: self.probe_error,
        }
    }
}

/// The outcome of the step at position `at` of a plan: the one handed in for
/// it, or, where none was, that of a tool that could not be started.
pub open spec fn outcome_at(outcomes: Seq<Outcome>, at: int) -> Outcome {
    if 0 <= at < outcomes.len() {
        outcomes[at]
    } else {
        Outcome::NotStarted
    }
}

impl RepoState {
    /// The record of a repository of which only the path is known.
    pub open spec fn fresh(path: Seq<char>) -> RepoState {
        RepoState {
            path,
            has_local_changes: false,
            ahead: false,
            behind: false,
            status_text: Seq::empty(),
            probe_error: None,
        }
    }

    /// Notes that a step did not do its work. The first such note stays.
    pub open spec fn failing(self, error: ProbeError) -> RepoState {
        if self.probe_error is Some {
            self
        } else {
            RepoState { probe_error: Some(error), ..self }
        }
    }

    /// After a fetch or a pull: nothing but a failure is noted.
    pub open spec fn refreshed(self, step: ProbeStep, outcome: Outcome) -> RepoState {
        match outcome {
            Outcome::NotStarted => self.failing(ProbeError::NotStarted(step)),
            Outcome::Exited { success, .. } => if success {
                self
            } else {
                self.failing(ProbeError::Failed(step))
            },
        }
    }

    /// After the status step: the report is what the tool wrote, whatever its
    /// exit status.
    pub open spec fn with_status(self, outcome: Outcome) -> RepoState {
        match outcome {
            Outcome::NotStarted => self.failing(ProbeError::NotStarted(ProbeStep::Status)),
            Outcome::Exited { stdout, .. } => RepoState { status_text: stdout@, ..self },
        }
    }

    /// After the diff step: there are local changes exactly when the tool ran
    /// and exited with a status other than zero. A tool that could not be
    /// started says nothing of local changes.
    pub open spec fn with_diff(self, outcome: Outcome) -> RepoState {
        match outcome {
            Outcome::NotStarted => self.failing(ProbeError::NotStarted(ProbeStep::Diff)),
            Outcome::Exited { success, .. } => RepoState { has_local_changes: !success, ..self },
        }
    }

    /// After one step of a probe.
    pub open spec fn after_step(self, step: ProbeStep, outcome: Outcome) -> RepoState {
        match step {
            ProbeStep::Fetch => self.refreshed(ProbeStep::Fetch, outcome),
            ProbeStep::Pull => self.refreshed(ProbeStep::Pull, outcome),
            ProbeStep::Status => self.with_status(outcome),
            ProbeStep::Diff => self.with_diff(outcome),
        }
    }

    /// After the steps of a plan, each with the outcome at its position.
    pub open spec fn after_steps(self, steps: Seq<ProbeStep>, outcomes: Seq<Outcome>) -> RepoState
        decreases steps.len(),
    {
        if steps.len() == 0 {
            self
        } else {
            self.after_steps(steps.drop_last(), outcomes).after_step(
                steps.last(),
                outcome_at(outcomes, steps.len() - 1),
            )
        }
    }

    /// The steps of the plan that the options ask for, then the search for
    /// the two markers, on a repository of which only the path was known.
    /// `ahead_searched` and `behind_searched` say whether each search could
    /// be made.
    pub open spec fn probed(
        path: Seq<char>,
        opt: Opt,
        outcomes: Seq<Outcome>,
        ahead_searched: bool,
        behind_searched: bool,
    ) -> RepoState {
        RepoState::fresh(path).after_steps(planned(opt), outcomes).looked_for(
            Marker::Ahead,
            ahead_searched,
        ).looked_for(Marker::Behind, behind_searched)
    }

    /// The path, a line feed, and the status report.
    pub open spec fn report(self) -> Seq<char> {
        self.path + seq!['\n'] + self.status_text
    }

    /// After a search for a marker. `found` is what the search said; `None`
    /// stands for a search that could not be made, which leaves the flag as
    /// it was.
    pub open spec fn marked(self, marker: Marker, found: Option<bool>) -> RepoState {
        match found {
            None => self.failing(ProbeError::Pattern(marker)),
            Some(hit) => match marker {
                Marker::Ahead => RepoState { ahead: hit, ..self },
                Marker::Behind => RepoState { behind: hit, ..self },
            },
        }
    }

    /// After the search for one marker in the status report, where
    /// `searched` says whether the search could be made.
    pub open spec fn looked_for(self, marker: Marker, searched: bool) -> RepoState {
        self.marked(
            marker,
            if searched {
                Some(has_marker(marker, self.status_text))
            } else {
                None
            },
        )
    }
}

impl Gsr {
    /// The record of the repository at `path`, before anything was asked of
    /// the tool.
    pub fn new(path: &str) -> (record: Gsr)
        ensures
            record@ == RepoState::fresh(path@),
    {
        Gsr {
            path: path.to_owned(),
            has_local_changes: false,
            ahead: false,
            behind: false,
            status_text: String::new(),
            probe_error: None,
        }
    }

    fn failing(self, error: ProbeError) -> (record: Gsr)
        ensures
            record@ == self@.failing(error),
    {
        if self.probe_error.is_some() {
            self
        } else {
            Gsr { probe_error: Some(error), ..self }
        }
    }

    fn refreshed(self, step: ProbeStep, outcome: &Outcome) -> (record: Gsr)
        ensures
            record@ == self@.refreshed(step, *outcome),
    {
        match outcome {
            Outcome::NotStarted => self.failing(ProbeError::NotStarted(step)),
            Outcome::Exited { success, .. } => if *success {
                self
            } else {
                self.failing(ProbeError::Failed(step))
            },
        }
    }

    /// Takes in what came of the fetch.
    pub fn fetch(self, outcome: &Outcome) -> (record: Gsr)
        ensures
            record@ == self@.refreshed(ProbeStep::Fetch, *outcome),
    {
        self.refreshed(ProbeStep::Fetch, outcome)
    }

    /// Takes in what came of the pull.
    pub fn pull(self, outcome: &Outcome) -> (record: Gsr)
        ensures
            record@ == self@.refreshed(ProbeStep::Pull, *outcome),
    {
        self.refreshed(ProbeStep::Pull, outcome)
    }

    /// Takes in what came of the status step.
    pub fn status(self, outcome: &Outcome) -> (record: Gsr)
        ensures
            record@ == self@.with_status(*outcome),
    {
        match outcome {
            Outcome::NotStarted => self.failing(ProbeError::NotStarted(ProbeStep::Status)),
            Outcome::Exited { stdout, .. } => Gsr { status_text: stdout.clone(), ..self },
        }
    }

    /// Takes in what came of the diff step.
    pub fn diff(self, outcome: &Outcome) -> (record: Gsr)
        ensures
            record@ == self@.with_diff(*outcome),
    {
        match outcome {
            Outcome::NotStarted => self.failing(ProbeError::NotStarted(ProbeStep::Diff)),
            Outcome::Exited { success, .. } => Gsr { has_local_changes: !*success, ..self },
        }
    }

    /// Takes in what came of one step.
    pub fn record(self, step: ProbeStep, outcome: &Outcome) -> (record: Gsr)
        ensures
            record@ == self@.after_step(step, *outcome),
    {
        match step {
            ProbeStep::Fetch => self.fetch(outcome),
            ProbeStep::Pull => self.pull(outcome),
            ProbeStep::Status => self.status(outcome),
            ProbeStep::Diff => self.diff(outcome),
        }
    }

    /// Takes in what a search for a marker said: `None` where the search
    /// could not be made.
    pub fn marked(self, marker: Marker, found: Option<bool>) -> (record: Gsr)
        ensures
            record@ == self@.marked(marker, found),
    {
        match found {
            None => self.failing(ProbeError::Pattern(marker)),
            Some(hit) => match marker {
                Marker::Ahead => Gsr { ahead: hit, ..self },
                Marker::Behind => Gsr { behind: hit, ..self },
            },
        }
    }

    /// Looks in the status report for the marker of a branch that is ahead of
    /// its upstream, and sets the flag by it. Only where the regular
    /// expression engine refuses the marker's pattern is the flag left as it
    /// was and the failure noted.
    pub fn is_ahead(self) -> (record: Gsr)
        ensures
            record@ == self@.looked_for(Marker::Ahead, regex_compiles(Marker::Ahead.pattern())),
    {
        let found = find_marker(Marker::Ahead, self.status_text.as_str());
        self.marked(Marker::Ahead, found)
    }

    /// Looks in the status report for the marker of a branch that is behind
    /// its upstream, and sets the flag by it. Only where the regular
    /// expression engine refuses the marker's pattern is the flag left as it
    /// was and the failure noted.
    pub fn is_behind(self) -> (record: Gsr)
        ensures
            record@ == self@.looked_for(Marker::Behind, regex_compiles(Marker::Behind.pattern())),
    {
        let found = find_marker(Marker::Behind, self.status_text.as_str());
        self.marked(Marker::Behind, found)
    }

    /// What the verbose rendering of the record shows: the path, and below it
    /// the status report.
    pub fn print_status(&self) -> (text: String)
        ensures
            text@ == self@.report(),
    {
        proof {
            reveal_strlit("\n");
        }
        let text = self.path.clone().concat("\n").concat(self.status_text.as_str());
        assert("\n"@ =~= seq!['\n']);
        text
    }

    /// Fills the record of the repository at `path` from what came of the
    /// steps of its plan, first to last, and looks for the two markers. A
    /// step without an outcome counts as one whose tool could not be started;
    /// outcomes beyond the plan are not looked at.
    pub fn probe(path: &str, opt: &Opt, outcomes: &Vec<Outcome>) -> (record: Gsr)
        ensures
            record@ == RepoState::probed(
                path@,
                *opt,
                outcomes@,
                regex_compiles(Marker::Ahead.pattern()),
                regex_compiles(Marker::Behind.pattern()),
            ),
    {
        let steps = plan(opt);
        let mut record = Gsr::new(path);
        let mut at: usize = 0;
        while at < steps.len()
            invariant
                at <= steps.len(),
                steps@ == planned(*opt),
                record@ == RepoState::fresh(path@).after_steps(steps@.take(at as int), outcomes@),
            decreases steps.len() - at,
        {
            assert(steps@.take(at + 1).drop_last() =~= steps@.take(at as int));
            record = if at < outcomes.len() {
                record.record(steps[at], &outcomes[at])
            } else {
                record.record(steps[at], &Outcome::NotStarted)
            };
            at += 1;
        }
        assert(steps@.take(at as int) =~= steps@);
        record.is_ahead().is_behind()
    }
}

/// What the probe makes of the status and diff steps does not depend on
/// anything else: the path is the one given; the status report is what the
/// status step wrote, or empty where it could not be started; and there are
/// local changes exactly when the diff step ran and exited with a status
/// other than zero, whatever the status report holds.
pub proof fn lemma_probe_reads_status_and_diff(
    path: Seq<char>,
    opt: Opt,
    outcomes: Seq<Outcome>,
    ahead_searched: bool,
    behind_searched: bool,
)
    ensures
        ({
            let record = RepoState::probed(path, opt, outcomes, ahead_searched, behind_searched);
            let status = outcome_at(outcomes, planned(opt).len() - 2);
            let diff = outcome_at(outcomes, planned(opt).len() - 1);
            &&& record.path == path
            &&& record.has_local_changes == diff.failed()
            &&& record.status_text == match status {
                Outcome::Exited { stdout, .. } => stdout@,
                Outcome::NotStarted => Seq::empty(),
            }
        }),
{
    let steps = planned(opt);
    let fresh = RepoState::fresh(path);
    let before_diff = steps.drop_last();
    let before_status = before_diff.drop_last();
    assert(before_diff.last() == ProbeStep::Status);
    lemma_refreshing_keeps_the_rest(fresh, before_status, outcomes);
    assert(fresh.after_steps(before_diff, outcomes) == fresh.after_steps(
        before_status,
        outcomes,
    ).with_status(outcome_at(outcomes, steps.len() - 2)));
}

/// Steps that only fetch or pull leave everything but the noted failure as
/// it was.
proof fn lemma_refreshing_keeps_the_rest(
    state: RepoState,
    steps: Seq<ProbeStep>,
    outcomes: Seq<Outcome>,
)
    requires
        forall|i: int| 0 <= i < steps.len() ==> steps[i].rank() < ProbeStep::Status.rank(),
    ensures
        state.after_steps(steps, outcomes) == (RepoState {
            probe_error: state.after_steps(steps, outcomes).probe_error,
            ..state
        }),
    decreases steps.len(),
{
    if steps.len() > 0 {
        lemma_refreshing_keeps_the_rest(state, steps.drop_last(), outcomes);
    }
}

/// The two markers are read apart: after both searches, in either order, a
/// record is ahead exactly when its status report carries the marker for
/// that, and behind exactly when it carries the other one. So a report with
/// one marker sets one flag, a report with both sets both, and a report with
/// neither sets none. Nothing else in the record changes.
pub proof fn lemma_markers_are_read_apart(record: RepoState)
    ensures
        record.looked_for(Marker::Ahead, true).looked_for(Marker::Behind, true) == (RepoState {
            ahead: has_marker(Marker::Ahead, record.status_text),
            behind: has_marker(Marker::Behind, record.status_text),
            ..record
        }),
        record.looked_for(Marker::Behind, true).looked_for(Marker::Ahead, true)
            == record.looked_for(Marker::Ahead, true).looked_for(Marker::Behind, true),
{
}

/// A probe that notes no failure has read both markers: its record is ahead
/// exactly when the status report carries the marker for that, and behind
/// exactly when it carries the other one.
pub proof fn lemma_probe_without_failure(
    path: Seq<char>,
    opt: Opt,
    outcomes: Seq<Outcome>,
    ahead_searched: bool,
    behind_searched: bool,
)
    requires
        RepoState::probed(path, opt, outcomes, ahead_searched, behind_searched).probe_error
            is None,
    ensures
        ({
            let record = RepoState::probed(path, opt, outcomes, ahead_searched, behind_searched);
            &&& record.ahead == has_marker(Marker::Ahead, record.status_text)
            &&& record.behind == has_marker(Marker::Behind, record.status_text)
        }),
{
}

} // verus!
