//! What a walk over a directory tree makes of what it meets: which entries
//! mark a repository, where the walk goes on, and which failures end it.

use vstd::prelude::*;

use crate::text::texts;

verus! {

/// Name of the directory that marks its parent as a repository root.
pub open spec fn marker_name() -> Seq<char> {
    ".git"@
}

/// One entry that the walk met.
#[derive(Clone, Debug, PartialEq, Eq)]
pub struct WalkEntry {
    /// Last component of the entry's path.
    pub file_name: String,
    /// Path of the directory that holds the entry, where there is one.
    pub parent: Option<String>,
    /// Whether the entry is a directory.
    pub is_dir: bool,
}

/// What the walk reports, entry by entry.
#[derive(Clone, Debug, PartialEq, Eq)]
pub enum WalkEvent {
    /// The walk met an entry.
    Entry(WalkEntry),
    /// The walk could not read an entry.
    Failure {
        /// Depth of the entry below the root of the walk; the root is at 0.
        depth: usize,
        /// What went wrong, in words.
        message: String,
    },
}

/// What is to be done about an event.
#[derive(Clone, Debug, PartialEq, Eq)]
pub enum WalkAction {
    /// The entry marks a repository: hand on this root, once, and do not
    /// walk into the entry.
    Yield(String),
    /// Nothing to hand on; the walk goes on, into the entry if it is a
    /// directory.
    Descend,
    /// Say what went wrong and go on with the walk.
    Report(String),
    /// The walk could not even start: say what went wrong and end the run.
    Abort(String),
}

impl WalkEntry {
    /// Whether the entry is a marker directory.
    pub open spec fn is_marker(self) -> bool {
        self.is_dir && self.file_name@ == marker_name()
    }

    /// The repository root that the entry stands for: the parent of a marker
    /// directory.
    pub open spec fn root(self) -> Option<Seq<char>> {
        if self.is_marker() && self.parent is Some {
            Some(self.parent->0@)
        } else {
            None
        }
    }
}

impl WalkEvent {
    /// The repository root that the event stands for, if any.
    pub open spec fn root(self) -> Option<Seq<char>> {
        match self {
            WalkEvent::Entry(entry) => entry.root(),
            WalkEvent::Failure { .. } => None,
        }
    }
}

impl WalkAction {
    /// Whether this is the action that the event calls for: a marker
    /// directory yields its parent and everything else is walked on; a
    /// failure at the root of the walk ends the run and a failure below it is
    /// reported, each with the words of the failure.
    pub open spec fn answers(self, event: WalkEvent) -> bool {
        match event {
            WalkEvent::Entry(entry) => match entry.root() {
                Some(root) => (self matches WalkAction::Yield(text) && text@ == root),
                None => self is Descend,
            },
            WalkEvent::Failure { depth, message } => if depth == 0 {
                (self matches WalkAction::Abort(text) && text@ == message@)
            } else {
                (self matches WalkAction::Report(text) && text@ == message@)
            },
        }
    }
}

/// The roots that a walk hands on, in the order of the events. The events
/// are those of a walk that did what each of them called for: it did not
/// enter a marker directory that yielded its parent, so none of them lies
/// inside one.
pub open spec fn roots(events: Seq<WalkEvent>) -> Seq<Seq<char>> {
    events.filter_map(|event: WalkEvent| event.root())
}

/// The events that stand for a repository root: the marker directories
/// that have a parent.
pub open spec fn markers(events: Seq<WalkEvent>) -> Seq<WalkEvent> {
    events.filter(|event: WalkEvent| event.root() is Some)
}

/// A walk hands on exactly one root for each marker directory that it meets,
/// the parent of that directory, and nothing for any other entry or for a
/// failure.
pub proof fn lemma_one_root_per_marker(events: Seq<WalkEvent>)
    ensures
        roots(events).len() == markers(events).len(),
        forall|k: int|
            0 <= k < roots(events).len() ==> markers(events)[k].root() == Some(
                #[trigger] roots(events)[k],
            ),
        forall|i: int|
            0 <= i < events.len() && events[i].root() is Some ==> markers(events).contains(
                #[trigger] events[i],
            ),
        forall|k: int|
            0 <= k < markers(events).len() ==> events.contains(#[trigger] markers(events)[k]),
    decreases events.len(),
{
    reveal(Seq::filter);
    if events.len() > 0 {
        let before = events.drop_last();
        lemma_one_root_per_marker(before);
        assert forall|i: int| 0 <= i < events.len() && events[i].root() is Some implies markers(
            events,
        ).contains(#[trigger] events[i]) by {
            if i < events.len() - 1 {
                assert(before[i] == events[i]);
                let k = choose|k: int|
                    0 <= k < markers(before).len() && markers(before)[k] == events[i];
                assert(markers(events)[k] == events[i]);
            } else {
                assert(markers(events).last() == events[i]);
            }
        }
        assert forall|k: int| 0 <= k < markers(events).len() implies events.contains(
            #[trigger] markers(events)[k],
        ) by {
            if k < markers(before).len() {
                let i = choose|i: int| 0 <= i < before.len() && before[i] == markers(before)[k];
                assert(events[i] == markers(events)[k]);
            } else {
                assert(events[events.len() - 1] == markers(events)[k]);
            }
        }
    }
}

fn is_marker_name(name: &String) -> (same: bool)
    ensures
        same == (name@ == marker_name()),
{
    let marker = ".git".to_owned();
    *name == marker
}

/// Decides what to do about one event of the walk.
pub fn on_event(event: &WalkEvent) -> (action: WalkAction)
    ensures
        action.answers(*event),
{
    match event {
        WalkEvent::Entry(entry) => {
            if entry.is_dir && is_marker_name(&entry.file_name) {
                match &entry.parent {
                    Some(parent) => WalkAction::Yield(parent.clone()),
                    None => WalkAction::Descend,
                }
            } else {
                WalkAction::Descend
            }
        },
        WalkEvent::Failure { depth, message } => {
            if *depth == 0 {
                WalkAction::Abort(message.clone())
            } else {
                WalkAction::Report(message.clone())
            }
        },
    }
}

/// The repository roots among the events of a walk, in their order. The
/// events are taken as those of a walk that did not enter a marker directory
/// once it had yielded its parent: every marker directory among them counts,
/// also one that such a walk would never have met.
pub fn repo_roots(events: &Vec<WalkEvent>) -> (found: Vec<String>)
    ensures
        texts(found@) == roots(events@),
{
    let mut found: Vec<String> = Vec::new();
    let mut at: usize = 0;
    while at < events.len()
        invariant
            at <= events.len(),
            texts(found@) == roots(events@.take(at as int)),
        decreases events.len() - at,
    {
        proof {
            events@.lemma_filter_map_take_succ(|event: WalkEvent| event.root(), at as int);
        }
        let ghost before = found@;
        match on_event(&events[at]) {
            WalkAction::Yield(root) => {
                found.push(root);
                assert(texts(found@) =~= texts(before) + seq![
                    root@,
                ]);
            },
            _ => {},
        }
        at += 1;
    }
    assert(events@.take(at as int) =~= events@);
    found
}

} // verus!
