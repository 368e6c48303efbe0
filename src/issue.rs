use vstd::prelude::*;

verus! {

/// A pull-request link; its presence marks a record as a pull request.
#[derive(Debug, Clone)]
pub struct PullRequest {
    pub url: String,
    pub html_url: String,
    pub diff_url: String,
    pub patch_url: String,
}

#[derive(Debug, Clone)]
pub struct Assignee {
    pub login: String,
}

#[derive(Debug, Clone)]
pub struct Milestone {
    pub title: String,
}

#[derive(Debug, Clone)]
pub struct Label {
    pub name: String,
}

/// The lifecycle state recorded by the issue tracker.
#[derive(Debug, Clone, Copy, PartialEq, Eq, Structural)]
pub enum IssueStateJson {
    Open,
    Closed,
}

/// The triage state derived from an issue, in ranking order.
#[derive(Debug, Clone, Copy, PartialEq, Eq, Structural, PartialOrd, Ord)]
pub enum IssueState {
    Blocked,
    UnderReview,
    Open,
    Closed,
}

/// Errors that abort a run.
#[derive(Debug, Clone, Copy, PartialEq, Eq, Structural)]
pub enum IssueError {
    MalformedRepositoryURL,
    MalformedTimestamp,
    SourceFetchFailed,
}

/// One record received from the issue tracker.
#[derive(Debug, Clone)]
pub struct Issue {
    pub title: String,
    pub html_url: String,
    pub number: u32,
    pub repository_url: String,
    pub pull_request: Option<PullRequest>,
    pub assignee: Option<Assignee>,
    pub milestone: Option<Milestone>,
    pub labels: Option<Vec<Label>>,
    pub state: IssueStateJson,
    pub created_at: String,
    pub closed_at: Option<String>,
}

/// The names of a label list, in order.
pub open spec fn names_of(ls: Seq<Label>) -> Seq<Seq<char>> {
    ls.map_values(|l: Label| l.name@)
}

/// The label names of an optional label list, in order.
pub open spec fn label_names(labels: Option<Vec<Label>>) -> Option<Seq<Seq<char>>> {
    match labels {
        Some(ls) => Some(names_of(ls@)),
        None => None,
    }
}

pub open spec fn has_label(names: Option<Seq<Seq<char>>>, name: Seq<char>) -> bool {
    match names {
        Some(ns) => ns.contains(name),
        None => false,
    }
}

/// The derived triage state: closed wins, then "under review", then
/// "blocked", else open.
pub open spec fn derived_state(raw: IssueStateJson, names: Option<Seq<Seq<char>>>) -> IssueState {
    if raw == IssueStateJson::Closed {
        IssueState::Closed
    } else if has_label(names, "under review"@) {
        IssueState::UnderReview
    } else if has_label(names, "blocked"@) {
        IssueState::Blocked
    } else {
        IssueState::Open
    }
}

pub open spec fn state_of(i: Issue) -> IssueState {
    derived_state(i.state, label_names(i.labels))
}

/// The priority that a single label name declares.
pub open spec fn label_priority(name: Seq<char>) -> Option<u32> {
    if name == "P0"@ {
        Some(0u32)
    } else if name == "P1"@ {
        Some(1u32)
    } else if name == "P2"@ {
        Some(2u32)
    } else if name == "P3"@ {
        Some(3u32)
    } else if name == "P4"@ {
        Some(4u32)
    } else if name == "P5"@ {
        Some(5u32)
    } else {
        None
    }
}

/// The priority of the first label, in order, that declares one.
pub open spec fn first_priority(names: Seq<Seq<char>>) -> Option<u32>
    decreases names.len(),
{
    if names.len() == 0 {
        None
    } else if label_priority(names[0]) is Some {
        label_priority(names[0])
    } else {
        first_priority(names.drop_first())
    }
}

pub open spec fn derived_priority(names: Option<Seq<Seq<char>>>) -> Option<u32> {
    match names {
        Some(ns) => first_priority(ns),
        None => None,
    }
}

pub open spec fn priority_of(i: Issue) -> Option<u32> {
    derived_priority(label_names(i.labels))
}

/// The user-facing text of a triage state.
pub open spec fn state_text(s: IssueState) -> Seq<char> {
    match s {
        IssueState::Open => "open"@,
        IssueState::Closed => "closed"@,
        IssueState::Blocked => "blocked"@,
        IssueState::UnderReview => "under review"@,
    }
}

fn labels_contain(labels: &Vec<Label>, name: &String) -> (r: bool)
    ensures
        r == names_of(labels@).contains(name@),
{
    let ghost names = names_of(labels@);
    let mut i: usize = 0;
    while i < labels.len()
        invariant
            i <= labels@.len(),
            names == names_of(labels@),
            forall|k: int| 0 <= k < i ==> names[k] != name@,
        decreases labels@.len() - i,
    {
        if labels[i].name == *name {
            assert(names[i as int] == name@);
            return true;
        }
        i = i + 1;
    }
    proof {
        if names.contains(name@) {
            let k = choose|k: int| 0 <= k < names.len() && names[k] == name@;
            assert(names[k] != name@);
        }
    }
    false
}

fn priority_of_label(name: &String) -> (r: Option<u32>)
    ensures
        r == label_priority(name@),
{
    if *name == String::from_str("P0") {
        Some(0)
    } else if *name == String::from_str("P1") {
        Some(1)
    } else if *name == String::from_str("P2") {
        Some(2)
    } else if *name == String::from_str("P3") {
        Some(3)
    } else if *name == String::from_str("P4") {
        Some(4)
    } else if *name == String::from_str("P5") {
        Some(5)
    } else {
        None
    }
}

impl Issue {
    /// Whether this record is a pull request rather than an issue.
    pub fn is_pull_request(&self) -> (r: bool)
        ensures
            r == self.pull_request is Some,
    {
        self.pull_request.is_some()
    }

    /// The priority declared by the first priority label, if any.
    pub fn get_priority(&self) -> (r: Option<u32>)
        ensures
            r == priority_of(*self),
            r matches Some(p) ==> p <= 5,
    {
        match self.labels {
            None => None,
            Some(ref labels) => {
                let ghost names = names_of(labels@);
                let mut i: usize = 0;
                assert(names.subrange(0, names.len() as int) =~= names);
                while i < labels.len()
                    invariant
                        i <= labels@.len(),
                        names == names_of(labels@),
                        label_names(self.labels) == Some(names),
                        first_priority(names) == first_priority(names.subrange(i as int, names.len() as int)),
                    decreases labels@.len() - i,
                {
                    let p = priority_of_label(&labels[i].name);
                    assert(names.subrange(i as int, names.len() as int).drop_first()
                        =~= names.subrange(i + 1, names.len() as int));
                    assert(names[i as int] == labels@[i as int].name@);
                    assert(names.subrange(i as int, names.len() as int)[0] == names[i as int]);
                    if p.is_some() {
                        return p;
                    }
                    i = i + 1;
                }
                assert(names.subrange(i as int, names.len() as int) =~= Seq::<Seq<char>>::empty());
                None
            }
        }
    }

    /// The derived triage state.
    pub fn get_state(&self) -> (r: IssueState)
        ensures
            r == state_of(*self),
    {
        if self.state == IssueStateJson::Closed {
            return IssueState::Closed;
        }
        if let Some(labels) = &self.labels {
            if labels_contain(labels, &String::from_str("under review")) {
                return IssueState::UnderReview;
            } else if labels_contain(labels, &String::from_str("blocked")) {
                return IssueState::Blocked;
            }
        }
        IssueState::Open
    }

    /// The derived triage state as user-facing text.
    pub fn get_state_str(&self) -> (r: String)
        ensures
            r@ == state_text(state_of(*self)),
    {
        match self.get_state() {
            IssueState::Open => String::from_str("open"),
            IssueState::Closed => String::from_str("closed"),
            IssueState::Blocked => String::from_str("blocked"),
            IssueState::UnderReview => String::from_str("under review"),
        }
    }
}

} // verus!
