//! The documents that the pipeline exchanges with the resource: the version
//! it remembers, the source and the parameters it configures, and the
//! metadata it is shown.

use vstd::prelude::*;
use crate::state::IssueState;

verus! {

/// A version of the watched issue: the state it stands for. Two versions
/// are equal when their states are.
#[derive(Clone, Copy, Debug, PartialEq, Eq, Structural)]
pub struct Version {
    pub state: IssueState,
}

impl Version {
    /// The version that stands for `state`.
    pub fn new(state: IssueState) -> (version: Self)
        ensures
            version == (Version { state }),
    {
        Version { state }
    }
}

/// The source of the resource: credentials, the repository, the issue
/// number if it is known, the filters that find the issue if it is not, and
/// how the check behaves.
#[derive(Clone, Debug, PartialEq, Eq)]
pub struct Source {
    /// The personal access token.
    pub pat: Option<String>,
    pub owner: String,
    pub repo: String,
    pub number: Option<u64>,
    /// The state word that a listing is narrowed to.
    pub state: Option<String>,
    pub milestone: Option<u64>,
    pub assignee: Option<String>,
    pub labels: Option<Vec<String>>,
    /// Whether the check answers without asking the tracker.
    pub skip_check: Option<bool>,
    /// The state of the issue at which the check reports a new version.
    pub trigger: Option<IssueState>,
}

/// The mathematical value of a [`Source`].
pub struct SourceView {
    pub pat: Option<Seq<char>>,
    pub owner: Seq<char>,
    pub repo: Seq<char>,
    pub number: Option<u64>,
    pub state: Option<Seq<char>>,
    pub milestone: Option<u64>,
    pub assignee: Option<Seq<char>>,
    pub labels: Option<Seq<Seq<char>>>,
    pub skip_check: Option<bool>,
    pub trigger: Option<IssueState>,
}

impl View for Source {
    type V = SourceView;

    open spec fn view(&self) -> SourceView {
        SourceView {
            pat: self.pat.deep_view(),
            owner: self.owner@,
            repo: self.repo@,
            number: self.number,
            state: self.state.deep_view(),
            milestone: self.milestone,
            assignee: self.assignee.deep_view(),
            labels: self.labels.deep_view(),
            skip_check: self.skip_check,
            trigger: self.trigger,
        }
    }
}

impl SourceView {
    /// The assignee as a list of one, the form in which a request holds
    /// assignees.
    pub open spec fn assignees(self) -> Option<Seq<Seq<char>>> {
        match self.assignee {
            Some(name) => Some(seq![name]),
            None => None,
        }
    }

    /// Whether the check is skipped; it is not unless the source says so.
    pub open spec fn skips_check(self) -> bool {
        self.skip_check == Some(true)
    }

    /// The trigger state; it is `Closed` unless the source names one.
    pub open spec fn trigger_state(self) -> IssueState {
        match self.trigger {
            Some(state) => state,
            None => IssueState::Closed,
        }
    }
}

impl Source {
    /// The personal access token, if there is one.
    pub fn pat(&self) -> (r: Option<&str>)
        ensures
            r.deep_view() == self@.pat,
    {
        match &self.pat {
            Some(pat) => Some(pat.as_str()),
            None => None,
        }
    }

    /// The owner of the repository.
    pub fn owner(&self) -> (r: &str)
        ensures
            r@ == self@.owner,
    {
        self.owner.as_str()
    }

    /// The name of the repository.
    pub fn repo(&self) -> (r: &str)
        ensures
            r@ == self@.repo,
    {
        self.repo.as_str()
    }

    /// The number of the issue, if it is known.
    pub fn number(&self) -> (r: Option<u64>)
        ensures
            r == self@.number,
    {
        self.number
    }

    /// The state word that a listing is narrowed to, as it was written.
    pub fn state(&self) -> (r: Option<&str>)
        ensures
            r.deep_view() == self@.state,
    {
        match &self.state {
            Some(state) => Some(state.as_str()),
            None => None,
        }
    }

    /// The number of the milestone that a listing is narrowed to.
    pub fn milestone(&self) -> (r: Option<u64>)
        ensures
            r == self@.milestone,
    {
        self.milestone
    }

    /// The assignee as a list of one.
    pub fn assignee(&self) -> (r: Option<Vec<String>>)
        ensures
            r.deep_view() == self@.assignees(),
    {
        match &self.assignee {
            Some(assignee) => {
                let mut names: Vec<String> = Vec::new();
                names.push(assignee.clone());
                Some(names)
            },
            None => None,
        }
    }

    /// The labels that a listing is narrowed to.
    pub fn labels(&self) -> (r: Option<Vec<String>>)
        ensures
            r.deep_view() == self@.labels,
    {
        self.labels.clone()
    }

    /// Whether the check is skipped.
    pub fn skip_check(&self) -> (r: bool)
        ensures
            r == self@.skips_check(),
    {
        match self.skip_check {
            Some(skip) => skip,
            None => false,
        }
    }

    /// The trigger state.
    pub fn trigger(&self) -> (r: IssueState)
        ensures
            r == self@.trigger_state(),
    {
        match self.trigger {
            Some(state) => state,
            None => IssueState::Closed,
        }
    }
}

/// The parameters of an output step: the fields of the issue to create, or
/// the changes to the issue to update.
#[derive(Clone, Debug, Default, PartialEq, Eq)]
pub struct OutParams {
    pub title: Option<String>,
    pub body: Option<String>,
    pub labels: Option<Vec<String>>,
    pub assignees: Option<Vec<String>>,
    pub milestone: Option<u64>,
    /// Whether the conversation of the issue is to be locked. The field is
    /// accepted for the pipeline's sake: no operation reads it.
    pub lock: Option<bool>,
    /// The state word that an update sets.
    pub state: Option<String>,
}

/// The mathematical value of an [`OutParams`].
pub struct OutParamsView {
    pub title: Option<Seq<char>>,
    pub body: Option<Seq<char>>,
    pub labels: Option<Seq<Seq<char>>>,
    pub assignees: Option<Seq<Seq<char>>>,
    pub milestone: Option<u64>,
    pub lock: Option<bool>,
    pub state: Option<Seq<char>>,
}

impl View for OutParams {
    type V = OutParamsView;

    open spec fn view(&self) -> OutParamsView {
        OutParamsView {
            title: self.title.deep_view(),
            body: self.body.deep_view(),
            labels: self.labels.deep_view(),
            assignees: self.assignees.deep_view(),
            milestone: self.milestone,
            lock: self.lock,
            state: self.state.deep_view(),
        }
    }
}

impl OutParams {
    /// The title of the issue.
    pub fn title(&self) -> (r: Option<&str>)
        ensures
            r.deep_view() == self@.title,
    {
        match &self.title {
            Some(title) => Some(title.as_str()),
            None => None,
        }
    }

    /// The body of the issue.
    pub fn body(&self) -> (r: Option<&str>)
        ensures
            r.deep_view() == self@.body,
    {
        match &self.body {
            Some(body) => Some(body.as_str()),
            None => None,
        }
    }

    /// The labels of the issue.
    pub fn labels(&self) -> (r: Option<Vec<String>>)
        ensures
            r.deep_view() == self@.labels,
    {
        self.labels.clone()
    }

    /// The logins of the users that the issue is assigned to.
    pub fn assignees(&self) -> (r: Option<Vec<String>>)
        ensures
            r.deep_view() == self@.assignees,
    {
        self.assignees.clone()
    }

    /// The number of the milestone of the issue.
    pub fn milestone(&self) -> (r: Option<u64>)
        ensures
            r == self@.milestone,
    {
        self.milestone
    }

    /// Whether the conversation of the issue is to be locked.
    pub fn lock(&self) -> (r: Option<bool>)
        ensures
            r == self@.lock,
    {
        self.lock
    }

    /// The state word that an update sets, as it was written.
    pub fn state(&self) -> (r: Option<&str>)
        ensures
            r.deep_view() == self@.state,
    {
        match &self.state {
            Some(state) => Some(state.as_str()),
            None => None,
        }
    }
}

/// What an output step shows of the issue it created or updated.
#[derive(Clone, Debug, PartialEq, Eq)]
pub struct OutMetadata {
    pub number: u64,
    pub url: String,
    pub title: String,
    pub state: IssueState,
    /// The names of the labels.
    pub labels: Vec<String>,
    /// The logins of the assignees.
    pub assignees: Vec<String>,
    /// The number of the milestone.
    pub milestone: Option<i64>,
    pub created: String,
    pub updated: String,
}

impl OutMetadata {
    /// The metadata with the fields given.
    pub fn new(
        number: u64,
        url: String,
        title: String,
        state: IssueState,
        labels: Vec<String>,
        assignees: Vec<String>,
        milestone: Option<i64>,
        created: String,
        updated: String,
    ) -> (metadata: Self)
        ensures
            metadata == (OutMetadata {
                number,
                url,
                title,
                state,
                labels,
                assignees,
                milestone,
                created,
                updated,
            }),
    {
        OutMetadata { number, url, title, state, labels, assignees, milestone, created, updated }
    }
}

} // verus!
