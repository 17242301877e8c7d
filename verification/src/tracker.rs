//! What crosses the boundary to the issue tracker: the one call that an
//! operation makes, and the issue that the tracker answers with.

use vstd::prelude::*;
use crate::state::{IssueState, StateFilter};

verus! {

/// An issue as the tracker reports it.
#[derive(Clone, Debug, PartialEq, Eq)]
pub struct IssueRecord {
    pub number: u64,
    pub url: String,
    pub title: String,
    pub state: IssueState,
    /// The names of the labels.
    pub labels: Vec<String>,
    /// The logins of the assignees.
    pub assignees: Vec<String>,
    /// The number of the milestone.
    pub milestone: Option<i64>,
    pub created_at: String,
    pub updated_at: String,
}

/// The mathematical value of an [`IssueRecord`].
pub struct IssueRecordView {
    pub number: u64,
    pub url: Seq<char>,
    pub title: Seq<char>,
    pub state: IssueState,
    pub labels: Seq<Seq<char>>,
    pub assignees: Seq<Seq<char>>,
    pub milestone: Option<i64>,
    pub created_at: Seq<char>,
    pub updated_at: Seq<char>,
}

impl View for IssueRecord {
    type V = IssueRecordView;

    open spec fn view(&self) -> IssueRecordView {
        IssueRecordView {
            number: self.number,
            url: self.url@,
            title: self.title@,
            state: self.state,
            labels: self.labels.deep_view(),
            assignees: self.assignees.deep_view(),
            milestone: self.milestone,
            created_at: self.created_at@,
            updated_at: self.updated_at@,
        }
    }
}

/// One operation of the tracker, with everything it is given.
///
/// A field that is `None` is not sent: on an update the tracker leaves what
/// it names as it is. A field that is present and empty is sent as it is.
#[derive(Clone, Debug, PartialEq, Eq)]
pub enum TrackerOperation<'a> {
    /// Create an issue.
    Create {
        title: &'a str,
        body: Option<&'a str>,
        labels: Option<&'a Vec<String>>,
        assignees: Option<&'a Vec<String>>,
        milestone: Option<u64>,
    },
    /// Look up the issue of this number.
    Get { number: u64 },
    /// List the issues that pass every filter given.
    List {
        state: StateFilter,
        milestone: Option<u64>,
        assignee: Option<&'a str>,
        labels: Option<&'a Vec<String>>,
    },
    /// Change the fields given of the issue of this number.
    Update {
        number: u64,
        title: Option<&'a str>,
        body: Option<&'a str>,
        labels: Option<&'a Vec<String>>,
        assignees: Option<&'a Vec<String>>,
        state: Option<IssueState>,
        milestone: Option<u64>,
    },
}

/// The mathematical value of a [`TrackerOperation`].
pub enum TrackerOperationView {
    Create {
        title: Seq<char>,
        body: Option<Seq<char>>,
        labels: Option<Seq<Seq<char>>>,
        assignees: Option<Seq<Seq<char>>>,
        milestone: Option<u64>,
    },
    Get { number: u64 },
    List {
        state: StateFilter,
        milestone: Option<u64>,
        assignee: Option<Seq<char>>,
        labels: Option<Seq<Seq<char>>>,
    },
    Update {
        number: u64,
        title: Option<Seq<char>>,
        body: Option<Seq<char>>,
        labels: Option<Seq<Seq<char>>>,
        assignees: Option<Seq<Seq<char>>>,
        state: Option<IssueState>,
        milestone: Option<u64>,
    },
}

impl<'a> View for TrackerOperation<'a> {
    type V = TrackerOperationView;

    open spec fn view(&self) -> TrackerOperationView {
        match *self {
            TrackerOperation::Create {
                title,
                body,
                labels,
                assignees,
                milestone,
            } => TrackerOperationView::Create {
                title: title@,
                body: body.deep_view(),
                labels: labels.deep_view(),
                assignees: assignees.deep_view(),
                milestone,
            },
            TrackerOperation::Get { number } => TrackerOperationView::Get { number },
            TrackerOperation::List {
                state,
                milestone,
                assignee,
                labels,
            } => TrackerOperationView::List {
                state,
                milestone,
                assignee: assignee.deep_view(),
                labels: labels.deep_view(),
            },
            TrackerOperation::Update {
                number,
                title,
                body,
                labels,
                assignees,
                state,
                milestone,
            } => TrackerOperationView::Update {
                number,
                title: title.deep_view(),
                body: body.deep_view(),
                labels: labels.deep_view(),
                assignees: assignees.deep_view(),
                state,
                milestone,
            },
        }
    }
}

/// The single call that an operation makes: whose credentials it uses,
/// which repository it addresses, and what it asks for.
#[derive(Clone, Debug, PartialEq, Eq)]
pub struct TrackerCall<'a> {
    /// The personal access token, if the call is to be authenticated.
    pub pat: Option<&'a str>,
    pub owner: &'a str,
    pub repo: &'a str,
    pub operation: TrackerOperation<'a>,
}

/// The mathematical value of a [`TrackerCall`].
pub struct TrackerCallView {
    pub pat: Option<Seq<char>>,
    pub owner: Seq<char>,
    pub repo: Seq<char>,
    pub operation: TrackerOperationView,
}

impl<'a> View for TrackerCall<'a> {
    type V = TrackerCallView;

    open spec fn view(&self) -> TrackerCallView {
        TrackerCallView {
            pat: self.pat.deep_view(),
            owner: self.owner@,
            repo: self.repo@,
            operation: self.operation@,
        }
    }
}

} // verus!
