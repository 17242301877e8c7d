//! The failures of a tracker operation, and the class each belongs to.

use vstd::prelude::*;

verus! {

/// Who has to act on a failure.
#[derive(Clone, Copy, Debug, PartialEq, Eq, Structural)]
pub enum ErrorClass {
    /// The configuration is not sufficient, or not valid, for the operation.
    Configuration,
    /// A filter resolved to no issue, or to more than one.
    Cardinality,
    /// The tracker, or the way to it, failed.
    Tracker,
}

/// Why an operation did not yield an issue.
#[derive(Clone, Debug, PartialEq, Eq)]
pub enum IssueError {
    /// A create was asked for without a title.
    TitleMissing,
    /// A read or an update was asked for without an issue number.
    NumberMissing,
    /// A listing was asked for with more than one assignee.
    AmbiguousAssigneeFilter,
    /// The state to filter by is none of `open`, `closed` and `all`.
    InvalidStateFilter,
    /// The state to set is neither `open` nor `closed`.
    InvalidTargetState,
    /// The listing held no issue.
    NoMatchingIssue,
    /// The listing held this many issues, more than one.
    AmbiguousFilterResult(usize),
    /// The tracker failed to create the issue.
    CreateFailed { cause: String },
    /// The tracker failed to return the issue of this number.
    ReadFailed { number: u64, cause: String },
    /// The tracker failed to list the issues.
    ListFailed { cause: String },
    /// The tracker failed to update the issue of this number.
    UpdateFailed { number: u64, cause: String },
}

/// The mathematical value of an [`IssueError`].
pub enum IssueErrorView {
    TitleMissing,
    NumberMissing,
    AmbiguousAssigneeFilter,
    InvalidStateFilter,
    InvalidTargetState,
    NoMatchingIssue,
    AmbiguousFilterResult(nat),
    CreateFailed { cause: Seq<char> },
    ReadFailed { number: u64, cause: Seq<char> },
    ListFailed { cause: Seq<char> },
    UpdateFailed { number: u64, cause: Seq<char> },
}

impl View for IssueError {
    type V = IssueErrorView;

    open spec fn view(&self) -> IssueErrorView {
        match *self {
            IssueError::TitleMissing => IssueErrorView::TitleMissing,
            IssueError::NumberMissing => IssueErrorView::NumberMissing,
            IssueError::AmbiguousAssigneeFilter => IssueErrorView::AmbiguousAssigneeFilter,
            IssueError::InvalidStateFilter => IssueErrorView::InvalidStateFilter,
            IssueError::InvalidTargetState => IssueErrorView::InvalidTargetState,
            IssueError::NoMatchingIssue => IssueErrorView::NoMatchingIssue,
            IssueError::AmbiguousFilterResult(count) => IssueErrorView::AmbiguousFilterResult(
                count as nat,
            ),
            IssueError::CreateFailed { cause } => IssueErrorView::CreateFailed { cause: cause@ },
            IssueError::ReadFailed { number, cause } => IssueErrorView::ReadFailed {
                number,
                cause: cause@,
            },
            IssueError::ListFailed { cause } => IssueErrorView::ListFailed { cause: cause@ },
            IssueError::UpdateFailed { number, cause } => IssueErrorView::UpdateFailed {
                number,
                cause: cause@,
            },
        }
    }
}

impl IssueErrorView {
    /// The class of the failure: missing or invalid configuration, a listing
    /// of the wrong size, or a failure on the tracker's side.
    pub open spec fn class(self) -> ErrorClass {
        match self {
            IssueErrorView::TitleMissing
            | IssueErrorView::NumberMissing
            | IssueErrorView::AmbiguousAssigneeFilter
            | IssueErrorView::InvalidStateFilter
            | IssueErrorView::InvalidTargetState => ErrorClass::Configuration,
            IssueErrorView::NoMatchingIssue
            | IssueErrorView::AmbiguousFilterResult(_) => ErrorClass::Cardinality,
            IssueErrorView::CreateFailed { .. }
            | IssueErrorView::ReadFailed { .. }
            | IssueErrorView::ListFailed { .. }
            | IssueErrorView::UpdateFailed { .. } => ErrorClass::Tracker,
        }
    }

    /// The short text that names the failure.
    pub open spec fn message(self) -> Seq<char> {
        match self {
            IssueErrorView::TitleMissing => "title unspecified"@,
            IssueErrorView::NumberMissing => "issue number unspecified"@,
            IssueErrorView::AmbiguousAssigneeFilter => "multiple assignees and list action"@,
            IssueErrorView::InvalidStateFilter => "the issue state must be either open, closed, or all"@,
            IssueErrorView::InvalidTargetState => "the issue state must be either open or closed"@,
            IssueErrorView::NoMatchingIssue => "unexpected number of issues"@,
            IssueErrorView::AmbiguousFilterResult(_) => "unexpected number of issues"@,
            IssueErrorView::CreateFailed { .. } => "issue not created"@,
            IssueErrorView::ReadFailed { .. } => "unknown issue"@,
            IssueErrorView::ListFailed { .. } => "unknown issues"@,
            IssueErrorView::UpdateFailed { .. } => "issue not updated"@,
        }
    }
}

impl IssueError {
    /// The class of the failure.
    pub fn class(&self) -> (class: ErrorClass)
        ensures
            class == self@.class(),
    {
        match self {
            IssueError::TitleMissing
            | IssueError::NumberMissing
            | IssueError::AmbiguousAssigneeFilter
            | IssueError::InvalidStateFilter
            | IssueError::InvalidTargetState => ErrorClass::Configuration,
            IssueError::NoMatchingIssue
            | IssueError::AmbiguousFilterResult(_) => ErrorClass::Cardinality,
            IssueError::CreateFailed { .. }
            | IssueError::ReadFailed { .. }
            | IssueError::ListFailed { .. }
            | IssueError::UpdateFailed { .. } => ErrorClass::Tracker,
        }
    }

    /// The short text that names the failure.
    pub fn message(&self) -> (text: &'static str)
        ensures
            text@ == self@.message(),
    {
        match self {
            IssueError::TitleMissing => "title unspecified",
            IssueError::NumberMissing => "issue number unspecified",
            IssueError::AmbiguousAssigneeFilter => "multiple assignees and list action",
            IssueError::InvalidStateFilter => "the issue state must be either open, closed, or all",
            IssueError::InvalidTargetState => "the issue state must be either open or closed",
            IssueError::NoMatchingIssue => "unexpected number of issues",
            IssueError::AmbiguousFilterResult(_) => "unexpected number of issues",
            IssueError::CreateFailed { .. } => "issue not created",
            IssueError::ReadFailed { .. } => "unknown issue",
            IssueError::ListFailed { .. } => "unknown issues",
            IssueError::UpdateFailed { .. } => "issue not updated",
        }
    }
}

} // verus!
