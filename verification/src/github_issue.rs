//! The action dispatcher: from a request and an action to the one call the
//! tracker is to receive, and from the tracker's reply to the outcome.
//!
//! Nothing here reaches the tracker. A caller asks [`Issue::main`] for the
//! call, makes it, and hands the reply to the `conclude_*` function of the
//! action. A request that is refused yields no call, so none is made.

use vstd::prelude::*;
use crate::error::{ErrorClass, IssueError, IssueErrorView};
use crate::state::{parse_state, state_word, IssueState, StateFilter};
use crate::tracker::{
    IssueRecord, TrackerCall, TrackerCallView, TrackerOperation, TrackerOperationView,
};

verus! {

/// The operations on an issue.
#[non_exhaustive]
#[derive(Clone, Copy, Debug, PartialEq, Eq, Structural)]
pub enum Action {
    Create,
    List,
    Read,
    Update,
}

impl Action {
    /// The name of the action, for diagnostics.
    pub open spec fn label(self) -> Seq<char> {
        match self {
            Action::Create => "Create"@,
            Action::List => "List"@,
            Action::Read => "Read"@,
            Action::Update => "Update"@,
        }
    }

    /// The name of the action, for diagnostics.
    pub fn name(self) -> (text: &'static str)
        ensures
            text@ == self.label(),
    {
        match self {
            Action::Create => "Create",
            Action::List => "List",
            Action::Read => "Read",
            Action::Update => "Update",
        }
    }
}

impl From<Action> for String {
    /// The name of the action, as an owned text.
    fn from(action: Action) -> (text: String)
        ensures
            text@ == action.label(),
    {
        String::from_str(action.name())
    }
}

// A `String` cannot be written down in a specification, only its view can:
// what `from` returns is stated by its own contract.
impl vstd::std_specs::convert::FromSpecImpl<Action> for String {
    open spec fn obeys_from_spec() -> bool {
        false
    }

    open spec fn from_spec(action: Action) -> String {
        arbitrary()
    }
}

/// The state that a listing is narrowed to when the request names none:
/// issues of every state are listed.
pub const DEFAULT_LIST_STATE: StateFilter = StateFilter::All;

/// The filter that a state word stands for.
pub open spec fn filter_state(word: Seq<char>) -> Result<StateFilter, IssueErrorView> {
    match state_word(word) {
        Some(filter) => Ok(filter),
        None => Err(IssueErrorView::InvalidStateFilter),
    }
}

/// The state that a state word asks an issue to be put in. `all` names no
/// state of an issue, so it is refused here.
pub open spec fn target_state(word: Seq<char>) -> Result<IssueState, IssueErrorView> {
    match state_word(word) {
        Some(StateFilter::Open) => Ok(IssueState::Open),
        Some(StateFilter::Closed) => Ok(IssueState::Closed),
        _ => Err(IssueErrorView::InvalidTargetState),
    }
}

/// Reads the state that an update is to set.
pub fn str_to_issue_state(param: &str) -> (r: Result<IssueState, IssueError>)
    ensures
        match r {
            Ok(state) => target_state(param@) == Ok::<IssueState, IssueErrorView>(state),
            Err(error) => target_state(param@) == Err::<IssueState, IssueErrorView>(error@),
        },
{
    match parse_state(param) {
        Some(StateFilter::Open) => Ok(IssueState::Open),
        Some(StateFilter::Closed) => Ok(IssueState::Closed),
        _ => Err(IssueError::InvalidTargetState),
    }
}

/// Reads the state that a listing is narrowed to.
pub fn str_to_params_state(param: &str) -> (r: Result<StateFilter, IssueError>)
    ensures
        match r {
            Ok(filter) => filter_state(param@) == Ok::<StateFilter, IssueErrorView>(filter),
            Err(error) => filter_state(param@) == Err::<StateFilter, IssueErrorView>(error@),
        },
{
    match parse_state(param) {
        Some(filter) => Ok(filter),
        None => Err(IssueError::InvalidStateFilter),
    }
}

/// A request: where the issue lives, which issue it is if that is known,
/// and the fields that the operations read.
#[derive(Debug, PartialEq, Eq)]
pub struct Issue<'issue> {
    pub pat: Option<&'issue str>,
    pub owner: &'issue str,
    pub repo: &'issue str,
    pub title: Option<&'issue str>,
    pub body: Option<&'issue str>,
    pub labels: Option<Vec<String>>,
    pub assignees: Option<Vec<String>>,
    pub number: Option<u64>,
    pub state: Option<&'issue str>,
    pub milestone: Option<u64>,
}

/// The mathematical value of an [`Issue`].
pub struct IssueView {
    pub pat: Option<Seq<char>>,
    pub owner: Seq<char>,
    pub repo: Seq<char>,
    pub title: Option<Seq<char>>,
    pub body: Option<Seq<char>>,
    pub labels: Option<Seq<Seq<char>>>,
    pub assignees: Option<Seq<Seq<char>>>,
    pub number: Option<u64>,
    pub state: Option<Seq<char>>,
    pub milestone: Option<u64>,
}

impl<'issue> View for Issue<'issue> {
    type V = IssueView;

    open spec fn view(&self) -> IssueView {
        IssueView {
            pat: self.pat.deep_view(),
            owner: self.owner@,
            repo: self.repo@,
            title: self.title.deep_view(),
            body: self.body.deep_view(),
            labels: self.labels.deep_view(),
            assignees: self.assignees.deep_view(),
            number: self.number,
            state: self.state.deep_view(),
            milestone: self.milestone,
        }
    }
}

impl IssueView {
    /// The call with this request's credentials and repository.
    pub open spec fn call(self, operation: TrackerOperationView) -> TrackerCallView {
        TrackerCallView { pat: self.pat, owner: self.owner, repo: self.repo, operation }
    }

    /// Create: a title is required; body, labels, assignees and milestone go
    /// along as far as they are present.
    pub open spec fn create(self) -> Result<TrackerCallView, IssueErrorView> {
        match self.title {
            None => Err(IssueErrorView::TitleMissing),
            Some(title) => Ok(
                self.call(
                    TrackerOperationView::Create {
                        title,
                        body: self.body,
                        labels: self.labels,
                        assignees: self.assignees,
                        milestone: self.milestone,
                    },
                ),
            ),
        }
    }

    /// Read: a number is required, and exactly that issue is looked up.
    pub open spec fn read(self) -> Result<TrackerCallView, IssueErrorView> {
        match self.number {
            None => Err(IssueErrorView::NumberMissing),
            Some(number) => Ok(self.call(TrackerOperationView::Get { number })),
        }
    }

    /// The one assignee that a listing filters by, if the request names one.
    pub open spec fn assignee_filter(self) -> Option<Seq<char>> {
        match self.assignees {
            Some(names) if names.len() == 1 => Some(names[0]),
            _ => None,
        }
    }

    /// List: more than one assignee is refused first; then the state word is
    /// read, [`DEFAULT_LIST_STATE`] standing in for an absent one; milestone,
    /// assignee and labels filter as far as they are present.
    pub open spec fn list(self) -> Result<TrackerCallView, IssueErrorView> {
        if self.assignees is Some && self.assignees->0.len() > 1 {
            Err(IssueErrorView::AmbiguousAssigneeFilter)
        } else {
            let state = match self.state {
                Some(word) => filter_state(word),
                None => Ok(DEFAULT_LIST_STATE),
            };
            match state {
                Err(error) => Err(error),
                Ok(state) => Ok(
                    self.call(
                        TrackerOperationView::List {
                            state,
                            milestone: self.milestone,
                            assignee: self.assignee_filter(),
                            labels: self.labels,
                        },
                    ),
                ),
            }
        }
    }

    /// Update: a number is required; the state word, if there is one, must
    /// name a state of an issue; every field present is sent, every absent one
    /// is left out of the call.
    pub open spec fn update(self) -> Result<TrackerCallView, IssueErrorView> {
        match self.number {
            None => Err(IssueErrorView::NumberMissing),
            Some(number) => {
                let state = match self.state {
                    Some(word) => match target_state(word) {
                        Ok(state) => Ok(Some(state)),
                        Err(error) => Err(error),
                    },
                    None => Ok(None),
                };
                match state {
                    Err(error) => Err(error),
                    Ok(state) => Ok(
                        self.call(
                            TrackerOperationView::Update {
                                number,
                                title: self.title,
                                body: self.body,
                                labels: self.labels,
                                assignees: self.assignees,
                                state,
                                milestone: self.milestone,
                            },
                        ),
                    ),
                }
            },
        }
    }

    /// The call that `action` makes for this request, or why none is made.
    pub open spec fn plan(self, action: Action) -> Result<TrackerCallView, IssueErrorView> {
        match action {
            Action::Create => self.create(),
            Action::List => self.list(),
            Action::Read => self.read(),
            Action::Update => self.update(),
        }
    }
}

/// The mathematical value of what a dispatch step returns.
pub open spec fn planned(r: Result<TrackerCall<'_>, IssueError>) -> Result<
    TrackerCallView,
    IssueErrorView,
> {
    match r {
        Ok(call) => Ok(call@),
        Err(error) => Err(error@),
    }
}

impl<'issue> Issue<'issue> {
    /// A request with the fields given.
    pub fn new(
        pat: Option<&'issue str>,
        owner: &'issue str,
        repo: &'issue str,
        title: Option<&'issue str>,
        body: Option<&'issue str>,
        labels: Option<Vec<String>>,
        assignees: Option<Vec<String>>,
        number: Option<u64>,
        state: Option<&'issue str>,
        milestone: Option<u64>,
    ) -> (issue: Self)
        ensures
            issue == (Issue {
                pat,
                owner,
                repo,
                title,
                body,
                labels,
                assignees,
                number,
                state,
                milestone,
            }),
    {
        Self { pat, owner, repo, title, body, labels, assignees, number, state, milestone }
    }

    /// The call that `action` makes for this request, or the reason why the
    /// request is refused and no call is made.
    pub fn main<'a>(&'a self, action: Action) -> (r: Result<TrackerCall<'a>, IssueError>)
        ensures
            planned(r) == self@.plan(action),
            action == Action::Create && self.title is None ==> r == Err::<
                TrackerCall<'a>,
                IssueError,
            >(IssueError::TitleMissing),
            (action == Action::Read || action == Action::Update) && self.number is None ==> r
                == Err::<TrackerCall<'a>, IssueError>(IssueError::NumberMissing),
            action == Action::List && self.assignees is Some && self.assignees->0.len() > 1 ==> r
                == Err::<TrackerCall<'a>, IssueError>(IssueError::AmbiguousAssigneeFilter),
    {
        match action {
            Action::Create => self.create(),
            Action::List => self.list(),
            Action::Read => self.read(),
            Action::Update => self.update(),
        }
    }

    /// The call that creates the issue.
    pub fn create<'a>(&'a self) -> (r: Result<TrackerCall<'a>, IssueError>)
        ensures
            planned(r) == self@.create(),
            self.title is None ==> r == Err::<TrackerCall<'a>, IssueError>(
                IssueError::TitleMissing,
            ),
    {
        match self.title {
            Some(title) => Ok(
                TrackerCall {
                    pat: self.pat,
                    owner: self.owner,
                    repo: self.repo,
                    operation: TrackerOperation::Create {
                        title,
                        body: self.body,
                        labels: self.labels.as_ref(),
                        assignees: self.assignees.as_ref(),
                        milestone: self.milestone,
                    },
                },
            ),
            None => Err(IssueError::TitleMissing),
        }
    }

    /// The call that looks the issue up.
    pub fn read<'a>(&'a self) -> (r: Result<TrackerCall<'a>, IssueError>)
        ensures
            planned(r) == self@.read(),
            self.number is None ==> r == Err::<TrackerCall<'a>, IssueError>(
                IssueError::NumberMissing,
            ),
    {
        match self.number {
            Some(number) => Ok(
                TrackerCall {
                    pat: self.pat,
                    owner: self.owner,
                    repo: self.repo,
                    operation: TrackerOperation::Get { number },
                },
            ),
            None => Err(IssueError::NumberMissing),
        }
    }

    /// The call that lists the issues which pass the request's filters.
    pub fn list<'a>(&'a self) -> (r: Result<TrackerCall<'a>, IssueError>)
        ensures
            planned(r) == self@.list(),
            self.assignees is Some && self.assignees->0.len() > 1 ==> r == Err::<
                TrackerCall<'a>,
                IssueError,
            >(IssueError::AmbiguousAssigneeFilter),
    {
        let assignee: Option<&str> = match &self.assignees {
            Some(names) => {
                if names.len() > 1 {
                    return Err(IssueError::AmbiguousAssigneeFilter);
                }
                if names.len() == 1 {
                    Some(names[0].as_str())
                } else {
                    None
                }
            },
            None => None,
        };
        let state: StateFilter = match self.state {
            Some(word) => match str_to_params_state(word) {
                Ok(state) => state,
                Err(error) => {
                    return Err(error);
                },
            },
            None => DEFAULT_LIST_STATE,
        };
        Ok(
            TrackerCall {
                pat: self.pat,
                owner: self.owner,
                repo: self.repo,
                operation: TrackerOperation::List {
                    state,
                    milestone: self.milestone,
                    assignee,
                    labels: self.labels.as_ref(),
                },
            },
        )
    }

    /// The call that updates the issue.
    pub fn update<'a>(&'a self) -> (r: Result<TrackerCall<'a>, IssueError>)
        ensures
            planned(r) == self@.update(),
            self.number is None ==> r == Err::<TrackerCall<'a>, IssueError>(
                IssueError::NumberMissing,
            ),
    {
        match self.number {
            Some(number) => {
                let state: Option<IssueState> = match self.state {
                    Some(word) => match str_to_issue_state(word) {
                        Ok(state) => Some(state),
                        Err(error) => {
                            return Err(error);
                        },
                    },
                    None => None,
                };
                Ok(
                    TrackerCall {
                        pat: self.pat,
                        owner: self.owner,
                        repo: self.repo,
                        operation: TrackerOperation::Update {
                            number,
                            title: self.title,
                            body: self.body,
                            labels: self.labels.as_ref(),
                            assignees: self.assignees.as_ref(),
                            state,
                            milestone: self.milestone,
                        },
                    },
                )
            },
            None => Err(IssueError::NumberMissing),
        }
    }
}

/// What a listing comes to: the page must hold exactly one issue, which is
/// the outcome; an empty page and a page of several are both failures.
pub open spec fn list_outcome(page: Seq<IssueRecord>) -> Result<IssueRecord, IssueError> {
    if page.len() == 1 {
        Ok(page[0])
    } else if page.len() == 0 {
        Err(IssueError::NoMatchingIssue)
    } else {
        Err(IssueError::AmbiguousFilterResult(page.len() as usize))
    }
}

/// The outcome of a create, from the tracker's reply: the created issue, or
/// the tracker's failure.
pub fn conclude_create(reply: Result<IssueRecord, String>) -> (r: Result<IssueRecord, IssueError>)
    ensures
        r == match reply {
            Ok(issue) => Ok::<IssueRecord, IssueError>(issue),
            Err(cause) => Err(IssueError::CreateFailed { cause }),
        },
{
    match reply {
        Ok(issue) => Ok(issue),
        Err(cause) => Err(IssueError::CreateFailed { cause }),
    }
}

/// The outcome of a read of the issue `number`, from the tracker's reply: the
/// issue, or the tracker's failure, whatever it was.
pub fn conclude_read(number: u64, reply: Result<IssueRecord, String>) -> (r: Result<
    IssueRecord,
    IssueError,
>)
    ensures
        r == match reply {
            Ok(issue) => Ok::<IssueRecord, IssueError>(issue),
            Err(cause) => Err(IssueError::ReadFailed { number, cause }),
        },
{
    match reply {
        Ok(issue) => Ok(issue),
        Err(cause) => Err(IssueError::ReadFailed { number, cause }),
    }
}

/// The outcome of a listing, from the tracker's reply: the items of the
/// first page, or the tracker's failure. No further page is asked for.
pub fn conclude_list(reply: Result<Vec<IssueRecord>, String>) -> (r: Result<
    IssueRecord,
    IssueError,
>)
    ensures
        r == match reply {
            Ok(page) => list_outcome(page@),
            Err(cause) => Err(IssueError::ListFailed { cause }),
        },
        reply matches Ok(page) ==> (page.len() == 1 ==> r == Ok::<IssueRecord, IssueError>(
            page[0],
        )),
        reply matches Ok(page) ==> (page.len() != 1 ==> r is Err && r->Err_0@.class()
            == ErrorClass::Cardinality),
{
    match reply {
        Ok(page) => {
            let count: usize = page.len();
            let mut page = page;
            match page.pop() {
                None => Err(IssueError::NoMatchingIssue),
                Some(issue) => if count == 1 {
                    Ok(issue)
                } else {
                    Err(IssueError::AmbiguousFilterResult(count))
                },
            }
        },
        Err(cause) => Err(IssueError::ListFailed { cause }),
    }
}

/// The outcome of an update of the issue `number`, from the tracker's reply:
/// the updated issue, or the tracker's failure.
pub fn conclude_update(number: u64, reply: Result<IssueRecord, String>) -> (r: Result<
    IssueRecord,
    IssueError,
>)
    ensures
        r == match reply {
            Ok(issue) => Ok::<IssueRecord, IssueError>(issue),
            Err(cause) => Err(IssueError::UpdateFailed { number, cause }),
        },
{
    match reply {
        Ok(issue) => Ok(issue),
        Err(cause) => Err(IssueError::UpdateFailed { number, cause }),
    }
}

/// A create without a title is refused with `TitleMissing`, whatever else
/// the request holds, so no call is made for it.
pub proof fn lemma_create_needs_title(issue: IssueView)
    requires
        issue.title is None,
    ensures
        issue.plan(Action::Create) == Err::<TrackerCallView, IssueErrorView>(
            IssueErrorView::TitleMissing,
        ),
{
}

/// A read and an update without a number are refused with `NumberMissing`,
/// whatever else the request holds, so no call is made for them.
pub proof fn lemma_read_and_update_need_number(issue: IssueView)
    requires
        issue.number is None,
    ensures
        issue.plan(Action::Read) == Err::<TrackerCallView, IssueErrorView>(
            IssueErrorView::NumberMissing,
        ),
        issue.plan(Action::Update) == Err::<TrackerCallView, IssueErrorView>(
            IssueErrorView::NumberMissing,
        ),
{
}

/// A listing with more than one assignee is refused with
/// `AmbiguousAssigneeFilter`, whatever else the request holds, so no call is
/// made for it.
pub proof fn lemma_list_refuses_several_assignees(issue: IssueView)
    requires
        issue.assignees is Some,
        issue.assignees->0.len() > 1,
    ensures
        issue.plan(Action::List) == Err::<TrackerCallView, IssueErrorView>(
            IssueErrorView::AmbiguousAssigneeFilter,
        ),
{
}

/// Every refusal of a request is a failure of the configuration, and a
/// request that is not refused yields a call to the request's repository
/// with the request's credentials.
pub proof fn lemma_plan_refuses_or_calls(issue: IssueView, action: Action)
    ensures
        match issue.plan(action) {
            Err(error) => error.class() == ErrorClass::Configuration,
            Ok(call) => call.pat == issue.pat && call.owner == issue.owner && call.repo
                == issue.repo,
        },
{
}

/// An update sends the fields that the request holds and no others: a field
/// that is absent from the request is absent from the call, and one that is
/// present goes as it is, empty or not.
pub proof fn lemma_update_sends_what_is_present(issue: IssueView)
    requires
        issue.plan(Action::Update) is Ok,
    ensures
        issue.plan(Action::Update)->Ok_0.operation matches TrackerOperationView::Update {
            number,
            title,
            body,
            labels,
            assignees,
            state,
            milestone,
        } && {
            &&& Some(number) == issue.number
            &&& title == issue.title
            &&& body == issue.body
            &&& labels == issue.labels
            &&& assignees == issue.assignees
            &&& milestone == issue.milestone
            &&& (state is Some <==> issue.state is Some)
        },
{
}

/// A listing yields an issue exactly when the page holds one issue, and then
/// it is that issue, unchanged; every other page is a failure of
/// cardinality.
pub proof fn lemma_list_needs_exactly_one(page: Seq<IssueRecord>)
    ensures
        page.len() == 1 ==> list_outcome(page) == Ok::<IssueRecord, IssueError>(page[0]),
        page.len() != 1 ==> list_outcome(page) is Err && list_outcome(page)->Err_0@.class()
            == ErrorClass::Cardinality,
{
}

} // verus!
