//! The steps of the resource, as far as they decide anything: what a check
//! asks of the tracker and which versions it reports, and what an output
//! step asks and leaves behind.
//!
//! Each step that needs the tracker comes in two halves. The first gives
//! the request and the action to dispatch; the second takes the outcome of
//! the dispatch and gives what the step returns.

use vstd::prelude::*;
use crate::concourse::{OutMetadata, OutParams, OutParamsView, Source, SourceView, Version};
use crate::error::{IssueError, IssueErrorView};
use crate::github_issue::{Action, Issue, IssueView};
use crate::state::IssueState;
use crate::text::{decimal, decimal_text, join};
use crate::tracker::{IssueRecord, TrackerCallView, TrackerOperationView};

verus! {

/// The versions that make the pipeline run: the last of them is new to it.
pub open spec fn triggered() -> Seq<Version> {
    seq![Version { state: IssueState::Open }, Version { state: IssueState::Closed }]
}

/// The versions that leave the pipeline at rest.
pub open spec fn untriggered() -> Seq<Version> {
    seq![Version { state: IssueState::Open }]
}

/// The versions of an issue observed in the state `observed`, for the
/// trigger state `trigger`: the triggered ones when the two are the same.
pub open spec fn evaluation(observed: IssueState, trigger: IssueState) -> Seq<Version> {
    if observed == trigger {
        triggered()
    } else {
        untriggered()
    }
}

/// The versions to report for an issue observed in the state `observed`.
pub fn evaluate(observed: IssueState, trigger: IssueState) -> (versions: Vec<Version>)
    ensures
        versions@ == evaluation(observed, trigger),
{
    let mut versions: Vec<Version> = Vec::new();
    versions.push(Version::new(IssueState::Open));
    if observed == trigger {
        versions.push(Version::new(IssueState::Closed));
    }
    versions
}

/// Whether `action` may be dispatched for a request with this number: an
/// issue that has a number is read or updated, one that has none is listed
/// for or created.
pub open spec fn fits(action: Action, number: Option<u64>) -> bool {
    match action {
        Action::Read | Action::Update => number is Some,
        Action::List | Action::Create => number is None,
    }
}

/// The action of a check: read the issue if its number is known, list for
/// it if not.
pub open spec fn check_action(source: SourceView) -> Action {
    if source.number is Some {
        Action::Read
    } else {
        Action::List
    }
}

/// The request of a check: the source's fields, with no title and no body.
pub open spec fn check_request(source: SourceView) -> IssueView {
    IssueView {
        pat: source.pat,
        owner: source.owner,
        repo: source.repo,
        title: None,
        body: None,
        labels: source.labels,
        assignees: source.assignees(),
        number: source.number,
        state: source.state,
        milestone: source.milestone,
    }
}

/// What a check reports, given the outcome of its dispatch. A skipped check
/// reports the triggered versions whatever the outcome; otherwise a failed
/// dispatch fails the check, and an issue is evaluated against the trigger
/// state.
pub open spec fn check_versions(
    source: SourceView,
    outcome: Result<IssueState, IssueErrorView>,
) -> Result<Seq<Version>, IssueErrorView> {
    if source.skips_check() {
        Ok(triggered())
    } else {
        match outcome {
            Ok(observed) => Ok(evaluation(observed, source.trigger_state())),
            Err(error) => Err(error),
        }
    }
}

/// The first half of a check.
#[derive(Debug, PartialEq, Eq)]
pub enum CheckStep<'a> {
    /// The check is over, with these versions, and the tracker is not asked.
    Versions(Vec<Version>),
    /// The request is to be dispatched with the action.
    Dispatch(Issue<'a>, Action),
}

/// Begins a check: a skipped one ends at once with the triggered versions,
/// any other dispatches the source's request.
pub fn check_begin<'a>(source: &'a Source) -> (step: CheckStep<'a>)
    ensures
        match step {
            CheckStep::Versions(versions) => source@.skips_check() && versions@ == triggered(),
            CheckStep::Dispatch(issue, action) => {
                &&& !source@.skips_check()
                &&& issue@ == check_request(source@)
                &&& action == check_action(source@)
                &&& fits(action, issue.number)
            },
        },
{
    if source.skip_check() {
        let mut versions: Vec<Version> = Vec::new();
        versions.push(Version::new(IssueState::Open));
        versions.push(Version::new(IssueState::Closed));
        return CheckStep::Versions(versions);
    }
    let issue = Issue::new(
        source.pat(),
        source.owner(),
        source.repo(),
        None,
        None,
        source.labels(),
        source.assignee(),
        source.number(),
        source.state(),
        source.milestone(),
    );
    let action = match source.number() {
        Some(_) => Action::Read,
        None => Action::List,
    };
    CheckStep::Dispatch(issue, action)
}

/// The state that a dispatch observed, or its failure.
pub open spec fn observed(outcome: Result<IssueRecord, IssueError>) -> Result<
    IssueState,
    IssueErrorView,
> {
    match outcome {
        Ok(issue) => Ok(issue.state),
        Err(error) => Err(error@),
    }
}

/// Ends a check with the outcome of its dispatch.
pub fn check_end(source: &Source, outcome: Result<IssueRecord, IssueError>) -> (r: Result<
    Vec<Version>,
    IssueError,
>)
    ensures
        match r {
            Ok(versions) => check_versions(source@, observed(outcome)) == Ok::<
                Seq<Version>,
                IssueErrorView,
            >(versions@),
            Err(error) => outcome == Err::<IssueRecord, IssueError>(error) && check_versions(
                source@,
                observed(outcome),
            ) == Err::<Seq<Version>, IssueErrorView>(error@),
        },
{
    if source.skip_check() {
        return Ok(evaluate(IssueState::Closed, IssueState::Closed));
    }
    match outcome {
        Ok(issue) => Ok(evaluate(issue.state, source.trigger())),
        Err(error) => Err(error),
    }
}

/// The version that an input step returns: there is nothing to fetch, so
/// it is the same for every issue.
pub fn in_version() -> (version: Version)
    ensures
        version == (Version { state: IssueState::Open }),
{
    Version::new(IssueState::Open)
}

/// The action of an output step: update the issue if its number is known,
/// create it if not.
pub open spec fn out_action(source: SourceView) -> Action {
    if source.number is Some {
        Action::Update
    } else {
        Action::Create
    }
}

/// The request of an output step: credentials, repository and number from
/// the source, every other field from the parameters.
pub open spec fn out_request(source: SourceView, params: OutParamsView) -> IssueView {
    IssueView {
        pat: source.pat,
        owner: source.owner,
        repo: source.repo,
        title: params.title,
        body: params.body,
        labels: params.labels,
        assignees: params.assignees,
        number: source.number,
        state: params.state,
        milestone: params.milestone,
    }
}

/// Begins an output step: the request and the action to dispatch.
pub fn out_begin<'a>(source: &'a Source, params: &'a OutParams) -> (step: (Issue<'a>, Action))
    ensures
        step.0@ == out_request(source@, params@),
        step.1 == out_action(source@),
        fits(step.1, step.0.number),
{
    let issue = Issue::new(
        source.pat(),
        source.owner(),
        source.repo(),
        params.title(),
        params.body(),
        params.labels(),
        params.assignees(),
        source.number(),
        params.state(),
        params.milestone(),
    );
    let action = match source.number() {
        Some(_) => Action::Update,
        None => Action::Create,
    };
    (issue, action)
}

/// A file for later steps of the pipeline to read.
#[derive(Clone, Debug, PartialEq, Eq)]
pub struct ScratchFile {
    pub path: String,
    pub content: String,
}

/// What an output step returns and leaves behind.
#[derive(Clone, Debug, PartialEq, Eq)]
pub struct OutResult {
    pub version: Version,
    pub metadata: OutMetadata,
    /// The file to write, if the step created the issue. Failing to write
    /// it does not fail the step.
    pub scratch: Option<ScratchFile>,
}

/// The path of the file that holds the number of a created issue, in the
/// directory `dir`.
pub open spec fn scratch_path(dir: Seq<char>) -> Seq<char> {
    dir + "/issue_number.txt"@
}

/// Ends an output step with the issue that its dispatch returned: the
/// version is always the open one, the metadata shows the issue, and the
/// number of a created issue is to be written, in decimal, to a file in
/// `dir`.
pub fn out_end(source: &Source, issue: IssueRecord, dir: &str) -> (r: OutResult)
    ensures
        r.version == (Version { state: IssueState::Open }),
        r.metadata == (OutMetadata {
            number: issue.number,
            url: issue.url,
            title: issue.title,
            state: issue.state,
            labels: issue.labels,
            assignees: issue.assignees,
            milestone: issue.milestone,
            created: issue.created_at,
            updated: issue.updated_at,
        }),
        source.number is Some ==> r.scratch is None,
        source.number is None ==> r.scratch is Some && r.scratch->0.path@ == scratch_path(dir@)
            && r.scratch->0.content@ == decimal(issue.number as nat),
{
    let scratch = match source.number() {
        Some(_) => None,
        None => Some(
            ScratchFile {
                path: join(dir, "/issue_number.txt"),
                content: decimal_text(issue.number),
            },
        ),
    };
    let metadata = OutMetadata::new(
        issue.number,
        issue.url,
        issue.title,
        issue.state,
        issue.labels,
        issue.assignees,
        issue.milestone,
        issue.created_at,
        issue.updated_at,
    );
    OutResult { version: Version::new(IssueState::Open), metadata, scratch }
}

/// A skipped check reports the triggered versions, whatever the tracker
/// would have answered.
pub proof fn lemma_skipped_check_is_triggered(
    source: SourceView,
    outcome: Result<IssueState, IssueErrorView>,
)
    requires
        source.skips_check(),
    ensures
        check_versions(source, outcome) == Ok::<Seq<Version>, IssueErrorView>(triggered()),
{
}

/// An evaluation holds one version or two, the first of them always the open
/// one; it holds the second, the closed one, exactly when the observed state
/// is the trigger state.
pub proof fn lemma_evaluation_appends_at_most_one(observed: IssueState, trigger: IssueState)
    ensures
        evaluation(observed, trigger)[0] == (Version { state: IssueState::Open }),
        observed == trigger <==> evaluation(observed, trigger).len() == 2,
        observed != trigger <==> evaluation(observed, trigger).len() == 1,
        observed == trigger ==> evaluation(observed, trigger)[1] == (Version {
            state: IssueState::Closed,
        }),
{
}

/// The action of a step fits the number of its request, so neither step is
/// ever refused for a missing number.
pub proof fn lemma_steps_fit(source: SourceView, params: OutParamsView)
    ensures
        fits(check_action(source), check_request(source).number),
        fits(out_action(source), out_request(source, params).number),
        check_request(source).plan(check_action(source)) != Err::<
            TrackerCallView,
            IssueErrorView,
        >(IssueErrorView::NumberMissing),
        out_request(source, params).plan(out_action(source)) != Err::<
            TrackerCallView,
            IssueErrorView,
        >(IssueErrorView::NumberMissing),
{
}

/// A check asks the tracker for one thing: the issue of the source's number
/// where it has one, and otherwise a listing narrowed by the source's
/// filters. A source names at most one assignee, so its listing is never
/// refused as ambiguous.
pub proof fn lemma_check_asks_for_one_issue(source: SourceView)
    ensures
        source.number is Some ==> check_request(source).plan(check_action(source)) == Ok::<
            TrackerCallView,
            IssueErrorView,
        >(
            check_request(source).call(TrackerOperationView::Get { number: source.number->0 }),
        ),
        source.number is None ==> check_request(source).plan(check_action(source))
            == check_request(source).list(),
        check_request(source).plan(check_action(source)) != Err::<
            TrackerCallView,
            IssueErrorView,
        >(IssueErrorView::AmbiguousAssigneeFilter),
{
}

/// Every field of a request reads back as the field of the document it was
/// taken from, present or absent alike.
pub proof fn lemma_request_reads_back(source: SourceView, params: OutParamsView)
    ensures
        ({
            let request = check_request(source);
            &&& request.pat == source.pat
            &&& request.owner == source.owner
            &&& request.repo == source.repo
            &&& request.title is None
            &&& request.body is None
            &&& request.labels == source.labels
            &&& request.assignees is Some <==> source.assignee is Some
            &&& source.assignee is Some ==> request.assignees->0 == seq![source.assignee->0]
            &&& request.number == source.number
            &&& request.state == source.state
            &&& request.milestone == source.milestone
        }),
        ({
            let request = out_request(source, params);
            &&& request.pat == source.pat
            &&& request.owner == source.owner
            &&& request.repo == source.repo
            &&& request.title == params.title
            &&& request.body == params.body
            &&& request.labels == params.labels
            &&& request.assignees == params.assignees
            &&& request.number == source.number
            &&& request.state == params.state
            &&& request.milestone == params.milestone
        }),
{
}

} // verus!
