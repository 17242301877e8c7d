use concourse_github_issue::concourse::{OutMetadata, OutParams, Source, Version};
use concourse_github_issue::github_issue::str_to_issue_state;
use concourse_github_issue::state::IssueState;

#[test]
fn concourse_test_version_new() {
    let state = str_to_issue_state("open").expect("open is a state of an issue");
    assert_eq!(
        Version::new(state),
        Version {
            state: IssueState::Open
        },
        "version could not be constructed with the correct issue state",
    );
}

#[test]
fn tests_test_version_new() {
    assert_eq!(
        Version::new(IssueState::Open),
        Version {
            state: IssueState::Open
        },
        "version could not be constructed with the correct issue state",
    );
}

#[test]
fn version_equality_is_by_state() {
    assert_eq!(Version::new(IssueState::Closed), Version::new(IssueState::Closed));
    assert_ne!(Version::new(IssueState::Open), Version::new(IssueState::Closed));
}

#[test]
fn concourse_test_source_owner() {
    assert_eq!(
        Source {
            pat: None,
            owner: String::from("myorg"),
            repo: String::from("myrepo"),
            state: Some(String::from("all")),
            number: None,
            milestone: None,
            assignee: None,
            labels: None,
            skip_check: None,
            trigger: None,
        }
        .owner,
        String::from("myorg"),
        "reader for source owner did not return expected member value"
    )
}

#[test]
fn tests_test_source_owner() {
    assert_eq!(
        Source {
            pat: None,
            owner: String::from("myorg"),
            repo: String::from("myrepo"),
            state: Some(String::from("all")),
            number: None,
            milestone: None,
            assignee: None,
            labels: None,
            skip_check: None,
            trigger: None,
        }
        .owner,
        String::from("myorg"),
        "reader for source owner did not return expected member value"
    )
}

#[test]
fn concourse_test_outparams_title() {
    assert_eq!(
        OutParams {
            title: Some(String::from("mytitle")),
            body: None,
            labels: None,
            assignees: None,
            milestone: None,
            lock: None,
            state: None,
        }
        .title,
        Some(String::from("mytitle")),
        "reader for outparams title did not return expected member value"
    )
}

#[test]
fn tests_test_outparams_title() {
    assert_eq!(
        OutParams {
            title: Some(String::from("mytitle")),
            body: None,
            labels: None,
            assignees: None,
            milestone: None,
            lock: None,
            state: None,
        }
        .title,
        Some(String::from("mytitle")),
        "reader for outparams title did not return expected member value"
    )
}

#[test]
fn concourse_test_outmetadata_new() {
    assert_eq!(
        OutMetadata::new(
            5,
            String::from("http://does.not.exist"),
            String::from("some issue"),
            IssueState::Open,
            vec![],
            vec![],
            None,
            String::from("yesterday"),
            String::from("today"),
        ),
        OutMetadata {
            number: 5,
            url: String::from("http://does.not.exist"),
            title: String::from("some issue"),
            state: IssueState::Open,
            labels: vec![],
            assignees: vec![],
            milestone: None,
            created: String::from("yesterday"),
            updated: String::from("today"),
        },
        "outmetadata could not be constructed with the correct values"
    )
}

#[test]
fn tests_test_outmetadata_new() {
    assert_eq!(
        OutMetadata::new(
            5,
            String::from("http://does.not.exist"),
            String::from("some issue"),
            IssueState::Open,
            vec![],
            vec![],
            None,
            String::from("yesterday"),
            String::from("today"),
        ),
        OutMetadata {
            number: 5,
            url: String::from("http://does.not.exist"),
            title: String::from("some issue"),
            state: IssueState::Open,
            labels: vec![],
            assignees: vec![],
            milestone: None,
            created: String::from("yesterday"),
            updated: String::from("today"),
        },
        "outmetadata could not be constructed with the correct values"
    )
}

#[test]
fn outmetadata_new_keeps_lists_and_milestone() {
    let metadata = OutMetadata::new(
        7,
        String::from("u"),
        String::from("t"),
        IssueState::Closed,
        vec![String::from("bug"), String::from("ci")],
        vec![String::from("ann")],
        Some(3),
        String::from("c"),
        String::from("d"),
    );
    assert_eq!(metadata.number, 7);
    assert_eq!(metadata.state, IssueState::Closed);
    assert_eq!(metadata.labels, vec![String::from("bug"), String::from("ci")]);
    assert_eq!(metadata.assignees, vec![String::from("ann")]);
    assert_eq!(metadata.milestone, Some(3));
    assert_eq!(metadata.created, "c");
    assert_eq!(metadata.updated, "d");
}

fn full_source() -> Source {
    Source {
        pat: Some(String::from("my_pat")),
        owner: String::from("mitodl"),
        repo: String::from("ol-infrastructure"),
        number: Some(1),
        state: Some(String::from("open")),
        milestone: Some(3),
        assignee: Some(String::from("pdpinch")),
        labels: Some(vec![String::from("bug"), String::from("ci")]),
        skip_check: Some(true),
        trigger: Some(IssueState::Open),
    }
}

fn bare_source() -> Source {
    Source {
        pat: None,
        owner: String::from("o"),
        repo: String::from("r"),
        number: None,
        state: None,
        milestone: None,
        assignee: None,
        labels: None,
        skip_check: None,
        trigger: None,
    }
}

#[test]
fn source_readers_return_present_fields() {
    let source = full_source();
    assert_eq!(source.pat(), Some("my_pat"));
    assert_eq!(source.owner(), "mitodl");
    assert_eq!(source.repo(), "ol-infrastructure");
    assert_eq!(source.number(), Some(1));
    assert_eq!(source.state(), Some("open"));
    assert_eq!(source.milestone(), Some(3));
    assert_eq!(source.assignee(), Some(vec![String::from("pdpinch")]));
    assert_eq!(
        source.labels(),
        Some(vec![String::from("bug"), String::from("ci")])
    );
    assert!(source.skip_check());
    assert_eq!(source.trigger(), IssueState::Open);
}

#[test]
fn source_readers_return_absent_fields_and_defaults() {
    let source = bare_source();
    assert_eq!(source.pat(), None);
    assert_eq!(source.owner(), "o");
    assert_eq!(source.repo(), "r");
    assert_eq!(source.number(), None);
    assert_eq!(source.state(), None);
    assert_eq!(source.milestone(), None);
    assert_eq!(source.assignee(), None);
    assert_eq!(source.labels(), None);
    assert!(!source.skip_check());
    assert_eq!(source.trigger(), IssueState::Closed);
}

#[test]
fn source_skip_check_false_is_not_skipped() {
    let mut source = bare_source();
    source.skip_check = Some(false);
    assert!(!source.skip_check());
}

#[test]
fn source_labels_present_and_empty_stay_empty() {
    let mut source = bare_source();
    source.labels = Some(vec![]);
    assert_eq!(source.labels(), Some(vec![]));
}

#[test]
fn outparams_readers_return_present_fields() {
    let params = OutParams {
        title: Some(String::from("my_issue")),
        body: Some(String::from("approve the concourse step")),
        labels: Some(vec![String::from("triage")]),
        assignees: Some(vec![
            String::from("my_user_one"),
            String::from("my_user_two"),
        ]),
        milestone: Some(2),
        lock: Some(true),
        state: Some(String::from("closed")),
    };
    assert_eq!(params.title(), Some("my_issue"));
    assert_eq!(params.body(), Some("approve the concourse step"));
    assert_eq!(params.labels(), Some(vec![String::from("triage")]));
    assert_eq!(
        params.assignees(),
        Some(vec![
            String::from("my_user_one"),
            String::from("my_user_two")
        ])
    );
    assert_eq!(params.milestone(), Some(2));
    assert_eq!(params.lock(), Some(true));
    assert_eq!(params.state(), Some("closed"));
}

#[test]
fn outparams_default_has_every_field_absent() {
    let params = OutParams::default();
    assert_eq!(params.title(), None);
    assert_eq!(params.body(), None);
    assert_eq!(params.labels(), None);
    assert_eq!(params.assignees(), None);
    assert_eq!(params.milestone(), None);
    assert_eq!(params.lock(), None);
    assert_eq!(params.state(), None);
}
