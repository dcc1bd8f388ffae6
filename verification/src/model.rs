//! The values that travel through one request, each with its mathematical view.

use vstd::prelude::*;

verus! {

/// The repository a caller asks about.
#[derive(Clone, Debug, PartialEq, Eq)]
pub struct RepoRef {
    pub owner: String,
    pub name: String,
}

/// A repository reference as contracts speak of it.
pub struct RepoRefView {
    pub owner: Seq<char>,
    pub name: Seq<char>,
}

impl View for RepoRef {
    type V = RepoRefView;

    open spec fn view(&self) -> RepoRefView {
        RepoRefView { owner: self.owner@, name: self.name@ }
    }
}

/// A label of an issue; `color` is hexadecimal without a leading `#`, as received.
#[derive(Clone, Debug, PartialEq, Eq)]
pub struct Label {
    pub name: String,
    pub color: String,
}

/// A label as contracts speak of it.
pub struct LabelView {
    pub name: Seq<char>,
    pub color: Seq<char>,
}

impl View for Label {
    type V = LabelView;

    open spec fn view(&self) -> LabelView {
        LabelView { name: self.name@, color: self.color@ }
    }
}

/// The views of a sequence of labels, in order.
pub open spec fn label_views(labels: Seq<Label>) -> Seq<LabelView> {
    labels.map_values(|label: Label| label@)
}

/// One open issue, reduced to the fields the service hands on.
#[derive(Clone, Debug, PartialEq, Eq)]
pub struct Issue {
    pub api_url: String,
    pub html_url: String,
    pub labels_url: String,
    pub number: u64,
    pub title: String,
    pub author_login: String,
    pub labels: Vec<Label>,
    /// ISO-8601, kept as received.
    pub created_at: String,
}

/// An issue as contracts speak of it.
pub struct IssueView {
    pub api_url: Seq<char>,
    pub html_url: Seq<char>,
    pub labels_url: Seq<char>,
    pub number: u64,
    pub title: Seq<char>,
    pub author_login: Seq<char>,
    pub labels: Seq<LabelView>,
    pub created_at: Seq<char>,
}

impl View for Issue {
    type V = IssueView;

    open spec fn view(&self) -> IssueView {
        IssueView {
            api_url: self.api_url@,
            html_url: self.html_url@,
            labels_url: self.labels_url@,
            number: self.number,
            title: self.title@,
            author_login: self.author_login@,
            labels: label_views(self.labels@),
            created_at: self.created_at@,
        }
    }
}

/// The views of a sequence of issues, in order.
pub open spec fn issue_views(issues: Seq<Issue>) -> Seq<IssueView> {
    issues.map_values(|issue: Issue| issue@)
}

/// Viewing distributes over concatenation.
pub proof fn lemma_issue_views_concat(front: Seq<Issue>, back: Seq<Issue>)
    ensures
        issue_views(front + back) == issue_views(front) + issue_views(back),
{
    assert(issue_views(front + back) =~= issue_views(front) + issue_views(back));
}

/// The upstream quota, read once per request.
#[derive(Clone, Copy, Debug, PartialEq, Eq, Structural)]
pub struct RateStatus {
    pub limit: u64,
    pub remaining: u64,
    pub reset: u64,
}

/// The number of open issues of a repository, read once per request.
#[derive(Clone, Copy, Debug, PartialEq, Eq, Structural)]
pub struct IssueCount {
    pub open_issues: u64,
}

} // verus!
