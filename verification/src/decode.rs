//! The shapes that upstream bodies are decoded into. Members that a shape
//! does not name are passed over; a member that it names and that is
//! missing, or of another kind, makes the body undecodable.

use crate::json::{
    length_at, length_in, nodes, number_at, number_in, parse, parsed, text_at, text_in, Document,
};
use crate::model::{
    issue_views, label_views, Issue, IssueCount, IssueView, Label, LabelView, RateStatus,
};
use crate::text::{decimal, push_decimal};
use vstd::prelude::*;

verus! {

/// The pointer to member `member` of what stands at `base`.
pub open spec fn member_path(base: Seq<char>, member: Seq<char>) -> Seq<char> {
    base + "/"@ + member
}

/// The pointer to item `index` of the array at `base`.
pub open spec fn item_path(base: Seq<char>, index: nat) -> Seq<char> {
    base + "/"@ + decimal(index)
}

/// The quota in a document of the rate-limit endpoint: an object whose
/// member `rate` holds `limit`, `remaining` and `reset`.
pub open spec fn rate_in(document: Document) -> Option<RateStatus> {
    match (
        number_in(document, "/rate/limit"@),
        number_in(document, "/rate/remaining"@),
        number_in(document, "/rate/reset"@),
    ) {
        (Some(limit), Some(remaining), Some(reset)) => Some(
            RateStatus { limit, remaining, reset },
        ),
        _ => None,
    }
}

/// The count in a document of a repository's endpoint: an object that
/// holds `open_issues`.
pub open spec fn count_in(document: Document) -> Option<IssueCount> {
    match number_in(document, "/open_issues"@) {
        Some(open_issues) => Some(IssueCount { open_issues }),
        None => None,
    }
}

/// The label at `base`: an object that holds `name` and `color`.
pub open spec fn label_in(document: Document, base: Seq<char>) -> Option<LabelView> {
    match (
        text_in(document, member_path(base, "name"@)),
        text_in(document, member_path(base, "color"@)),
    ) {
        (Some(name), Some(color)) => Some(LabelView { name, color }),
        _ => None,
    }
}

/// The label that is item `index` of the array at `base`.
pub open spec fn label_item(document: Document, base: Seq<char>, index: int) -> Option<LabelView> {
    label_in(document, item_path(base, index as nat))
}

/// The labels at `base`: an array whose every item is a label.
pub open spec fn labels_in(document: Document, base: Seq<char>) -> Option<Seq<LabelView>> {
    match length_in(document, base) {
        None => None,
        Some(count) => if forall|index: int|
            0 <= index < count ==> (#[trigger] label_item(document, base, index)) is Some {
            Some(Seq::new(count, |index: int| label_item(document, base, index)->Some_0))
        } else {
            None
        },
    }
}

/// The issue at `base`: an object that holds `url`, `html_url`,
/// `labels_url`, `number`, `title`, `user` with its `login`, `labels` and
/// `created_at`.
pub open spec fn issue_in(document: Document, base: Seq<char>) -> Option<IssueView> {
    match (
        text_in(document, member_path(base, "url"@)),
        text_in(document, member_path(base, "html_url"@)),
        text_in(document, member_path(base, "labels_url"@)),
        number_in(document, member_path(base, "number"@)),
        text_in(document, member_path(base, "title"@)),
        text_in(document, member_path(base, "user/login"@)),
        labels_in(document, member_path(base, "labels"@)),
        text_in(document, member_path(base, "created_at"@)),
    ) {
        (
            Some(api_url),
            Some(html_url),
            Some(labels_url),
            Some(number),
            Some(title),
            Some(author_login),
            Some(labels),
            Some(created_at),
        ) => Some(
            IssueView {
                api_url,
                html_url,
                labels_url,
                number,
                title,
                author_login,
                labels,
                created_at,
            },
        ),
        _ => None,
    }
}

/// The issue that is item `index` of the document's root.
pub open spec fn issue_item(document: Document, index: int) -> Option<IssueView> {
    issue_in(document, item_path(Seq::empty(), index as nat))
}

/// The issues in a document of an issue page: an array whose every item is
/// an issue.
pub open spec fn issues_in(document: Document) -> Option<Seq<IssueView>> {
    match length_in(document, Seq::empty()) {
        None => None,
        Some(count) => if forall|index: int|
            0 <= index < count ==> (#[trigger] issue_item(document, index)) is Some {
            Some(Seq::new(count, |index: int| issue_item(document, index)->Some_0))
        } else {
            None
        },
    }
}

/// The quota that `body` holds, where it is JSON of that shape.
pub open spec fn rate_of(body: Seq<u8>) -> Option<RateStatus> {
    match parsed(body) {
        Some(document) => rate_in(document),
        None => None,
    }
}

/// The count that `body` holds, where it is JSON of that shape.
pub open spec fn count_of(body: Seq<u8>) -> Option<IssueCount> {
    match parsed(body) {
        Some(document) => count_in(document),
        None => None,
    }
}

/// The issues that `body` holds, where it is JSON of that shape.
pub open spec fn issues_of(body: Seq<u8>) -> Option<Seq<IssueView>> {
    match parsed(body) {
        Some(document) => issues_in(document),
        None => None,
    }
}

/// The view of a label that may be missing.
pub open spec fn label_view(label: Option<Label>) -> Option<LabelView> {
    match label {
        Some(label) => Some(label@),
        None => None,
    }
}

/// The views of labels that may be missing.
pub open spec fn labels_view(labels: Option<Vec<Label>>) -> Option<Seq<LabelView>> {
    match labels {
        Some(labels) => Some(label_views(labels@)),
        None => None,
    }
}

/// The view of an issue that may be missing.
pub open spec fn issue_view(issue: Option<Issue>) -> Option<IssueView> {
    match issue {
        Some(issue) => Some(issue@),
        None => None,
    }
}

/// The views of issues that may be missing.
pub open spec fn issues_view(issues: Option<Vec<Issue>>) -> Option<Seq<IssueView>> {
    match issues {
        Some(issues) => Some(issue_views(issues@)),
        None => None,
    }
}

fn member_pointer(base: &str, member: &str) -> (pointer: String)
    ensures
        pointer@ == member_path(base@, member@),
{
    let mut pointer = String::from_str(base);
    pointer.append("/");
    pointer.append(member);
    pointer
}

fn item_pointer(base: &str, index: usize) -> (pointer: String)
    ensures
        pointer@ == item_path(base@, index as nat),
{
    let mut pointer = String::from_str(base);
    pointer.append("/");
    push_decimal(&mut pointer, index as u64);
    pointer
}

/// Reads the quota out of a parsed body.
pub fn decode_rate(value: &serde_json::Value) -> (rate: Option<RateStatus>)
    ensures
        rate == rate_in(nodes(*value)),
{
    let limit = number_at(value, "/rate/limit");
    let remaining = number_at(value, "/rate/remaining");
    let reset = number_at(value, "/rate/reset");
    match (limit, remaining, reset) {
        (Some(limit), Some(remaining), Some(reset)) => Some(
            RateStatus { limit, remaining, reset },
        ),
        _ => None,
    }
}

/// Reads the open-issue count out of a parsed body.
pub fn decode_count(value: &serde_json::Value) -> (count: Option<IssueCount>)
    ensures
        count == count_in(nodes(*value)),
{
    match number_at(value, "/open_issues") {
        Some(open_issues) => Some(IssueCount { open_issues }),
        None => None,
    }
}

/// Reads the label at `base` out of a parsed body.
pub fn decode_label(value: &serde_json::Value, base: &str) -> (label: Option<Label>)
    ensures
        label_view(label) == label_in(nodes(*value), base@),
{
    let name = text_at(value, member_pointer(base, "name").as_str());
    let color = text_at(value, member_pointer(base, "color").as_str());
    match (name, color) {
        (Some(name), Some(color)) => Some(Label { name, color }),
        _ => None,
    }
}

/// Reads the labels at `base` out of a parsed body.
pub fn decode_labels(value: &serde_json::Value, base: &str) -> (labels: Option<Vec<Label>>)
    ensures
        labels_view(labels) == labels_in(nodes(*value), base@),
{
    let count: usize = match length_at(value, base) {
        Some(count) => count,
        None => {
            return None;
        },
    };
    let ghost document = nodes(*value);
    let mut labels: Vec<Label> = Vec::new();
    let mut index: usize = 0;
    while index < count
        invariant
            index <= count,
            document == nodes(*value),
            length_in(document, base@) == Some(count as nat),
            labels@.len() == index,
            forall|at: int|
                0 <= at < index ==> (#[trigger] label_item(document, base@, at)) == Some(
                    labels@[at]@,
                ),
        decreases count - index,
    {
        match decode_label(value, item_pointer(base, index).as_str()) {
            Some(label) => {
                labels.push(label);
            },
            None => {
                assert(label_item(document, base@, index as int) is None);
                return None;
            },
        }
        index += 1;
    }
    Some(labels)
}

/// Reads the issue at `base` out of a parsed body.
pub fn decode_issue(value: &serde_json::Value, base: &str) -> (issue: Option<Issue>)
    ensures
        issue_view(issue) == issue_in(nodes(*value), base@),
{
    let api_url = text_at(value, member_pointer(base, "url").as_str());
    let html_url = text_at(value, member_pointer(base, "html_url").as_str());
    let labels_url = text_at(value, member_pointer(base, "labels_url").as_str());
    let number = number_at(value, member_pointer(base, "number").as_str());
    let title = text_at(value, member_pointer(base, "title").as_str());
    let author_login = text_at(value, member_pointer(base, "user/login").as_str());
    let labels = decode_labels(value, member_pointer(base, "labels").as_str());
    let created_at = text_at(value, member_pointer(base, "created_at").as_str());
    match (api_url, html_url, labels_url, number, title, author_login, labels, created_at) {
        (
            Some(api_url),
            Some(html_url),
            Some(labels_url),
            Some(number),
            Some(title),
            Some(author_login),
            Some(labels),
            Some(created_at),
        ) => Some(
            Issue {
                api_url,
                html_url,
                labels_url,
                number,
                title,
                author_login,
                labels,
                created_at,
            },
        ),
        _ => None,
    }
}

/// Reads the issues of a page out of a parsed body.
pub fn decode_issues(value: &serde_json::Value) -> (issues: Option<Vec<Issue>>)
    ensures
        issues_view(issues) == issues_in(nodes(*value)),
{
    proof {
        reveal_strlit("");
        assert(""@ =~= Seq::<char>::empty());
    }
    let count: usize = match length_at(value, "") {
        Some(count) => count,
        None => {
            return None;
        },
    };
    let ghost document = nodes(*value);
    let mut issues: Vec<Issue> = Vec::new();
    let mut index: usize = 0;
    while index < count
        invariant
            index <= count,
            document == nodes(*value),
            ""@ == Seq::<char>::empty(),
            length_in(document, Seq::empty()) == Some(count as nat),
            issues@.len() == index,
            forall|at: int|
                0 <= at < index ==> (#[trigger] issue_item(document, at)) == Some(issues@[at]@),
        decreases count - index,
    {
        match decode_issue(value, item_pointer("", index).as_str()) {
            Some(issue) => {
                issues.push(issue);
            },
            None => {
                assert(issue_item(document, index as int) is None);
                return None;
            },
        }
        index += 1;
    }
    Some(issues)
}

/// Decodes `body` as the answer of the rate-limit endpoint.
pub fn rate_from(body: &[u8]) -> (rate: Option<RateStatus>)
    ensures
        rate == rate_of(body@),
{
    match parse(body) {
        Some(value) => decode_rate(&value),
        None => None,
    }
}

/// Decodes `body` as the answer of a repository's endpoint.
pub fn count_from(body: &[u8]) -> (count: Option<IssueCount>)
    ensures
        count == count_of(body@),
{
    match parse(body) {
        Some(value) => decode_count(&value),
        None => None,
    }
}

/// Decodes `body` as a page of issues.
pub fn issues_from(body: &[u8]) -> (issues: Option<Vec<Issue>>)
    ensures
        issues_view(issues) == issues_of(body@),
{
    match parse(body) {
        Some(value) => decode_issues(&value),
        None => None,
    }
}

} // verus!
