use github_issues::component::component_name;
use github_issues::date::strip_date;
use github_issues::issue::{Assignee, Issue, IssueError, IssueState, IssueStateJson, Label, Milestone, PullRequest};
use github_issues::pipeline::{drop_pull_requests, get_all_issues, rank_issues};
use github_issues::rank::{compare_issues, compare_text};
use github_issues::row::{decimal_text, display_id};
use std::cmp::Ordering;

fn issue(repo: &str, number: u32, state: IssueStateJson, labels: Option<Vec<&str>>, closed_at: Option<&str>) -> Issue {
    Issue {
        title: format!("issue {}", number),
        html_url: format!("https://github.com/owner/{}/issues/{}", repo, number),
        number,
        repository_url: format!("https://api.github.com/repos/owner/{}", repo),
        pull_request: None,
        assignee: None,
        milestone: None,
        labels: labels.map(|ls| ls.into_iter().map(|n| Label { name: n.to_string() }).collect()),
        state,
        created_at: "2019-12-01T08:30:00Z".to_string(),
        closed_at: closed_at.map(|d| d.to_string()),
    }
}

fn open_issue(repo: &str, number: u32, labels: Vec<&str>) -> Issue {
    issue(repo, number, IssueStateJson::Open, Some(labels), None)
}

fn closed_issue(repo: &str, number: u32, closed_at: &str) -> Issue {
    issue(repo, number, IssueStateJson::Closed, None, Some(closed_at))
}

fn pull_request(repo: &str, number: u32) -> Issue {
    let mut i = open_issue(repo, number, vec![]);
    i.pull_request = Some(PullRequest {
        url: "https://api.github.com/pr".to_string(),
        html_url: "https://github.com/pr".to_string(),
        diff_url: "https://github.com/pr.diff".to_string(),
        patch_url: "https://github.com/pr.patch".to_string(),
    });
    i
}

fn numbers(issues: &[Issue]) -> Vec<(String, u32)> {
    issues.iter().map(|i| (i.get_component().unwrap(), i.number)).collect()
}

#[test]
fn under_review_wins_over_blocked() {
    let i = open_issue("alpha", 1, vec!["under review", "blocked"]);
    assert_eq!(i.get_state(), IssueState::UnderReview);
    assert_eq!(i.get_state_str(), "under review");
}

#[test]
fn blocked_label_gives_blocked() {
    let i = open_issue("alpha", 1, vec!["bug", "blocked"]);
    assert_eq!(i.get_state(), IssueState::Blocked);
    assert_eq!(i.get_state_str(), "blocked");
}

#[test]
fn closed_wins_over_labels() {
    let mut i = closed_issue("alpha", 1, "2020-01-01T00:00:00Z");
    i.labels = Some(vec![Label { name: "blocked".to_string() }, Label { name: "under review".to_string() }]);
    assert_eq!(i.get_state(), IssueState::Closed);
    assert_eq!(i.get_state_str(), "closed");
}

#[test]
fn no_labels_is_open() {
    let i = issue("alpha", 1, IssueStateJson::Open, None, None);
    assert_eq!(i.get_state(), IssueState::Open);
    assert_eq!(i.get_state_str(), "open");
    let j = open_issue("alpha", 2, vec![]);
    assert_eq!(j.get_state(), IssueState::Open);
}

#[test]
fn first_priority_label_wins() {
    assert_eq!(open_issue("alpha", 1, vec!["P2", "P0", "other"]).get_priority(), Some(2));
    assert_eq!(open_issue("alpha", 1, vec!["other"]).get_priority(), None);
    assert_eq!(issue("alpha", 1, IssueStateJson::Open, None, None).get_priority(), None);
    assert_eq!(open_issue("alpha", 1, vec!["bug", "P5"]).get_priority(), Some(5));
    assert_eq!(open_issue("alpha", 1, vec!["P6", "p1", "P0 "]).get_priority(), None);
}

#[test]
fn strip_date_keeps_the_day() {
    assert_eq!(strip_date("2021-03-05T12:00:00Z"), Ok("2021-03-05"));
    assert_eq!(strip_date("2021-03-05"), Ok("2021-03-05"));
    assert_eq!(strip_date("2021-03-0"), Err(IssueError::MalformedTimestamp));
    assert_eq!(strip_date(""), Err(IssueError::MalformedTimestamp));
}

#[test]
fn issue_dates() {
    let i = closed_issue("alpha", 1, "2020-01-01T10:00:00Z");
    assert_eq!(i.get_created_at(), Ok("2019-12-01"));
    assert_eq!(i.get_closed_at(), Ok(Some("2020-01-01")));
    let j = open_issue("alpha", 2, vec![]);
    assert_eq!(j.get_closed_at(), Ok(None));
    let mut k = open_issue("alpha", 3, vec![]);
    k.created_at = "2019".to_string();
    assert_eq!(k.get_created_at(), Err(IssueError::MalformedTimestamp));
}

#[test]
fn component_is_last_path_segment() {
    assert_eq!(component_name("https://api.github.com/repos/owner/alpha"), Ok("alpha".to_string()));
    assert_eq!(component_name("https://example.com"), Ok("".to_string()));
    assert_eq!(component_name("not a url"), Err(IssueError::MalformedRepositoryURL));
    assert_eq!(component_name("data:text/plain,HelloWorld"), Err(IssueError::MalformedRepositoryURL));
    assert_eq!(open_issue("beta", 1, vec![]).get_component(), Ok("beta".to_string()));
}

#[test]
fn text_order_is_lexical() {
    assert_eq!(compare_text("alpha", "beta"), Ordering::Less);
    assert_eq!(compare_text("beta", "alpha"), Ordering::Greater);
    assert_eq!(compare_text("alp", "alpha"), Ordering::Less);
    assert_eq!(compare_text("alpha", "alpha"), Ordering::Equal);
    assert_eq!(compare_text("Zeta", "alpha"), Ordering::Less);
}

#[test]
fn priority_comes_before_state() {
    let blocked = open_issue("alpha", 1, vec!["blocked"]);
    let urgent = open_issue("alpha", 2, vec!["P0"]);
    assert_eq!(blocked.get_state(), IssueState::Blocked);
    assert_eq!(compare_issues(&urgent, &blocked), Ok(Ordering::Less));
    assert_eq!(compare_issues(&blocked, &urgent), Ok(Ordering::Greater));
    let ranked = rank_issues(vec![blocked, urgent]).unwrap();
    assert_eq!(numbers(&ranked), vec![("alpha".to_string(), 2), ("alpha".to_string(), 1)]);
}

#[test]
fn most_recently_closed_first() {
    let older = closed_issue("alpha", 1, "2022-01-01T00:00:00Z");
    let newer = closed_issue("alpha", 2, "2022-06-01T00:00:00Z");
    assert_eq!(compare_issues(&newer, &older), Ok(Ordering::Less));
    let never = issue("alpha", 3, IssueStateJson::Closed, None, None);
    assert_eq!(compare_issues(&older, &never), Ok(Ordering::Less));
    let ranked = rank_issues(vec![older, never, newer]).unwrap();
    assert_eq!(numbers(&ranked).iter().map(|p| p.1).collect::<Vec<u32>>(), vec![2, 1, 3]);
}

#[test]
fn closed_issues_go_last() {
    let closed = closed_issue("alpha", 1, "2022-01-01T00:00:00Z");
    let mut closed_urgent = closed_issue("alpha", 2, "2022-01-01T00:00:00Z");
    closed_urgent.labels = Some(vec![Label { name: "P0".to_string() }]);
    let plain = open_issue("zeta", 9, vec![]);
    assert_eq!(compare_issues(&closed, &plain), Ok(Ordering::Greater));
    assert_eq!(compare_issues(&closed_urgent, &plain), Ok(Ordering::Greater));
    assert_eq!(compare_issues(&closed_urgent, &closed), Ok(Ordering::Less));
}

#[test]
fn state_then_component_then_number() {
    let review = open_issue("zeta", 1, vec!["under review"]);
    let blocked = open_issue("zeta", 2, vec!["blocked"]);
    let open_b = open_issue("beta", 3, vec![]);
    let open_a = open_issue("alpha", 7, vec![]);
    let open_a2 = open_issue("alpha", 4, vec![]);
    assert_eq!(compare_issues(&blocked, &review), Ok(Ordering::Less));
    assert_eq!(compare_issues(&review, &open_a), Ok(Ordering::Less));
    assert_eq!(compare_issues(&open_a, &open_b), Ok(Ordering::Less));
    assert_eq!(compare_issues(&open_a2, &open_a), Ok(Ordering::Less));
    assert_eq!(compare_issues(&open_a, &open_a.clone()), Ok(Ordering::Equal));
    let ranked = rank_issues(vec![open_b, open_a, review, open_a2, blocked]).unwrap();
    assert_eq!(ranked.iter().map(|i| i.number).collect::<Vec<u32>>(), vec![2, 1, 4, 7, 3]);
}

#[test]
fn permutations_rank_alike() {
    let make = || {
        vec![
            open_issue("alpha", 5, vec!["P1"]),
            closed_issue("alpha", 2, "2020-01-01T00:00:00Z"),
            open_issue("beta", 9, vec!["blocked"]),
            open_issue("beta", 1, vec![]),
        ]
    };
    let first = numbers(&rank_issues(make()).unwrap());
    let mut reversed = make();
    reversed.reverse();
    assert_eq!(numbers(&rank_issues(reversed).unwrap()), first);
    let mut rotated = make();
    rotated.rotate_left(2);
    assert_eq!(numbers(&rank_issues(rotated).unwrap()), first);
}

#[test]
fn pipeline_end_to_end() {
    let alpha = vec![open_issue("alpha", 5, vec!["P1"]), closed_issue("alpha", 2, "2020-01-01T00:00:00Z")];
    let beta = vec![open_issue("beta", 9, vec!["blocked"]), pull_request("beta", 10)];
    let ranked = get_all_issues(vec![Some(alpha), Some(beta)]).unwrap();
    assert_eq!(
        numbers(&ranked),
        vec![("alpha".to_string(), 5), ("beta".to_string(), 9), ("alpha".to_string(), 2)]
    );
    assert_eq!(ranked[0].get_priority(), Some(1));
    assert_eq!(ranked[0].get_state(), IssueState::Open);
    assert_eq!(ranked[1].get_priority(), None);
    assert_eq!(ranked[1].get_state(), IssueState::Blocked);
    assert_eq!(ranked[2].get_state(), IssueState::Closed);
}

#[test]
fn failed_fetch_aborts() {
    let alpha = vec![open_issue("alpha", 5, vec!["P1"])];
    assert_eq!(get_all_issues(vec![Some(alpha), None]).unwrap_err(), IssueError::SourceFetchFailed);
    assert_eq!(get_all_issues(vec![]).unwrap().len(), 0);
}

#[test]
fn pull_requests_are_dropped() {
    let kept = drop_pull_requests(vec![pull_request("alpha", 1), open_issue("alpha", 2, vec![]), pull_request("alpha", 3)]);
    assert_eq!(kept.len(), 1);
    assert_eq!(kept[0].number, 2);
    assert!(pull_request("alpha", 1).is_pull_request());
    assert!(!open_issue("alpha", 1, vec![]).is_pull_request());
}

#[test]
fn malformed_records_abort_ranking() {
    let mut bad_url = open_issue("alpha", 1, vec![]);
    bad_url.repository_url = "nowhere".to_string();
    let mut bad_date = closed_issue("alpha", 2, "2020");
    bad_date.closed_at = Some("2020".to_string());
    let good = open_issue("alpha", 3, vec![]);
    assert_eq!(compare_issues(&bad_url, &good), Err(IssueError::MalformedRepositoryURL));
    assert_eq!(compare_issues(&bad_date, &good), Err(IssueError::MalformedTimestamp));
    assert_eq!(rank_issues(vec![good.clone(), bad_date.clone(), bad_url.clone()]).unwrap_err(), IssueError::MalformedTimestamp);
    assert_eq!(rank_issues(vec![bad_url, bad_date]).unwrap_err(), IssueError::MalformedRepositoryURL);
    let mut bad_pr = pull_request("alpha", 4);
    bad_pr.repository_url = "nowhere".to_string();
    assert_eq!(rank_issues(vec![good, bad_pr]).unwrap().len(), 1);
}

#[test]
fn decimal_and_display_id() {
    assert_eq!(decimal_text(0), "0");
    assert_eq!(decimal_text(7), "7");
    assert_eq!(decimal_text(1204), "1204");
    assert_eq!(decimal_text(u32::MAX), "4294967295");
    assert_eq!(display_id(42), "#42");
}

#[test]
fn projected_row() {
    let mut i = closed_issue("alpha", 42, "2020-01-01T10:00:00Z");
    i.labels = Some(vec![Label { name: "P3".to_string() }]);
    i.assignee = Some(Assignee { login: "octocat".to_string() });
    i.milestone = Some(Milestone { title: "v1".to_string() });
    let row = i.csv().unwrap();
    assert_eq!(row.component, "alpha");
    assert_eq!(row.id, "#42");
    assert_eq!(row.title, "issue 42");
    assert_eq!(row.state, "closed");
    assert_eq!(row.assignee, Some("octocat".to_string()));
    assert_eq!(row.milestone, Some("v1".to_string()));
    assert_eq!(row.priority, Some(3));
    assert_eq!(row.created_at, "2019-12-01");
    assert_eq!(row.closed_at, Some("2020-01-01".to_string()));
    assert_eq!(row.url, "https://github.com/owner/alpha/issues/42");
    let mut bad = open_issue("alpha", 1, vec![]);
    bad.created_at = "x".to_string();
    assert_eq!(bad.csv().unwrap_err(), IssueError::MalformedTimestamp);
}
