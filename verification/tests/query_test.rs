use ateam::cli::PrArgs;
use ateam::query::{github_query, join_spaces, query_drafts, query_labels, query_org, query_repos};

fn args() -> PrArgs {
    PrArgs {
        repo: vec![],
        org: None,
        query: vec![],
        num: None,
        short: false,
        json: false,
        label: vec![],
        exclude_label: vec![],
        regex: None,
        regex_not: None,
        include_reviewed_by_me: false,
        include_mine: false,
        only_mine: false,
        requested: false,
        include_drafts: false,
        include_tests_pending: false,
        include_tests_failure: false,
        exclude_tests_none: false,
        exclude_tests_success: false,
        tests_regex: None,
        required_approvals: 2,
        blame: false,
        user: None,
        batch_size: 30,
        debug: false,
    }
}

#[test]
fn default_query_excludes_drafts() {
    let u = "bob".to_string();
    assert_eq!(github_query(&u, &args()), "is:pr is:open draft:false ");
}

#[test]
fn clause_order_is_fixed() {
    let mut a = args();
    a.include_drafts = false;
    a.only_mine = true;
    a.requested = true;
    a.label = vec!["bug fix".to_string()];
    a.exclude_label = vec!["wip".to_string()];
    a.repo = vec!["a/b".to_string(), "c/d".to_string()];
    a.org = Some("acme".to_string());
    a.query = vec!["review:required".to_string(), "base:main".to_string()];
    let u = "bob".to_string();
    assert_eq!(
        github_query(&u, &a),
        "is:pr is:open draft:false author:bob review-requested:bob \
         label:\"bug fix\" -label:\"wip\" repo:a/b repo:c/d org:acme \
         review:required base:main",
    );
}

#[test]
fn drafts_clause_toggles() {
    assert_eq!(query_drafts(false), "draft:false ");
    assert_eq!(query_drafts(true), "");
}

#[test]
fn label_clauses_are_quoted() {
    let labels = vec!["a".to_string()];
    let excluded = vec!["b".to_string()];
    assert_eq!(query_labels(&labels, &excluded), "label:\"a\" -label:\"b\" ");
}

#[test]
fn repo_and_org_clauses() {
    assert_eq!(query_repos(&vec!["x/y".to_string()]), "repo:x/y ");
    assert_eq!(query_org(&Some("acme".to_string())), "org:acme ");
    assert_eq!(query_org(&None), "");
}

#[test]
fn free_fragments_join_with_single_spaces() {
    assert_eq!(join_spaces(&vec![]), "");
    assert_eq!(join_spaces(&vec!["a".to_string()]), "a");
    assert_eq!(join_spaces(&vec!["a".to_string(), "b".to_string()]), "a b");
}
