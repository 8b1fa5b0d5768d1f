use ateam::render::{pr_row, review_row, reviews, short_prs};
use ateam::types::Score;
use ateam::strfmt::{i64_to_string, score_tenths, show_bool, show_duration};
use ateam::types::{Files, Label, Labels, Pr, Review, ReviewState, ScoredPr, TestsState};

fn sample_pr() -> Pr {
    Pr {
        title: "Improve parsing".to_string(),
        url: "https://example.test/pr/9".to_string(),
        last_commit_pushed_date: Some(0),
        last_commit_age_min: Some(1500),
        tests_result: TestsState::Success,
        open_conversations: 2,
        num_approvals: 1,
        num_reviewers: 3,
        additions: 10,
        deletions: 4,
        based_on_main_branch: true,
        files: Files(vec![]),
        blame: false,
        labels: Labels(vec![Label { name: "bug".to_string(), color: "red".to_string() }]),
        requested: true,
        codeowner: false,
    }
}

#[test]
fn decimal_rendering() {
    assert_eq!(i64_to_string(0), "0");
    assert_eq!(i64_to_string(42), "42");
    assert_eq!(i64_to_string(-7), "-7");
    assert_eq!(i64_to_string(1000), "1000");
}

#[test]
fn duration_rendering() {
    assert_eq!(show_duration(None), "-");
    assert_eq!(show_duration(Some(0)), "");
    assert_eq!(show_duration(Some(59)), "59m ");
    assert_eq!(show_duration(Some(61)), "1h 1m ");
    assert_eq!(show_duration(Some(1500)), "1d 1h ");
    assert_eq!(show_duration(Some(2880)), "2d ");
    assert_eq!(show_duration(Some(-5)), "");
}

#[test]
fn score_tenths_rendering() {
    // 3000 units is one point
    assert_eq!(score_tenths(3000), "1.0");
    assert_eq!(score_tenths(-1500), "-0.5");
    assert_eq!(score_tenths(0), "0.0");
    assert_eq!(score_tenths(1234567), "411.5");
}

#[test]
fn booleans_render_yes_no() {
    assert_eq!(show_bool(true), "yes");
    assert_eq!(show_bool(false), "no");
}

#[test]
fn pr_row_cells() {
    let pr = sample_pr();
    let score = Score::from_pr(2, &pr);
    let spr = ScoredPr { pr, score };
    let cells = pr_row(&spr, false);
    assert_eq!(cells.len(), 11);
    assert_eq!(cells[0], "https://example.test/pr/9\nImprove parsing (bug)");
    assert_eq!(cells[1], "1d 1h ");
    assert_eq!(cells[2], "OK");
    assert_eq!(cells[3], "2");
    assert_eq!(cells[4], "1/3");
    assert_eq!(cells[5], "+10 -4");
    assert_eq!(cells[6], "yes");
    assert_eq!(cells[7], "no");
    assert_eq!(cells[8], "yes");
    assert_eq!(cells[9], "no");
    // total: age 50 + tests 200 - conversations 60 + approvals 80
    //        - numReviewers 50 - additions 5 - deletions 0.4 + main 200
    //        + requested 800 = 1214.6
    assert_eq!(cells[10], "1214.6");
}

#[test]
fn short_form_lists_lines() {
    let pr = sample_pr();
    let score = Score::from_pr(2, &pr);
    let spr = ScoredPr { pr, score };
    let pr2 = sample_pr();
    let score2 = Score::from_pr(2, &pr2);
    let spr2 = ScoredPr { pr: pr2, score: score2 };
    let s = short_prs(&vec![spr, spr2], 10);
    assert_eq!(
        s,
        "https://example.test/pr/9 - Improve parsing (bug)\nhttps://example.test/pr/9 - Improve parsing (bug)"
    );
    let pr3 = sample_pr();
    let score3 = Score::from_pr(2, &pr3);
    let one = short_prs(&vec![ScoredPr { pr: pr3, score: score3 }], 1);
    assert_eq!(one, "https://example.test/pr/9 - Improve parsing (bug)");
}

#[test]
fn review_row_cells() {
    let r = Review {
        state: ReviewState::WithAddressedConversations,
        url: "https://example.test/review/3".to_string(),
        pr_title: "Improve parsing".to_string(),
    };
    let cells = review_row(&r);
    assert_eq!(
        cells,
        vec![
            "https://example.test/review/3".to_string(),
            "With addressed conversations".to_string(),
            "Improve parsing".to_string(),
        ]
    );
}

#[test]
fn reviews_json_format() {
    let list = vec![
        Review {
            state: ReviewState::Dismissed,
            url: "https://example.test/review/1".to_string(),
            pr_title: "A \"quoted\" title\n".to_string(),
        },
        Review {
            state: ReviewState::WithAddressedConversations,
            url: "https://example.test/review/2".to_string(),
            pr_title: "plain".to_string(),
        },
    ];
    assert_eq!(
        reviews(&list, true),
        "[{\"state\":\"Dismissed\",\"url\":\"https://example.test/review/1\",\
         \"pr_title\":\"A \\\"quoted\\\" title\\n\"},\
         {\"state\":\"WithAddressedConversations\",\
         \"url\":\"https://example.test/review/2\",\"pr_title\":\"plain\"}]"
    );
}

#[test]
fn reviews_plain_rows() {
    let list = vec![Review {
        state: ReviewState::Dismissed,
        url: "u1".to_string(),
        pr_title: "t1".to_string(),
    }];
    assert_eq!(reviews(&list, false), "u1 Dismissed t1");
    assert_eq!(reviews(&vec![], true), "[]");
    assert_eq!(reviews(&vec![], false), "");
}

#[test]
fn control_characters_use_unicode_escapes() {
    let list = vec![Review {
        state: ReviewState::Dismissed,
        url: "u".to_string(),
        pr_title: "a\u{1}b\tc".to_string(),
    }];
    assert_eq!(
        reviews(&list, true),
        "[{\"state\":\"Dismissed\",\"url\":\"u\",\"pr_title\":\"a\\u0001b\\tc\"}]"
    );
}
