use ateam::blame::{any_blame, is_file_author, BlameAuthor, BlameRange, BlameResponse};

fn author(login: Option<&str>) -> BlameAuthor {
    BlameAuthor { login: login.map(|l| l.to_string()) }
}

#[test]
fn user_found_in_some_range() {
    let resp = BlameResponse {
        ranges: Some(vec![
            BlameRange { authors: vec![author(Some("alice")), author(None)] },
            BlameRange { authors: vec![author(Some("bob"))] },
        ]),
    };
    let bob = "bob".to_string();
    let carol = "carol".to_string();
    assert!(is_file_author(&resp, &bob));
    assert!(!is_file_author(&resp, &carol));
}

#[test]
fn unreadable_response_blames_nobody() {
    let resp = BlameResponse { ranges: None };
    let bob = "bob".to_string();
    assert!(!is_file_author(&resp, &bob));
    let empty = BlameResponse { ranges: Some(vec![]) };
    assert!(!is_file_author(&empty, &bob));
}

#[test]
fn blame_verdicts_combine_with_or() {
    assert!(!any_blame(&vec![]));
    assert!(!any_blame(&vec![false, false]));
    assert!(any_blame(&vec![false, true, false]));
}
