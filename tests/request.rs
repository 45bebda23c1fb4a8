use star_tracker::{authorization_value, bearer_text, check_status, page_size, stargazers_query, user_agent_value, Args, StarError};

const TAIL: &str = ") { edges { starredAt, node { name, email, login, location, followers { totalCount }, following { totalCount }, isHireable } } pageInfo { hasNextPage endCursor } } } }";

#[test]
fn the_first_query_has_no_after_argument() {
    let q = stargazers_query("rust-lang", "rust", 100, &None);
    let expected = format!(
        "{{ repository(owner: \"rust-lang\", name: \"rust\") {{ stargazers(first: 100{}",
        TAIL
    );
    assert_eq!(q, expected);
    assert!(!q.contains("after"));
}

#[test]
fn a_cursor_becomes_the_after_argument() {
    let q = stargazers_query("o", "r", 100, &Some("Y3Vyc29yOjE=".to_string()));
    let expected = format!(
        "{{ repository(owner: \"o\", name: \"r\") {{ stargazers(first: 100, after: \"Y3Vyc29yOjE=\"{}",
        TAIL
    );
    assert_eq!(q, expected);
}

#[test]
fn the_page_size_is_written_in_decimal() {
    assert!(stargazers_query("o", "r", 0, &None).contains("(first: 0)"));
    assert!(stargazers_query("o", "r", 7, &None).contains("(first: 7)"));
    assert!(stargazers_query("o", "r", 12345, &None).contains("(first: 12345)"));
    assert!(stargazers_query("o", "r", usize::MAX, &None).contains(&format!("(first: {})", usize::MAX)));
}

#[test]
fn success_statuses_pass_and_others_are_remote_errors() {
    assert!(check_status(200).is_ok());
    assert!(check_status(204).is_ok());
    assert!(check_status(299).is_ok());
    for code in [199u16, 300, 401, 404, 502] {
        match check_status(code) {
            Err(StarError::Remote(c)) => assert_eq!(c, code),
            other => panic!("status {} gave {:?}", code, other),
        }
    }
}

#[test]
fn the_bearer_text_prefixes_the_token() {
    assert_eq!(bearer_text("abc"), "Bearer abc");
    assert_eq!(bearer_text(""), "Bearer ");
}

#[test]
fn a_valid_token_gives_the_bearer_header() {
    let v = authorization_value("ghp_token123").unwrap();
    assert_eq!(v.as_bytes(), b"Bearer ghp_token123");
    let tabbed = authorization_value("a\tb").unwrap();
    assert_eq!(tabbed.as_bytes(), b"Bearer a\tb");
}

#[test]
fn a_token_with_control_characters_is_a_config_error() {
    assert!(matches!(authorization_value("bad\ntoken"), Err(StarError::Config(_))));
    assert!(matches!(authorization_value("del\u{7f}"), Err(StarError::Config(_))));
}

#[test]
fn the_user_agent_names_the_tool() {
    assert_eq!(user_agent_value().as_bytes(), b"star-tracker/v0");
}

#[test]
fn the_default_output_path_names_owner_and_repository() {
    let args = Args { owner: "tokio-rs".to_string(), repository: "axum".to_string(), path: None };
    assert_eq!(args.output_path(), "tokio-rs-axum-stargazers.csv");
}

#[test]
fn a_given_output_path_is_kept() {
    let args = Args {
        owner: "o".to_string(),
        repository: "r".to_string(),
        path: Some("out/stars.csv".to_string()),
    };
    assert_eq!(args.output_path(), "out/stars.csv");
}

#[test]
fn one_request_asks_for_a_hundred_edges() {
    assert_eq!(page_size(), 100);
    assert!(stargazers_query("o", "r", page_size(), &None).contains("(first: 100)"));
}
